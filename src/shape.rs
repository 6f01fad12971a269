//! A closed set of shapes. The measures of a shape are of any type `F`, so the
//! structural operations (which variant, which name) hold whatever the
//! measures are; a shape whose measures are written out as text can be
//! described in a sentence. Numeric formulas over the measures are left to the
//! caller.

use vstd::prelude::*;

verus! {

/// One of three mutually exclusive shape kinds with their measures.
pub enum Shape<F> {
    Circle { radius: F },
    Rectangle { width: F, height: F },
    Square { side: F },
}

/// The name token of each variant.
pub open spec fn shape_name<F>(s: Shape<F>) -> Seq<char> {
    match s {
        Shape::Circle { .. } => "Circle"@,
        Shape::Rectangle { .. } => "Rectangle"@,
        Shape::Square { .. } => "Square"@,
    }
}

/// Whether two shapes are of the same variant, whatever their measures.
pub open spec fn same_variant<F>(a: Shape<F>, b: Shape<F>) -> bool {
    (a is Circle && b is Circle) || (a is Rectangle && b is Rectangle) || (a is Square
        && b is Square)
}

impl<F> Shape<F> {
    /// True exactly for the circle variant.
    pub fn is_circle(&self) -> (r: bool)
        ensures
            r == (*self is Circle),
    {
        matches!(self, Shape::Circle { .. })
    }

    /// The fixed name token of the variant: "Circle", "Rectangle" or "Square".
    pub fn name(&self) -> (r: &'static str)
        ensures
            r@ == shape_name(*self),
    {
        match self {
            Shape::Circle { .. } => "Circle",
            Shape::Rectangle { .. } => "Rectangle",
            Shape::Square { .. } => "Square",
        }
    }
}

/// The sentence that describes a shape whose measures are given as text.
pub open spec fn description(s: Shape<Seq<char>>) -> Seq<char> {
    match s {
        Shape::Circle { radius } => "A circle with radius "@ + radius,
        Shape::Rectangle { width, height } => "A rectangle with width "@ + width
            + " and height "@ + height,
        Shape::Square { side } => "A square with side length "@ + side,
    }
}

/// The same shape with each measure replaced by its characters.
pub open spec fn measures_text(s: Shape<String>) -> Shape<Seq<char>> {
    match s {
        Shape::Circle { radius } => Shape::Circle { radius: radius@ },
        Shape::Rectangle { width, height } => Shape::Rectangle { width: width@, height: height@ },
        Shape::Square { side } => Shape::Square { side: side@ },
    }
}

impl Shape<String> {
    /// A sentence that names the shape and gives its measures, each as the
    /// text it is given in, in the order of the variant's fields.
    pub fn describe(&self) -> (r: String)
        ensures
            r@ == description(measures_text(*self)),
    {
        match self {
            Shape::Circle { radius } => String::from_str("A circle with radius ").concat(
                radius.as_str(),
            ),
            Shape::Rectangle { width, height } => String::from_str(
                "A rectangle with width ",
            ).concat(width.as_str()).concat(" and height ").concat(height.as_str()),
            Shape::Square { side } => String::from_str("A square with side length ").concat(
                side.as_str(),
            ),
        }
    }
}

/// The name of a shape is one of the three fixed tokens.
pub proof fn name_is_one_of_three<F>(s: Shape<F>)
    ensures
        shape_name(s) == "Circle"@ || shape_name(s) == "Rectangle"@ || shape_name(s)
            == "Square"@,
{
}

/// The name and the circle test depend on the variant alone, never on the
/// measures: two shapes of the same variant agree on both.
pub proof fn name_depends_on_variant_only<F>(a: Shape<F>, b: Shape<F>)
    requires
        same_variant(a, b),
    ensures
        shape_name(a) == shape_name(b),
        (a is Circle) == (b is Circle),
{
}

/// The three names are distinct, so the name tells the variant.
pub proof fn names_tell_variants_apart<F>(a: Shape<F>, b: Shape<F>)
    ensures
        shape_name(a) == shape_name(b) <==> same_variant(a, b),
{
    reveal_strlit("Circle");
    reveal_strlit("Rectangle");
    reveal_strlit("Square");
    if !same_variant(a, b) {
        assert(shape_name(a).len() != shape_name(b).len() || shape_name(a)[0] != shape_name(b)[0]);
    }
}

} // verus!
