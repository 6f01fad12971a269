use rust_idioms::shape::Shape;

#[test]
fn circle_is_a_circle() {
    let circle: Shape<f64> = Shape::Circle { radius: 5.0 };
    assert!(circle.is_circle());
}

#[test]
fn rectangle_and_square_are_not_circles() {
    let rectangle: Shape<f64> = Shape::Rectangle { width: 10.0, height: 5.0 };
    let square: Shape<f64> = Shape::Square { side: 7.0 };
    assert!(!rectangle.is_circle());
    assert!(!square.is_circle());
}

#[test]
fn names_of_each_variant() {
    let circle: Shape<f64> = Shape::Circle { radius: 5.0 };
    let rectangle: Shape<f64> = Shape::Rectangle { width: 10.0, height: 5.0 };
    let square: Shape<f64> = Shape::Square { side: 7.0 };
    assert_eq!(circle.name(), "Circle");
    assert_eq!(rectangle.name(), "Rectangle");
    assert_eq!(square.name(), "Square");
}

#[test]
fn name_ignores_measures() {
    let small: Shape<f64> = Shape::Circle { radius: 0.5 };
    let negative: Shape<f64> = Shape::Circle { radius: -3.0 };
    let nan: Shape<f64> = Shape::Square { side: f64::NAN };
    assert_eq!(small.name(), negative.name());
    assert!(negative.is_circle());
    assert_eq!(nan.name(), "Square");
    assert!(!nan.is_circle());
}

#[test]
fn integer_measures_behave_alike() {
    let square: Shape<u32> = Shape::Square { side: 7 };
    assert_eq!(square.name(), "Square");
    assert!(!square.is_circle());
}

#[test]
fn describe_each_variant() {
    let circle: Shape<String> = Shape::Circle { radius: 5.0f64.to_string() };
    let rectangle: Shape<String> = Shape::Rectangle {
        width: 10.0f64.to_string(),
        height: 5.0f64.to_string(),
    };
    let square: Shape<String> = Shape::Square { side: 7.0f64.to_string() };
    assert_eq!(circle.describe(), "A circle with radius 5");
    assert_eq!(rectangle.describe(), "A rectangle with width 10 and height 5");
    assert_eq!(square.describe(), "A square with side length 7");
}

#[test]
fn describe_keeps_measure_text_as_given() {
    let circle: Shape<String> = Shape::Circle { radius: "2.5".to_string() };
    assert_eq!(circle.describe(), "A circle with radius 2.5");
    let rectangle: Shape<String> = Shape::Rectangle {
        width: "-1".to_string(),
        height: "NaN".to_string(),
    };
    assert_eq!(rectangle.describe(), "A rectangle with width -1 and height NaN");
    let square: Shape<String> = Shape::Square { side: String::new() };
    assert_eq!(square.describe(), "A square with side length ");
}
