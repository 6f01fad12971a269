//! Constants of non-primitive types: a point, a colour, a table of colours and
//! a square grid, and the squared distance between two points.

use vstd::prelude::*;

verus! {

/// A point of the integer plane.
#[derive(Debug, Clone, Copy, PartialEq, Eq, Structural)]
pub struct Point {
    pub x: i32,
    pub y: i32,
}

/// One of three primary colours.
#[derive(Debug, Clone, Copy, PartialEq, Eq, Structural)]
pub enum Color {
    Red,
    Green,
    Blue,
}

/// The colour used where none is chosen.
pub const DEFAULT_COLOR: Color = Color::Blue;

/// All colours, in declaration order.
pub const COLORS: [Color; 3] = [Color::Red, Color::Green, Color::Blue];

/// The point with the given coordinates.
pub fn create_point(x: i32, y: i32) -> (r: Point)
    ensures
        r.x == x,
        r.y == y,
{
    Point { x, y }
}

/// The origin of the plane.
pub fn origin() -> (r: Point)
    ensures
        r == (Point { x: 0, y: 0 }),
{
    create_point(0, 0)
}

/// The point (1, 1).
pub fn point_one() -> (r: Point)
    ensures
        r == (Point { x: 1, y: 1 }),
{
    create_point(1, 1)
}

/// The square of the Euclidean distance between two points.
pub open spec fn squared_distance_spec(a: Point, b: Point) -> int {
    (b.x - a.x) * (b.x - a.x) + (b.y - a.y) * (b.y - a.y)
}

/// The squared distance between two points. It is computed wide enough that
/// no pair of points overflows.
pub fn squared_distance(a: Point, b: Point) -> (r: i128)
    ensures
        r == squared_distance_spec(a, b),
        r >= 0,
{
    let dx: i128 = b.x as i128 - a.x as i128;
    let dy: i128 = b.y as i128 - a.y as i128;
    assert(0 <= dx * dx <= 0x1_0000_0000 * 0x1_0000_0000) by (nonlinear_arith)
        requires
            -0x1_0000_0000 <= dx <= 0x1_0000_0000,
    ;
    assert(0 <= dy * dy <= 0x1_0000_0000 * 0x1_0000_0000) by (nonlinear_arith)
        requires
            -0x1_0000_0000 <= dy <= 0x1_0000_0000,
    ;
    dx * dx + dy * dy
}

/// An `N` by `N` grid of integers.
pub struct Grid<const N: usize> {
    pub data: [[i32; N]; N],
}

impl<const N: usize> Grid<N> {
    /// The grid of all zeros.
    pub fn new() -> (r: Self)
        ensures
            forall|i: int, j: int| 0 <= i < N && 0 <= j < N ==> r.data[i][j] == 0,
    {
        let row: [i32; N] = [0; N];
        Grid { data: [row; N] }
    }
}

} // verus!
