use vstd::prelude::*;

verus! {

/// Number of fixed-point units in one whole unit (pixel, colour channel, ...).
pub const SCALE: i64 = 1000;

/// A 2-D point or extent in fixed-point canvas units.
#[derive(Clone, Copy, Debug, PartialEq, Eq, Structural)]
pub struct Point {
    pub x: i64,
    pub y: i64,
}

/// Red, green and blue channels, each nominally in `0..=SCALE`.
#[derive(Clone, Copy, Debug, PartialEq, Eq, Structural)]
pub struct Color {
    pub r: i64,
    pub g: i64,
    pub b: i64,
}

/// A rounded rectangle centred on `pos`.
#[derive(Clone, Copy, Debug, PartialEq, Eq, Structural)]
pub struct Square {
    pub pos: Point,
    /// Full width and height.
    pub size: Point,
    pub color: Color,
    /// Corner rounding, as a fraction of half the smaller side.
    pub radius: i64,
}

/// A circle centred on `pos`.
#[derive(Clone, Copy, Debug, PartialEq, Eq, Structural)]
pub struct Circle {
    pub pos: Point,
    pub radius: i64,
    pub color: Color,
}

/// A shape of the scene with its blend parameters: blob (smooth-union
/// softness), colour spread, and whether it carves a cavity.
#[derive(Clone, Copy, Debug, PartialEq, Eq, Structural)]
pub enum Shape {
    Square(Square, i64, i64, bool),
    Circle(Circle, i64, i64, bool),
}

/// The baseline square: centre (50, 50), size (100, 100), white, rounding 0.2.
pub open spec fn baseline_square() -> Square {
    Square {
        pos: Point { x: 50_000, y: 50_000 },
        size: Point { x: 100_000, y: 100_000 },
        color: Color { r: 1000, g: 1000, b: 1000 },
        radius: 200,
    }
}

/// The baseline circle: centre (0, 0), radius 100, white.
pub open spec fn baseline_circle() -> Circle {
    Circle {
        pos: Point { x: 0, y: 0 },
        radius: 100_000,
        color: Color { r: 1000, g: 1000, b: 1000 },
    }
}

impl Default for Square {
    fn default() -> (r: Square)
        ensures
            r == baseline_square(),
    {
        Square {
            pos: Point { x: 50 * SCALE, y: 50 * SCALE },
            size: Point { x: 100 * SCALE, y: 100 * SCALE },
            color: Color { r: SCALE, g: SCALE, b: SCALE },
            radius: 200,
        }
    }
}

impl Default for Circle {
    fn default() -> (r: Circle)
        ensures
            r == baseline_circle(),
    {
        Circle {
            pos: Point { x: 0, y: 0 },
            radius: 100 * SCALE,
            color: Color { r: SCALE, g: SCALE, b: SCALE },
        }
    }
}

impl Shape {
    /// A baseline square with blob 0.5, colour spread 0.5, not subtracting.
    pub fn default_square() -> (r: Shape)
        ensures
            r == Shape::Square(baseline_square(), 500, 500, false),
    {
        Shape::Square(Square::default(), 500, 500, false)
    }

    /// A baseline circle with blob 0, colour spread 0, not subtracting.
    pub fn default_circle() -> (r: Shape)
        ensures
            r == Shape::Circle(baseline_circle(), 0, 0, false),
    {
        Shape::Circle(Circle::default(), 0, 0, false)
    }
}

} // verus!
