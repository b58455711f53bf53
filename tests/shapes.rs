use drawbox::shapes::{Circle, Color, Point, Shape, Square, SCALE};

#[test]
fn default_square_parameters() {
    let white = Color { r: SCALE, g: SCALE, b: SCALE };
    match Shape::default_square() {
        Shape::Square(sq, blob, spread, subtract) => {
            assert_eq!(sq.pos, Point { x: 50_000, y: 50_000 });
            assert_eq!(sq.size, Point { x: 100_000, y: 100_000 });
            assert_eq!(sq.color, white);
            assert_eq!(sq.radius, 200);
            assert_eq!(blob, 500);
            assert_eq!(spread, 500);
            assert!(!subtract);
        }
        Shape::Circle(..) => panic!("expected a square"),
    }
}

#[test]
fn default_circle_parameters() {
    match Shape::default_circle() {
        Shape::Circle(c, blob, spread, subtract) => {
            assert_eq!(c, Circle::default());
            assert_eq!(c.pos, Point { x: 0, y: 0 });
            assert_eq!(c.radius, 100_000);
            assert_eq!(c.color, Color { r: 1000, g: 1000, b: 1000 });
            assert_eq!(blob, 0);
            assert_eq!(spread, 0);
            assert!(!subtract);
        }
        Shape::Square(..) => panic!("expected a circle"),
    }
}

#[test]
fn square_default_matches_shape_default() {
    assert_eq!(Shape::default_square(), Shape::Square(Square::default(), 500, 500, false));
}
