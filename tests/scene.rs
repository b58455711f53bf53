use drawbox::scene::Scene;
use drawbox::shapes::{Point, Shape, Square};

fn square_at(x: i64, y: i64, w: i64, h: i64) -> Shape {
    let mut sq = Square::default();
    sq.pos = Point { x, y };
    sq.size = Point { x: w, y: h };
    Shape::Square(sq, 500, 500, false)
}

fn pos_of(s: &Shape) -> Point {
    match s {
        Shape::Square(sq, _, _, _) => sq.pos,
        Shape::Circle(c, _, _, _) => c.pos,
    }
}

const ORIGIN: Point = Point { x: 0, y: 0 };

#[test]
fn new_scene_is_empty() {
    let s = Scene::new();
    assert!(s.shapes.is_empty());
    assert_eq!(s.selected_index, None);
}

#[test]
fn overlapping_click_selects_later_square() {
    let mut s = Scene::new();
    s.add_shape(square_at(50_000, 50_000, 100_000, 100_000));
    s.add_shape(square_at(60_000, 60_000, 100_000, 100_000));
    s.click(Point { x: 55_000, y: 55_000 }, ORIGIN);
    assert_eq!(s.selected_index, Some(1));
}

#[test]
fn click_skips_already_selected_shape() {
    let mut s = Scene::new();
    s.add_shape(square_at(50_000, 50_000, 100_000, 100_000));
    s.add_shape(square_at(60_000, 60_000, 100_000, 100_000));
    s.click(Point { x: 55_000, y: 55_000 }, ORIGIN);
    assert_eq!(s.selected_index, Some(1));
    s.click(Point { x: 55_000, y: 55_000 }, ORIGIN);
    assert_eq!(s.selected_index, Some(0));
}

#[test]
fn click_on_selected_lone_square_keeps_selection() {
    let mut s = Scene::new();
    s.add_square();
    s.click(Point { x: 50_000, y: 50_000 }, ORIGIN);
    s.click(Point { x: 50_000, y: 50_000 }, ORIGIN);
    assert_eq!(s.selected_index, Some(0));
}

#[test]
fn click_outside_keeps_selection() {
    let mut s = Scene::new();
    s.add_square();
    s.click(Point { x: 50_000, y: 50_000 }, ORIGIN);
    s.click(Point { x: 700_000, y: 700_000 }, ORIGIN);
    assert_eq!(s.selected_index, Some(0));
}

#[test]
fn click_on_edge_is_a_miss() {
    let mut s = Scene::new();
    s.add_square();
    // The box spans 0..100 exclusive on each axis.
    s.click(Point { x: 100_000, y: 50_000 }, ORIGIN);
    assert_eq!(s.selected_index, None);
    s.click(Point { x: 99_999, y: 50_000 }, ORIGIN);
    assert_eq!(s.selected_index, Some(0));
}

#[test]
fn click_is_relative_to_canvas_origin() {
    let mut s = Scene::new();
    s.add_square();
    s.click(Point { x: 250_000, y: 250_000 }, Point { x: 200_000, y: 200_000 });
    assert_eq!(s.selected_index, Some(0));
    let mut t = Scene::new();
    t.add_square();
    t.click(Point { x: 50_000, y: 50_000 }, Point { x: 200_000, y: 200_000 });
    assert_eq!(t.selected_index, None);
}

#[test]
fn circles_are_not_hit() {
    let mut s = Scene::new();
    s.add_circle();
    s.click(Point { x: 0, y: 0 }, ORIGIN);
    assert_eq!(s.selected_index, None);
}

#[test]
fn extreme_coordinates_do_not_overflow() {
    let mut s = Scene::new();
    s.add_shape(square_at(i64::MIN, i64::MIN, i64::MAX, i64::MAX));
    s.click(Point { x: i64::MAX, y: i64::MAX }, Point { x: i64::MIN, y: i64::MIN });
    assert_eq!(s.selected_index, None);
}

#[test]
fn add_select_drag_delete_scenario() {
    let mut s = Scene::new();
    s.add_square();
    s.click(Point { x: 50_000, y: 50_000 }, ORIGIN);
    assert_eq!(s.selected_index, Some(0));
    s.drag(Point { x: 10_000, y: 0 });
    assert_eq!(pos_of(&s.shapes[0]), Point { x: 60_000, y: 50_000 });
    s.delete_selected();
    assert!(s.shapes.is_empty());
    assert_eq!(s.selected_index, None);
}

#[test]
fn drags_accumulate_like_one_drag() {
    let deltas = [
        Point { x: 1_500, y: -2_000 },
        Point { x: 3_250, y: 700 },
        Point { x: -750, y: 4_300 },
    ];
    let mut stepwise = Scene::new();
    stepwise.add_square();
    stepwise.click(Point { x: 50_000, y: 50_000 }, ORIGIN);
    for d in deltas {
        stepwise.drag(d);
    }
    let mut once = Scene::new();
    once.add_square();
    once.click(Point { x: 50_000, y: 50_000 }, ORIGIN);
    once.drag(Point { x: 4_000, y: 3_000 });
    assert_eq!(stepwise.shapes, once.shapes);
    assert_eq!(pos_of(&once.shapes[0]), Point { x: 54_000, y: 53_000 });
}

#[test]
fn drag_without_selection_changes_nothing() {
    let mut s = Scene::new();
    s.add_square();
    s.drag(Point { x: 10_000, y: 10_000 });
    assert_eq!(pos_of(&s.shapes[0]), Point { x: 50_000, y: 50_000 });
}

#[test]
fn drag_of_selected_circle_changes_nothing() {
    let mut s = Scene::new();
    s.add_circle();
    s.selected_index = Some(0);
    s.drag(Point { x: 10_000, y: 10_000 });
    assert_eq!(s.shapes[0], Shape::default_circle());
}

#[test]
fn delete_removes_only_selected_shape() {
    let mut s = Scene::new();
    s.add_shape(square_at(10_000, 10_000, 20_000, 20_000));
    s.add_shape(square_at(200_000, 200_000, 20_000, 20_000));
    s.add_shape(square_at(400_000, 400_000, 20_000, 20_000));
    s.click(Point { x: 200_000, y: 200_000 }, ORIGIN);
    assert_eq!(s.selected_index, Some(1));
    s.delete_selected();
    assert_eq!(s.shapes.len(), 2);
    assert_eq!(pos_of(&s.shapes[0]), Point { x: 10_000, y: 10_000 });
    assert_eq!(pos_of(&s.shapes[1]), Point { x: 400_000, y: 400_000 });
    assert_eq!(s.selected_index, None);
}

#[test]
fn delete_without_selection_keeps_shapes() {
    let mut s = Scene::new();
    s.add_square();
    s.delete_selected();
    assert_eq!(s.shapes.len(), 1);
}

#[test]
fn delete_with_stale_selection_only_clears_it() {
    let mut s = Scene::new();
    s.add_square();
    s.selected_index = Some(5);
    s.delete_selected();
    assert_eq!(s.shapes.len(), 1);
    assert_eq!(s.selected_index, None);
}

#[test]
fn update_selected_replaces_shape() {
    let mut s = Scene::new();
    s.add_square();
    s.add_square();
    s.selected_index = Some(1);
    let edited = square_at(1_000, 2_000, 3_000, 4_000);
    s.update_selected(edited);
    assert_eq!(s.shapes[1], edited);
    assert_eq!(s.shapes[0], Shape::default_square());
}

#[test]
fn update_without_selection_changes_nothing() {
    let mut s = Scene::new();
    s.add_square();
    s.update_selected(square_at(1_000, 2_000, 3_000, 4_000));
    assert_eq!(s.shapes[0], Shape::default_square());
}

#[test]
fn can_drag_detects_overflow() {
    let mut s = Scene::new();
    s.add_shape(square_at(i64::MAX - 5, 0, 10, 10));
    assert!(s.can_drag(Point { x: 100, y: 0 }));
    s.selected_index = Some(0);
    assert!(s.can_drag(Point { x: 5, y: i64::MAX }));
    assert!(!s.can_drag(Point { x: 6, y: 0 }));
    assert!(s.can_drag(Point { x: 0, y: i64::MIN }));
    s.drag(Point { x: 5, y: -7 });
    assert_eq!(pos_of(&s.shapes[0]), Point { x: i64::MAX, y: -7 });
}
