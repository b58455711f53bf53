use vstd::prelude::*;
use crate::shapes::{baseline_circle, baseline_square, Point, Shape, Square};

verus! {

/// Whether a click at `(px, py)`, relative to the canvas origin, falls on `s`:
/// strictly inside a square's box on both axes. Circles are never hit.
pub open spec fn hits(s: Shape, px: int, py: int) -> bool {
    match s {
        Shape::Square(sq, _, _, _) => 2 * abs(px - sq.pos.x) < sq.size.x && 2 * abs(py - sq.pos.y)
            < sq.size.y,
        Shape::Circle(..) => false,
    }
}

pub open spec fn abs(v: int) -> int {
    if v < 0 {
        -v
    } else {
        v
    }
}

/// The selection after a click at `(px, py)` over the first `n` shapes, starting from
/// `prior`: the last shape that is hit and is not the one already selected, or `prior`
/// when there is none.
pub open spec fn pick(shapes: Seq<Shape>, prior: Option<usize>, px: int, py: int, n: nat) -> Option<
    usize,
>
    decreases n,
{
    if n == 0 {
        prior
    } else if hits(shapes[n - 1], px, py) && prior != Some((n - 1) as usize) {
        Some((n - 1) as usize)
    } else {
        pick(shapes, prior, px, py, (n - 1) as nat)
    }
}

/// `s` moved by `(dx, dy)` when it is a square; otherwise `s` itself.
pub open spec fn moved(s: Shape, dx: int, dy: int) -> Shape {
    match s {
        Shape::Square(sq, blob, spread, subtract) => Shape::Square(
            Square { pos: Point { x: (sq.pos.x + dx) as i64, y: (sq.pos.y + dy) as i64 }, ..sq },
            blob,
            spread,
            subtract,
        ),
        Shape::Circle(..) => s,
    }
}

/// The shape list after the selected shape is dragged by `(dx, dy)`.
pub open spec fn dragged(shapes: Seq<Shape>, sel: Option<usize>, dx: int, dy: int) -> Seq<Shape> {
    match sel {
        Some(i) => if i < shapes.len() {
            shapes.update(i as int, moved(shapes[i as int], dx, dy))
        } else {
            shapes
        },
        None => shapes,
    }
}

/// Whether dragging the selection by `(dx, dy)` keeps its coordinates representable.
pub open spec fn drag_fits(shapes: Seq<Shape>, sel: Option<usize>, dx: int, dy: int) -> bool {
    match sel {
        Some(i) => i < shapes.len() ==> match shapes[i as int] {
            Shape::Square(sq, _, _, _) => i64::MIN <= sq.pos.x + dx <= i64::MAX && i64::MIN
                <= sq.pos.y + dy <= i64::MAX,
            Shape::Circle(..) => true,
        },
        None => true,
    }
}

/// Sum of the horizontal components of `deltas`.
pub open spec fn sum_x(deltas: Seq<Point>) -> int
    decreases deltas.len(),
{
    if deltas.len() == 0 {
        0
    } else {
        sum_x(deltas.drop_last()) + deltas.last().x
    }
}

/// Sum of the vertical components of `deltas`.
pub open spec fn sum_y(deltas: Seq<Point>) -> int
    decreases deltas.len(),
{
    if deltas.len() == 0 {
        0
    } else {
        sum_y(deltas.drop_last()) + deltas.last().y
    }
}

/// The shape list after one drag per element of `deltas`, in order.
pub open spec fn drag_all(shapes: Seq<Shape>, sel: Option<usize>, deltas: Seq<Point>) -> Seq<Shape>
    decreases deltas.len(),
{
    if deltas.len() == 0 {
        shapes
    } else {
        dragged(
            drag_all(shapes, sel, deltas.drop_last()),
            sel,
            deltas.last().x as int,
            deltas.last().y as int,
        )
    }
}

/// Dragging the selection frame by frame by `deltas` ends where one drag by their
/// sum ends, as long as every intermediate position is representable.
pub proof fn lemma_drag_accumulates(shapes: Seq<Shape>, sel: Option<usize>, deltas: Seq<Point>)
    requires
        forall|k: int|
            0 <= k <= deltas.len() ==> drag_fits(
                shapes,
                sel,
                sum_x(#[trigger] deltas.take(k)),
                sum_y(deltas.take(k)),
            ),
    ensures
        drag_all(shapes, sel, deltas) == dragged(shapes, sel, sum_x(deltas), sum_y(deltas)),
    decreases deltas.len(),
{
    if deltas.len() == 0 {
        assert(dragged(shapes, sel, 0, 0) =~= shapes);
    } else {
        let init = deltas.drop_last();
        assert forall|k: int| 0 <= k <= init.len() implies drag_fits(
            shapes,
            sel,
            sum_x(#[trigger] init.take(k)),
            sum_y(init.take(k)),
        ) by {
            assert(init.take(k) =~= deltas.take(k));
        }
        lemma_drag_accumulates(shapes, sel, init);
        assert(deltas.take(deltas.len() as int) =~= deltas);
        assert(deltas.take(init.len() as int) =~= init);
        let l = deltas.last();
        match sel {
            Some(i) => {
                if i < shapes.len() {
                    let mid = dragged(shapes, sel, sum_x(init), sum_y(init));
                    assert(dragged(mid, sel, l.x as int, l.y as int) =~= dragged(
                        shapes,
                        sel,
                        sum_x(deltas),
                        sum_y(deltas),
                    ));
                }
            },
            None => {},
        }
    }
}

/// The ordered shape list and the current selection.
pub struct Scene {
    pub shapes: Vec<Shape>,
    pub selected_index: Option<usize>,
}

impl Scene {
    /// The selection, when there is one, points into the shape list.
    pub open spec fn wf(&self) -> bool {
        match self.selected_index {
            Some(i) => i < self.shapes@.len(),
            None => true,
        }
    }

    /// An empty scene with nothing selected.
    pub fn new() -> (r: Scene)
        ensures
            r.shapes@ == Seq::<Shape>::empty(),
            r.selected_index == None::<usize>,
            r.wf(),
    {
        Scene { shapes: Vec::new(), selected_index: None }
    }

    /// Appends `shape` at the end of the list; the selection is kept.
    pub fn add_shape(&mut self, shape: Shape)
        ensures
            final(self).shapes@ == old(self).shapes@.push(shape),
            final(self).selected_index == old(self).selected_index,
            old(self).wf() ==> final(self).wf(),
    {
        self.shapes.push(shape);
    }

    /// Appends a baseline square.
    pub fn add_square(&mut self)
        ensures
            final(self).shapes@ == old(self).shapes@.push(
                Shape::Square(baseline_square(), 500, 500, false),
            ),
            final(self).selected_index == old(self).selected_index,
            old(self).wf() ==> final(self).wf(),
    {
        self.add_shape(Shape::default_square());
    }

    /// Appends a baseline circle.
    pub fn add_circle(&mut self)
        ensures
            final(self).shapes@ == old(self).shapes@.push(
                Shape::Circle(baseline_circle(), 0, 0, false),
            ),
            final(self).selected_index == old(self).selected_index,
            old(self).wf() ==> final(self).wf(),
    {
        self.add_shape(Shape::default_circle());
    }

    /// Handles a click at `pointer`, in the same space as `canvas_origin`: the last
    /// shape that contains the click, other than the one already selected, becomes
    /// selected; when there is none the selection is unchanged.
    pub fn click(&mut self, pointer: Point, canvas_origin: Point)
        ensures
            final(self).shapes@ == old(self).shapes@,
            final(self).selected_index == pick(
                old(self).shapes@,
                old(self).selected_index,
                pointer.x - canvas_origin.x,
                pointer.y - canvas_origin.y,
                old(self).shapes@.len(),
            ),
            old(self).wf() ==> final(self).wf(),
    {
        let px = pointer.x as i128 - canvas_origin.x as i128;
        let py = pointer.y as i128 - canvas_origin.y as i128;
        let prior = self.selected_index;
        let mut sel = prior;
        let mut i: usize = 0;
        while i < self.shapes.len()
            invariant
                0 <= i <= self.shapes@.len(),
                px == pointer.x - canvas_origin.x,
                py == pointer.y - canvas_origin.y,
                prior == self.selected_index,
                sel == pick(self.shapes@, prior, px as int, py as int, i as nat),
                self.wf() ==> match sel {
                    Some(j) => j < self.shapes@.len(),
                    None => true,
                },
            decreases self.shapes@.len() - i,
        {
            if shape_hit(&self.shapes[i], px, py) && prior != Some(i) {
                sel = Some(i);
            }
            i += 1;
        }
        self.selected_index = sel;
    }

    /// Whether [`Scene::drag`] may be called with `delta`: the selected square's new
    /// position is representable.
    pub fn can_drag(&self, delta: Point) -> (r: bool)
        ensures
            r == drag_fits(self.shapes@, self.selected_index, delta.x as int, delta.y as int),
    {
        match self.selected_index {
            Some(i) => {
                if i < self.shapes.len() {
                    match &self.shapes[i] {
                        Shape::Square(sq, _, _, _) => {
                            let x = sq.pos.x as i128 + delta.x as i128;
                            let y = sq.pos.y as i128 + delta.y as i128;
                            i64::MIN as i128 <= x && x <= i64::MAX as i128 && i64::MIN as i128 <= y
                                && y <= i64::MAX as i128
                        },
                        Shape::Circle(..) => true,
                    }
                } else {
                    true
                }
            },
            None => true,
        }
    }

    /// Moves the selected square by `delta`; anything else is left as it is.
    pub fn drag(&mut self, delta: Point)
        requires
            drag_fits(old(self).shapes@, old(self).selected_index, delta.x as int, delta.y as int),
        ensures
            final(self).shapes@ == dragged(
                old(self).shapes@,
                old(self).selected_index,
                delta.x as int,
                delta.y as int,
            ),
            final(self).selected_index == old(self).selected_index,
            old(self).wf() ==> final(self).wf(),
    {
        if let Some(i) = self.selected_index {
            if i < self.shapes.len() {
                let s = self.shapes[i];
                match s {
                    Shape::Square(sq, blob, spread, subtract) => {
                        let pos = Point { x: sq.pos.x + delta.x, y: sq.pos.y + delta.y };
                        self.shapes.set(i, Shape::Square(Square { pos, ..sq }, blob, spread, subtract));
                    },
                    Shape::Circle(..) => {},
                }
            }
        }
    }

    /// Removes the selected shape, if any, and clears the selection.
    pub fn delete_selected(&mut self)
        ensures
            match old(self).selected_index {
                Some(i) => if i < old(self).shapes@.len() {
                    final(self).shapes@ == old(self).shapes@.remove(i as int)
                } else {
                    final(self).shapes@ == old(self).shapes@
                },
                None => final(self).shapes@ == old(self).shapes@,
            },
            final(self).selected_index == None::<usize>,
            final(self).wf(),
    {
        if let Some(i) = self.selected_index {
            if i < self.shapes.len() {
                self.shapes.remove(i);
            }
        }
        self.selected_index = None;
    }

    /// Replaces the selected shape by `shape` (an edit of its parameters); without a
    /// valid selection nothing changes.
    pub fn update_selected(&mut self, shape: Shape)
        ensures
            final(self).shapes@ == match old(self).selected_index {
                Some(i) => if i < old(self).shapes@.len() {
                    old(self).shapes@.update(i as int, shape)
                } else {
                    old(self).shapes@
                },
                None => old(self).shapes@,
            },
            final(self).selected_index == old(self).selected_index,
            old(self).wf() ==> final(self).wf(),
    {
        if let Some(i) = self.selected_index {
            if i < self.shapes.len() {
                self.shapes.set(i, shape);
            }
        }
    }
}

/// Whether a click at `(px, py)` relative to the canvas falls on `s`.
pub fn shape_hit(s: &Shape, px: i128, py: i128) -> (r: bool)
    requires
        -0x1_0000_0000_0000_0000 <= px <= 0x1_0000_0000_0000_0000,
        -0x1_0000_0000_0000_0000 <= py <= 0x1_0000_0000_0000_0000,
    ensures
        r == hits(*s, px as int, py as int),
{
    match s {
        Shape::Square(sq, _, _, _) => {
            let dx = px - sq.pos.x as i128;
            let dy = py - sq.pos.y as i128;
            let ax = if dx < 0 { -dx } else { dx };
            let ay = if dy < 0 { -dy } else { dy };
            2 * ax < sq.size.x as i128 && 2 * ay < sq.size.y as i128
        },
        Shape::Circle(..) => false,
    }
}

} // verus!
