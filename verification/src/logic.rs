//! The interactive drawing state machine and the scene compositor.
//!
//! [`DrawerLogic`] owns the ordered committed shapes, the in-progress drag
//! (if any), and the derived renderable layer list.  The layer list is
//! rebuilt from scratch on every relevant change: committed shapes in
//! insertion order first, then — only while a drag is in progress — the
//! preview rectangle's layers on top.

use vstd::prelude::*;

use crate::models::Color;
use crate::models::LayerView;
use crate::models::OpenGLLayer;
use crate::models::Rectangle;
use crate::models::Shape;
use crate::models::ToOpenGLLayers;
use crate::models::coord_in_range;
use crate::models::lemma_shapes_valid_push;
use crate::models::shape_layers_spec;
use crate::models::shapes_valid;
use crate::models::views_of;

verus! {

/// An in-progress drag: where the pointer went down and where it is now.
#[derive(Clone, Copy, PartialEq, Eq, Debug)]
pub struct DrawingState {
    pub start_pos: (i64, i64),
    pub end_pos: (i64, i64),
}

/// A pointer position lies inside the normalized drawing space.
pub open spec fn valid_pos(p: (i64, i64)) -> bool {
    coord_in_range(p.0) && coord_in_range(p.1)
}

pub open spec fn drawing_state_valid(d: DrawingState) -> bool {
    valid_pos(d.start_pos) && valid_pos(d.end_pos)
}

/// The fill color of every committed rectangle: near-white, opaque.
pub open spec fn default_fill_color() -> Color {
    Color { r: 900, g: 900, b: 900, a: 1000 }
}

/// The border color of every committed rectangle: opaque black.
pub open spec fn default_border_color() -> Color {
    Color { r: 0, g: 0, b: 0, a: 1000 }
}

pub open spec fn spec_min(a: i64, b: i64) -> i64 {
    if a <= b { a } else { b }
}

pub open spec fn spec_max(a: i64, b: i64) -> i64 {
    if a <= b { b } else { a }
}

/// The rectangle a drag commits: corners normalized so that the lower
/// corner holds the least X and Y and the upper corner the greatest,
/// whatever direction the drag ran, with the fixed default colors.
pub open spec fn committed_rect_spec(start: (i64, i64), end: (i64, i64)) -> Rectangle {
    Rectangle {
        x0: spec_min(start.0, end.0),
        y0: spec_min(start.1, end.1),
        x1: spec_max(start.0, end.0),
        y1: spec_max(start.1, end.1),
        fill_color: default_fill_color(),
        border_color: default_border_color(),
    }
}

/// The preview shape shown while dragging: the would-be committed rectangle.
pub open spec fn preview_shape_spec(d: DrawingState) -> Shape {
    Shape::Rectangle(committed_rect_spec(d.start_pos, d.end_pos))
}

/// The layers of a sequence of shapes, concatenated in sequence order.
pub open spec fn layers_of_shapes(shapes: Seq<Shape>) -> Seq<LayerView>
    decreases shapes.len(),
{
    if shapes.len() == 0 {
        Seq::empty()
    } else {
        layers_of_shapes(shapes.drop_last()) + shape_layers_spec(shapes.last())
    }
}

/// What a rebuild produces: the committed shapes' layers in insertion
/// order, then — only if a drag is in progress — the preview's layers.
pub open spec fn scene_layers_spec(elements: Seq<Shape>, drawing: Option<DrawingState>) -> Seq<
    LayerView,
> {
    match drawing {
        Option::None => layers_of_shapes(elements),
        Option::Some(d) => layers_of_shapes(elements) + shape_layers_spec(preview_shape_spec(d)),
    }
}

/// Appending a shape appends exactly that shape's layers: insertion order
/// is draw order.
pub proof fn lemma_commit_appends(elements: Seq<Shape>, s: Shape)
    ensures
        layers_of_shapes(elements.push(s)) == layers_of_shapes(elements) + shape_layers_spec(s),
{
    assert(elements.push(s).drop_last() =~= elements);
    assert(elements.push(s).last() == s);
}

proof fn lemma_layers_of_shapes_take_step(shapes: Seq<Shape>, i: int)
    requires
        0 <= i < shapes.len(),
    ensures
        layers_of_shapes(shapes.take(i + 1)) == layers_of_shapes(shapes.take(i))
            + shape_layers_spec(shapes[i]),
{
    assert(shapes.take(i + 1).drop_last() =~= shapes.take(i));
    assert(shapes.take(i + 1).last() == shapes[i]);
}

/// Normalizes a drag's corners into the rectangle it commits.
fn normalize_rect(start: (i64, i64), end: (i64, i64)) -> (r: Rectangle)
    ensures
        r == committed_rect_spec(start, end),
{
    let (start_x, start_y) = start;
    let (end_x, end_y) = end;
    let (lo_x, hi_x) = if end_x < start_x {
        (end_x, start_x)
    } else {
        (start_x, end_x)
    };
    let (lo_y, hi_y) = if end_y < start_y {
        (end_y, start_y)
    } else {
        (start_y, end_y)
    };
    Rectangle::new(
        lo_x,
        lo_y,
        hi_x,
        hi_y,
        Color { r: 900, g: 900, b: 900, a: 1000 },
        Color { r: 0, g: 0, b: 0, a: 1000 },
    )
}

/// The scene compositor: recomputes the full layer list from scratch from
/// the committed shapes and the optional in-progress drag.
pub fn rebuild(elements: &Vec<Shape>, drawing: Option<DrawingState>) -> (r: Vec<OpenGLLayer>)
    requires
        shapes_valid(elements@),
        drawing matches Some(d) ==> drawing_state_valid(d),
    ensures
        views_of(r@) == scene_layers_spec(elements@, drawing),
{
    let mut layers: Vec<OpenGLLayer> = Vec::new();
    proof {
        assert(views_of(layers@) =~~= layers_of_shapes(elements@.take(0)));
    }
    let n: usize = elements.len();
    let mut i: usize = 0;
    while i < n
        invariant
            n == elements@.len(),
            i <= n,
            shapes_valid(elements@),
            views_of(layers@) == layers_of_shapes(elements@.take(i as int)),
        decreases n - i,
    {
        let mut new_layers = elements[i].to_opengl_layers();
        let ghost prev = layers@;
        let ghost fresh = new_layers@;
        layers.append(&mut new_layers);
        proof {
            assert(views_of(prev + fresh) =~~= views_of(prev) + views_of(fresh));
            lemma_layers_of_shapes_take_step(elements@, i as int);
        }
        i += 1;
    }
    proof {
        assert(elements@.take(n as int) =~= elements@);
    }
    match drawing {
        Option::Some(state) => {
            let preview = normalize_rect(state.start_pos, state.end_pos);
            let mut new_layers = preview.to_opengl_layers();
            let ghost prev = layers@;
            let ghost fresh = new_layers@;
            layers.append(&mut new_layers);
            proof {
                assert(views_of(prev + fresh) =~~= views_of(prev) + views_of(fresh));
            }
        },
        Option::None => {},
    }
    layers
}

/// The drawing surface: committed shapes, the derived layer list, the
/// in-progress drag (if any), and the last observed pointer position.
pub struct DrawerLogic {
    elements: Vec<Shape>,
    layers: Vec<OpenGLLayer>,
    current_drawing: Option<DrawingState>,
    current_mouse_pos: (i64, i64),
}

impl DrawerLogic {
    /// The committed shapes, in insertion order.
    pub closed spec fn elements_spec(self) -> Seq<Shape> {
        self.elements@
    }

    /// The derived renderable layer list.
    pub closed spec fn layers_view(self) -> Seq<LayerView> {
        views_of(self.layers@)
    }

    /// The in-progress drag, if any.
    pub closed spec fn drawing_spec(self) -> Option<DrawingState> {
        self.current_drawing
    }

    /// The last pointer position handed to [`DrawerLogic::on_mouse_move`].
    pub closed spec fn mouse_pos_spec(self) -> (i64, i64) {
        self.current_mouse_pos
    }

    /// Every stored position lies inside the normalized drawing space.
    pub open spec fn wf(self) -> bool {
        &&& valid_pos(self.mouse_pos_spec())
        &&& shapes_valid(self.elements_spec())
        &&& self.drawing_spec() matches Some(d) ==> drawing_state_valid(d)
    }

    /// A fresh surface: no shapes, no layers, no drag, pointer at the
    /// center.
    pub fn new() -> (d: DrawerLogic)
        ensures
            d.wf(),
            d.elements_spec() == Seq::<Shape>::empty(),
            d.layers_view() == Seq::<LayerView>::empty(),
            d.drawing_spec() is None,
            d.mouse_pos_spec() == (0i64, 0i64),
    {
        let d = DrawerLogic {
            elements: Vec::new(),
            layers: Vec::new(),
            current_drawing: Option::None,
            current_mouse_pos: (0i64, 0i64),
        };
        proof {
            assert(views_of(d.layers@) =~~= Seq::<LayerView>::empty());
        }
        d
    }

    /// The current layer list, background to foreground.
    pub fn get_layers(&self) -> (r: &Vec<OpenGLLayer>)
        ensures
            views_of(r@) == self.layers_view(),
    {
        &self.layers
    }

    /// The committed shapes, in insertion order.
    pub fn get_elements(&self) -> (r: &Vec<Shape>)
        ensures
            r@ == self.elements_spec(),
    {
        &self.elements
    }

    /// The in-progress drag, if any.
    pub fn get_current_drawing(&self) -> (r: Option<DrawingState>)
        ensures
            r == self.drawing_spec(),
    {
        self.current_drawing
    }

    /// The last observed pointer position.
    pub fn get_mouse_pos(&self) -> (r: (i64, i64))
        ensures
            r == self.mouse_pos_spec(),
    {
        self.current_mouse_pos
    }

    /// Rebuilds the layer list from the current shapes and drag.
    fn update_layers(&mut self)
        requires
            old(self).wf(),
        ensures
            final(self).wf(),
            final(self).elements_spec() == old(self).elements_spec(),
            final(self).drawing_spec() == old(self).drawing_spec(),
            final(self).mouse_pos_spec() == old(self).mouse_pos_spec(),
            final(self).layers_view() == scene_layers_spec(
                old(self).elements_spec(),
                old(self).drawing_spec(),
            ),
    {
        let new_layers = rebuild(&self.elements, self.current_drawing);
        self.layers = new_layers;
    }

    /// Pointer pressed: a drag starts (or restarts) at the current pointer
    /// position.  Shapes and layers are untouched.
    pub fn on_mouse_down(&mut self)
        requires
            old(self).wf(),
        ensures
            final(self).wf(),
            final(self).drawing_spec() == Some(DrawingState {
                start_pos: old(self).mouse_pos_spec(),
                end_pos: old(self).mouse_pos_spec(),
            }),
            final(self).elements_spec() == old(self).elements_spec(),
            final(self).layers_view() == old(self).layers_view(),
            final(self).mouse_pos_spec() == old(self).mouse_pos_spec(),
    {
        self.current_drawing = Option::Some(
            DrawingState {
                start_pos: self.current_mouse_pos,
                end_pos: self.current_mouse_pos,
            },
        );
    }

    /// Pointer moved.  The position is always recorded.  While dragging,
    /// the drag's end corner follows the pointer and the layer list is
    /// rebuilt with the preview on top; in the idle state neither the
    /// committed shapes nor the layer list changes.
    pub fn on_mouse_move(&mut self, pos: (i64, i64))
        requires
            old(self).wf(),
            valid_pos(pos),
        ensures
            final(self).wf(),
            final(self).mouse_pos_spec() == pos,
            final(self).elements_spec() == old(self).elements_spec(),
            old(self).drawing_spec() is None ==> final(self).drawing_spec() is None
                && final(self).layers_view() == old(self).layers_view(),
            old(self).drawing_spec() matches Some(d) ==> {
                &&& final(self).drawing_spec() == Some(DrawingState {
                    start_pos: d.start_pos,
                    end_pos: pos,
                })
                &&& final(self).layers_view() == scene_layers_spec(
                    old(self).elements_spec(),
                    Some(DrawingState { start_pos: d.start_pos, end_pos: pos }),
                )
            },
    {
        let mut drawing = false;
        match &mut self.current_drawing {
            Option::Some(state) => {
                drawing = true;
                state.end_pos = pos;
            },
            Option::None => {},
        }
        if drawing {
            self.update_layers();
        }
        self.current_mouse_pos = pos;
    }

    /// Pointer released.  An in-progress drag is committed: its corners are
    /// normalized into a rectangle with the default colors and appended to
    /// the shapes.  The drag ends either way, and the layer list is always
    /// rebuilt (with no preview).
    pub fn on_mouse_up(&mut self)
        requires
            old(self).wf(),
        ensures
            final(self).wf(),
            final(self).mouse_pos_spec() == old(self).mouse_pos_spec(),
            final(self).drawing_spec() is None,
            old(self).drawing_spec() matches Some(d) ==> final(self).elements_spec() == old(
                self,
            ).elements_spec().push(
                Shape::Rectangle(committed_rect_spec(d.start_pos, d.end_pos)),
            ),
            old(self).drawing_spec() is None ==> final(self).elements_spec() == old(
                self,
            ).elements_spec(),
            final(self).layers_view() == layers_of_shapes(final(self).elements_spec()),
    {
        match self.current_drawing {
            Option::Some(state) => {
                let rect = normalize_rect(state.start_pos, state.end_pos);
                proof {
                    lemma_shapes_valid_push(self.elements@, Shape::Rectangle(rect));
                }
                self.elements.push(Shape::Rectangle(rect));
            },
            Option::None => {},
        }
        self.current_drawing = Option::None;
        self.update_layers();
    }
}

/// Committing a drag with corners `a` and `b` yields the rectangle with
/// `x0 = min`, `y0 = min`, `x1 = max`, `y1 = max` of the two corners and
/// the default colors — the same rectangle whichever corner the drag
/// started from.
pub proof fn lemma_commit_normalizes(a: (i64, i64), b: (i64, i64))
    ensures
        committed_rect_spec(a, b).x0 == spec_min(a.0, b.0),
        committed_rect_spec(a, b).y0 == spec_min(a.1, b.1),
        committed_rect_spec(a, b).x1 == spec_max(a.0, b.0),
        committed_rect_spec(a, b).y1 == spec_max(a.1, b.1),
        committed_rect_spec(a, b).fill_color == default_fill_color(),
        committed_rect_spec(a, b).border_color == default_border_color(),
        committed_rect_spec(a, b) == committed_rect_spec(b, a),
{
}

/// While a drag is in progress, the rebuilt layer list is the committed
/// shapes' layers plus exactly one more shape's worth of layers — the
/// preview rectangle's two — and the preview's bounds are the normalized
/// drag rectangle.
pub proof fn lemma_preview_on_top(elements: Seq<Shape>, d: DrawingState)
    ensures
        scene_layers_spec(elements, Some(d)) == layers_of_shapes(elements) + shape_layers_spec(
            preview_shape_spec(d),
        ),
        scene_layers_spec(elements, Some(d)).len() == scene_layers_spec(
            elements,
            Option::<DrawingState>::None,
        ).len() + 2,
        preview_shape_spec(d) == Shape::Rectangle(committed_rect_spec(d.start_pos, d.end_pos)),
{
}

} // verus!
