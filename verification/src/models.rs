//! Data model and geometry compiler.
//!
//! Shapes live in a normalized square drawing space.  Coordinates and color
//! channels are fixed-point values in thousandths: `1000` stands for the
//! normalized value `1.0`, so positions range over `[-1000, 1000]` and color
//! channels over `[0, 1000]`.  The geometry compiler turns each shape into
//! one or more [`OpenGLLayer`] values: plain vertex and index data plus a
//! shader selection and uniform values, ready for a GPU backend to upload
//! and draw.

use vstd::prelude::*;

verus! {

/// One normalized unit (`1.0`) in fixed-point thousandths.
pub const UNIT: i64 = 1000;

/// Minus one normalized unit (`-1.0`) in fixed-point thousandths.
pub const NEG_UNIT: i64 = -1000;

/// Thickness of a rectangle's border in thousandths (`0.01` normalized).
pub const BORDER_SIZE: i64 = 10;

/// An RGBA color; each channel is a fixed-point value in `[0, 1000]`.
#[derive(Clone, Copy, PartialEq, Eq, Debug)]
pub struct Color {
    pub r: i64,
    pub g: i64,
    pub b: i64,
    pub a: i64,
}

/// Fully transparent black, used where a layer leaves a color uniform unset.
pub open spec fn transparent_color() -> Color {
    Color { r: 0, g: 0, b: 0, a: 0 }
}

/// A coordinate lies inside the normalized drawing space.
pub open spec fn coord_in_range(c: i64) -> bool {
    -UNIT <= c <= UNIT
}

/// Every channel lies in `[0, 1000]`.
pub open spec fn color_valid(c: Color) -> bool {
    &&& 0 <= c.r <= UNIT
    &&& 0 <= c.g <= UNIT
    &&& 0 <= c.b <= UNIT
    &&& 0 <= c.a <= UNIT
}

/// One vertex of a layer: a position in the drawing space and an auxiliary
/// texture-like coordinate that the fragment stage interprets.
#[derive(Clone, Copy, PartialEq, Eq, Debug)]
pub struct Vertex {
    pub position: (i64, i64),
    pub coord: (i64, i64),
}

/// An exact non-uniform scale factor, kept as a fraction so that aspect-ratio
/// corrections lose no precision.
#[derive(Clone, Copy, PartialEq, Eq, Debug)]
pub struct Frac {
    pub num: u64,
    pub den: u64,
}

impl Frac {
    /// A fraction fit for composition: both terms fit in 32 bits and the
    /// denominator is nonzero.
    pub open spec fn wf(self) -> bool {
        &&& 1 <= self.den <= u32::MAX
        &&& self.num <= u32::MAX
    }
}

/// The transforms this system uses are axis-aligned scalings: a scale factor
/// for X and one for Y, each an exact fraction.
#[derive(Clone, Copy, PartialEq, Eq, Debug)]
pub struct ScaleTransform {
    pub sx: Frac,
    pub sy: Frac,
}

impl ScaleTransform {
    pub open spec fn wf(self) -> bool {
        self.sx.wf() && self.sy.wf()
    }
}

/// The identity transform: scale 1 on both axes.
pub open spec fn identity_transform_spec() -> ScaleTransform {
    ScaleTransform { sx: Frac { num: 1, den: 1 }, sy: Frac { num: 1, den: 1 } }
}

/// Builds the identity transform.
pub fn identity_transform() -> (r: ScaleTransform)
    ensures
        r == identity_transform_spec(),
        r.wf(),
{
    ScaleTransform { sx: Frac { num: 1, den: 1 }, sy: Frac { num: 1, den: 1 } }
}

/// Composition of two axis-aligned scalings: the factors multiply.
pub open spec fn scale_compose_spec(a: ScaleTransform, b: ScaleTransform) -> ScaleTransform {
    ScaleTransform {
        sx: Frac { num: (a.sx.num * b.sx.num) as u64, den: (a.sx.den * b.sx.den) as u64 },
        sy: Frac { num: (a.sy.num * b.sy.num) as u64, den: (a.sy.den * b.sy.den) as u64 },
    }
}

/// Composes two axis-aligned scalings exactly.
pub fn scale_compose(a: &ScaleTransform, b: &ScaleTransform) -> (r: ScaleTransform)
    requires
        a.wf(),
        b.wf(),
    ensures
        r == scale_compose_spec(*a, *b),
{
    proof {
        assert(a.sx.num * b.sx.num <= 0xffff_ffff * 0xffff_ffff) by (nonlinear_arith)
            requires a.sx.num <= u32::MAX && b.sx.num <= u32::MAX;
        assert(a.sx.den * b.sx.den <= 0xffff_ffff * 0xffff_ffff) by (nonlinear_arith)
            requires a.sx.den <= u32::MAX && b.sx.den <= u32::MAX;
        assert(a.sy.num * b.sy.num <= 0xffff_ffff * 0xffff_ffff) by (nonlinear_arith)
            requires a.sy.num <= u32::MAX && b.sy.num <= u32::MAX;
        assert(a.sy.den * b.sy.den <= 0xffff_ffff * 0xffff_ffff) by (nonlinear_arith)
            requires a.sy.den <= u32::MAX && b.sy.den <= u32::MAX;
    }
    ScaleTransform {
        sx: Frac { num: a.sx.num * b.sx.num, den: a.sx.den * b.sx.den },
        sy: Frac { num: a.sy.num * b.sy.num, den: a.sy.den * b.sy.den },
    }
}

/// The viewport-correction transform for a framebuffer of the given size:
/// the wider dimension is scaled down so that square content never
/// stretches.
pub fn viewport_matrix(width: u32, height: u32) -> (r: ScaleTransform)
    requires
        width >= 1,
        height >= 1,
    ensures
        r.wf(),
        height <= width ==> r == (ScaleTransform {
            sx: Frac { num: height as u64, den: width as u64 },
            sy: Frac { num: 1, den: 1 },
        }),
        height > width ==> r == (ScaleTransform {
            sx: Frac { num: 1, den: 1 },
            sy: Frac { num: width as u64, den: height as u64 },
        }),
{
    if height <= width {
        ScaleTransform {
            sx: Frac { num: height as u64, den: width as u64 },
            sy: Frac { num: 1, den: 1 },
        }
    } else {
        ScaleTransform {
            sx: Frac { num: 1, den: 1 },
            sy: Frac { num: width as u64, den: height as u64 },
        }
    }
}

/// Which of the three fixed shader programs a layer is drawn with.
#[derive(Clone, Copy, PartialEq, Eq, Debug)]
pub enum ShaderKind {
    SolidFill,
    Circle,
    Grid,
}

/// The per-draw uniform values of a layer.
#[derive(Clone, Copy, PartialEq, Eq, Debug)]
pub struct Uniforms {
    pub color: Color,
    pub border_color: Color,
    pub matrix: ScaleTransform,
    pub center: (i64, i64),
    pub radius: i64,
}

/// One renderable unit: vertex data, triangle-list index data, a shader
/// selection, a local transform (identity for every layer this compiler
/// produces), and uniform values.  Layers are produced whole and never
/// mutated.
#[derive(Clone, PartialEq, Eq, Debug)]
pub struct OpenGLLayer {
    pub vertex_data: Vec<Vertex>,
    pub index_data: Vec<u16>,
    pub program: ShaderKind,
    pub matrix: ScaleTransform,
    pub uniforms: Uniforms,
}

/// The mathematical value of an [`OpenGLLayer`].
#[verifier::ext_equal]
pub struct LayerView {
    pub vertex_data: Seq<Vertex>,
    pub index_data: Seq<u16>,
    pub program: ShaderKind,
    pub matrix: ScaleTransform,
    pub uniforms: Uniforms,
}

impl View for OpenGLLayer {
    type V = LayerView;

    open spec fn view(&self) -> LayerView {
        LayerView {
            vertex_data: self.vertex_data@,
            index_data: self.index_data@,
            program: self.program,
            matrix: self.matrix,
            uniforms: self.uniforms,
        }
    }
}

/// The views of a sequence of layers, element for element.
pub open spec fn views_of(s: Seq<OpenGLLayer>) -> Seq<LayerView> {
    s.map_values(|l: OpenGLLayer| l@)
}

/// The triangle-list indices of every quad this compiler emits: two
/// triangles sharing the diagonal between vertices 1 and 3.
pub open spec fn quad_indices() -> Seq<u16> {
    seq![0u16, 1u16, 3u16, 1u16, 2u16, 3u16]
}

/// Builds the quad index data.
fn make_quad_indices() -> (r: Vec<u16>)
    ensures
        r@ == quad_indices(),
{
    let r: Vec<u16> = vec![0u16, 1u16, 3u16, 1u16, 2u16, 3u16];
    proof {
        assert(r@ =~= quad_indices());
    }
    r
}

/// An axis-aligned rectangle.  The corner order is not normalized at
/// construction time; normalization happens when a drag is committed.
#[derive(Clone, Copy, PartialEq, Debug)]
pub struct Rectangle {
    pub x0: i64,
    pub y0: i64,
    pub x1: i64,
    pub y1: i64,
    pub fill_color: Color,
    pub border_color: Color,
}

/// A circle given by its center and radius.
#[derive(Clone, Copy, PartialEq, Debug)]
pub struct Circle {
    pub x: i64,
    pub y: i64,
    pub radius: i64,
    pub fill_color: Color,
    pub border_color: Color,
}

/// A full-viewport decorative background grid.
#[derive(Clone, Copy, PartialEq, Debug)]
pub struct BackgroundGrid {
    pub color: Color,
}

/// The closed set of shapes the compiler accepts.
#[derive(Clone, Copy, PartialEq, Debug)]
pub enum Shape {
    Rectangle(Rectangle),
    Circle(Circle),
    BackgroundGrid(BackgroundGrid),
}

pub open spec fn rect_valid(r: Rectangle) -> bool {
    &&& coord_in_range(r.x0)
    &&& coord_in_range(r.y0)
    &&& coord_in_range(r.x1)
    &&& coord_in_range(r.y1)
    &&& color_valid(r.fill_color)
    &&& color_valid(r.border_color)
}

pub open spec fn circle_valid(c: Circle) -> bool {
    &&& coord_in_range(c.x)
    &&& coord_in_range(c.y)
    &&& 0 <= c.radius <= UNIT
    &&& color_valid(c.fill_color)
    &&& color_valid(c.border_color)
}

pub open spec fn grid_valid(g: BackgroundGrid) -> bool {
    color_valid(g.color)
}

impl Rectangle {
    /// Stores the given corners and colors unchanged.
    pub fn new(x0: i64, y0: i64, x1: i64, y1: i64, fill_color: Color, border_color: Color)
        -> (r: Rectangle)
        ensures
            r == (Rectangle { x0, y0, x1, y1, fill_color, border_color }),
    {
        Rectangle { x0, y0, x1, y1, fill_color, border_color }
    }
}

impl Circle {
    /// Stores the given center, radius and colors unchanged.
    pub fn new(x: i64, y: i64, radius: i64, fill_color: Color, border_color: Color)
        -> (r: Circle)
        ensures
            r == (Circle { x, y, radius, fill_color, border_color }),
    {
        Circle { x, y, radius, fill_color, border_color }
    }
}

/// The two layers a rectangle compiles to: an outer quad over the full
/// bounds filled with the border color, and an inner quad inset by
/// [`BORDER_SIZE`] filled with the fill color.  If the rectangle is
/// thinner than twice the border, the inner quad inverts; that degenerate
/// geometry is accepted as-is, with no clamping.
pub open spec fn rect_layers_spec(r: Rectangle) -> Seq<LayerView> {
    seq![
        LayerView {
            vertex_data: seq![
                Vertex { position: (r.x0, r.y0), coord: (0i64, 0i64) },
                Vertex { position: (r.x1, r.y0), coord: (0i64, 0i64) },
                Vertex { position: (r.x1, r.y1), coord: (0i64, 0i64) },
                Vertex { position: (r.x0, r.y1), coord: (0i64, 0i64) },
            ],
            index_data: quad_indices(),
            program: ShaderKind::SolidFill,
            matrix: identity_transform_spec(),
            uniforms: Uniforms {
                color: r.border_color,
                border_color: transparent_color(),
                matrix: identity_transform_spec(),
                center: (0i64, 0i64),
                radius: 0,
            },
        },
        LayerView {
            vertex_data: seq![
                Vertex {
                    position: ((r.x0 + BORDER_SIZE) as i64, (r.y0 + BORDER_SIZE) as i64),
                    coord: (0i64, 0i64),
                },
                Vertex {
                    position: ((r.x1 - BORDER_SIZE) as i64, (r.y0 + BORDER_SIZE) as i64),
                    coord: (0i64, 0i64),
                },
                Vertex {
                    position: ((r.x1 - BORDER_SIZE) as i64, (r.y1 - BORDER_SIZE) as i64),
                    coord: (0i64, 0i64),
                },
                Vertex {
                    position: ((r.x0 + BORDER_SIZE) as i64, (r.y1 - BORDER_SIZE) as i64),
                    coord: (0i64, 0i64),
                },
            ],
            index_data: quad_indices(),
            program: ShaderKind::SolidFill,
            matrix: identity_transform_spec(),
            uniforms: Uniforms {
                color: r.fill_color,
                border_color: transparent_color(),
                matrix: identity_transform_spec(),
                center: (0i64, 0i64),
                radius: 0,
            },
        },
    ]
}

/// The single layer a circle compiles to: a bounding quad of side twice the
/// radius whose `coord` attribute spans the unit square, drawn with the
/// circle shader.
pub open spec fn circle_layers_spec(c: Circle) -> Seq<LayerView> {
    seq![
        LayerView {
            vertex_data: seq![
                Vertex {
                    position: ((c.x - c.radius) as i64, (c.y + c.radius) as i64),
                    coord: (NEG_UNIT, UNIT),
                },
                Vertex {
                    position: ((c.x + c.radius) as i64, (c.y + c.radius) as i64),
                    coord: (UNIT, UNIT),
                },
                Vertex {
                    position: ((c.x + c.radius) as i64, (c.y - c.radius) as i64),
                    coord: (UNIT, NEG_UNIT),
                },
                Vertex {
                    position: ((c.x - c.radius) as i64, (c.y - c.radius) as i64),
                    coord: (NEG_UNIT, NEG_UNIT),
                },
            ],
            index_data: quad_indices(),
            program: ShaderKind::Circle,
            matrix: identity_transform_spec(),
            uniforms: Uniforms {
                color: c.fill_color,
                border_color: c.border_color,
                matrix: identity_transform_spec(),
                center: (0i64, 0i64),
                radius: 0,
            },
        },
    ]
}

/// The single layer the background grid compiles to: a full-viewport quad
/// drawn with the grid shader; the grid's color rides in the `border_color`
/// uniform, which is how the grid shader reads it.
pub open spec fn grid_layers_spec(g: BackgroundGrid) -> Seq<LayerView> {
    seq![
        LayerView {
            vertex_data: seq![
                Vertex { position: (NEG_UNIT, UNIT), coord: (NEG_UNIT, UNIT) },
                Vertex { position: (UNIT, UNIT), coord: (UNIT, UNIT) },
                Vertex { position: (UNIT, NEG_UNIT), coord: (UNIT, NEG_UNIT) },
                Vertex {
                    position: (NEG_UNIT, NEG_UNIT),
                    coord: (NEG_UNIT, NEG_UNIT),
                },
            ],
            index_data: quad_indices(),
            program: ShaderKind::Grid,
            matrix: identity_transform_spec(),
            uniforms: Uniforms {
                color: transparent_color(),
                border_color: g.color,
                matrix: identity_transform_spec(),
                center: (0i64, 0i64),
                radius: 0,
            },
        },
    ]
}

/// The layers a shape compiles to, by variant.
pub open spec fn shape_layers_spec(s: Shape) -> Seq<LayerView> {
    match s {
        Shape::Rectangle(r) => rect_layers_spec(r),
        Shape::Circle(c) => circle_layers_spec(c),
        Shape::BackgroundGrid(g) => grid_layers_spec(g),
    }
}

pub open spec fn shape_valid(s: Shape) -> bool {
    match s {
        Shape::Rectangle(r) => rect_valid(r),
        Shape::Circle(c) => circle_valid(c),
        Shape::BackgroundGrid(g) => grid_valid(g),
    }
}

/// Every shape of the sequence is valid.
pub open spec fn shapes_valid(shapes: Seq<Shape>) -> bool {
    forall|j: int| 0 <= j < shapes.len() ==> shape_valid(#[trigger] shapes[j])
}

/// Validity of every element is kept when a valid shape is appended.
pub proof fn lemma_shapes_valid_push(shapes: Seq<Shape>, s: Shape)
    requires
        shapes_valid(shapes),
        shape_valid(s),
    ensures
        shapes_valid(shapes.push(s)),
{
    assert forall|j: int| 0 <= j < shapes.push(s).len() implies shape_valid(
        #[trigger] shapes.push(s)[j],
    ) by {
        if j < shapes.len() {
            assert(shapes.push(s)[j] == shapes[j]);
        } else {
            assert(shapes.push(s)[j] == s);
        }
    }
}

/// A shape that can be compiled into renderable layers.  The geometry is a
/// pure function of the shape's fields, stated by `layers_spec`.
pub trait ToOpenGLLayers: Sized {
    spec fn valid(&self) -> bool;

    spec fn layers_spec(&self) -> Seq<LayerView>;

    fn to_opengl_layers(&self) -> (r: Vec<OpenGLLayer>)
        requires
            self.valid(),
        ensures
            views_of(r@) == self.layers_spec(),
    ;
}

/// Marker for the shapes the drawing surface can hold.
pub trait Drawable: ToOpenGLLayers {

}

impl ToOpenGLLayers for Rectangle {
    open spec fn valid(&self) -> bool {
        rect_valid(*self)
    }

    open spec fn layers_spec(&self) -> Seq<LayerView> {
        rect_layers_spec(*self)
    }

    fn to_opengl_layers(&self) -> (r: Vec<OpenGLLayer>) {
        let outer_vertices: Vec<Vertex> = vec![
            Vertex { position: (self.x0, self.y0), coord: (0i64, 0i64) },
            Vertex { position: (self.x1, self.y0), coord: (0i64, 0i64) },
            Vertex { position: (self.x1, self.y1), coord: (0i64, 0i64) },
            Vertex { position: (self.x0, self.y1), coord: (0i64, 0i64) },
        ];
        let inset_x0: i64 = self.x0 + BORDER_SIZE;
        let inset_y0: i64 = self.y0 + BORDER_SIZE;
        let inset_x1: i64 = self.x1 - BORDER_SIZE;
        let inset_y1: i64 = self.y1 - BORDER_SIZE;
        let inner_vertices: Vec<Vertex> = vec![
            Vertex { position: (inset_x0, inset_y0), coord: (0i64, 0i64) },
            Vertex { position: (inset_x1, inset_y0), coord: (0i64, 0i64) },
            Vertex { position: (inset_x1, inset_y1), coord: (0i64, 0i64) },
            Vertex { position: (inset_x0, inset_y1), coord: (0i64, 0i64) },
        ];
        let transparent = Color { r: 0, g: 0, b: 0, a: 0 };
        let outer = OpenGLLayer {
            vertex_data: outer_vertices,
            index_data: make_quad_indices(),
            program: ShaderKind::SolidFill,
            matrix: identity_transform(),
            uniforms: Uniforms {
                color: self.border_color,
                border_color: transparent,
                matrix: identity_transform(),
                center: (0i64, 0i64),
                radius: 0,
            },
        };
        let inner = OpenGLLayer {
            vertex_data: inner_vertices,
            index_data: make_quad_indices(),
            program: ShaderKind::SolidFill,
            matrix: identity_transform(),
            uniforms: Uniforms {
                color: self.fill_color,
                border_color: transparent,
                matrix: identity_transform(),
                center: (0i64, 0i64),
                radius: 0,
            },
        };
        let r: Vec<OpenGLLayer> = vec![outer, inner];
        proof {
            assert(views_of(r@) =~~= rect_layers_spec(*self));
        }
        r
    }
}

impl Drawable for Rectangle {

}

impl ToOpenGLLayers for Circle {
    open spec fn valid(&self) -> bool {
        circle_valid(*self)
    }

    open spec fn layers_spec(&self) -> Seq<LayerView> {
        circle_layers_spec(*self)
    }

    fn to_opengl_layers(&self) -> (r: Vec<OpenGLLayer>) {
        let left: i64 = self.x - self.radius;
        let right: i64 = self.x + self.radius;
        let top: i64 = self.y + self.radius;
        let bottom: i64 = self.y - self.radius;
        let vertices: Vec<Vertex> = vec![
            Vertex { position: (left, top), coord: (NEG_UNIT, UNIT) },
            Vertex { position: (right, top), coord: (UNIT, UNIT) },
            Vertex { position: (right, bottom), coord: (UNIT, NEG_UNIT) },
            Vertex { position: (left, bottom), coord: (NEG_UNIT, NEG_UNIT) },
        ];
        let layer = OpenGLLayer {
            vertex_data: vertices,
            index_data: make_quad_indices(),
            program: ShaderKind::Circle,
            matrix: identity_transform(),
            uniforms: Uniforms {
                color: self.fill_color,
                border_color: self.border_color,
                matrix: identity_transform(),
                center: (0i64, 0i64),
                radius: 0,
            },
        };
        let r: Vec<OpenGLLayer> = vec![layer];
        proof {
            assert(views_of(r@) =~~= circle_layers_spec(*self));
        }
        r
    }
}

impl Drawable for Circle {

}

impl ToOpenGLLayers for BackgroundGrid {
    open spec fn valid(&self) -> bool {
        grid_valid(*self)
    }

    open spec fn layers_spec(&self) -> Seq<LayerView> {
        grid_layers_spec(*self)
    }

    fn to_opengl_layers(&self) -> (r: Vec<OpenGLLayer>) {
        let vertices: Vec<Vertex> = vec![
            Vertex { position: (NEG_UNIT, UNIT), coord: (NEG_UNIT, UNIT) },
            Vertex { position: (UNIT, UNIT), coord: (UNIT, UNIT) },
            Vertex { position: (UNIT, NEG_UNIT), coord: (UNIT, NEG_UNIT) },
            Vertex { position: (NEG_UNIT, NEG_UNIT), coord: (NEG_UNIT, NEG_UNIT) },
        ];
        let layer = OpenGLLayer {
            vertex_data: vertices,
            index_data: make_quad_indices(),
            program: ShaderKind::Grid,
            matrix: identity_transform(),
            uniforms: Uniforms {
                color: Color { r: 0, g: 0, b: 0, a: 0 },
                border_color: self.color,
                matrix: identity_transform(),
                center: (0i64, 0i64),
                radius: 0,
            },
        };
        let r: Vec<OpenGLLayer> = vec![layer];
        proof {
            assert(views_of(r@) =~~= grid_layers_spec(*self));
        }
        r
    }
}

impl Drawable for BackgroundGrid {

}

impl ToOpenGLLayers for Shape {
    open spec fn valid(&self) -> bool {
        shape_valid(*self)
    }

    open spec fn layers_spec(&self) -> Seq<LayerView> {
        shape_layers_spec(*self)
    }

    fn to_opengl_layers(&self) -> (r: Vec<OpenGLLayer>) {
        match self {
            Shape::Rectangle(rect) => rect.to_opengl_layers(),
            Shape::Circle(circle) => circle.to_opengl_layers(),
            Shape::BackgroundGrid(grid) => grid.to_opengl_layers(),
        }
    }
}

impl Drawable for Shape {

}

/// Compiling a shape is a pure function of its fields: any two layer lists
/// that satisfy the compiler's contract for the same shape are equal.
pub proof fn lemma_compile_pure(s: Shape, l1: Seq<LayerView>, l2: Seq<LayerView>)
    requires
        l1 == shape_layers_spec(s),
        l2 == shape_layers_spec(s),
    ensures
        l1 == l2,
{
}

/// How a layer is drawn: the uniforms handed to the one draw call, and the
/// fixed source-over alpha blending mode.
#[derive(Clone, Copy, PartialEq, Eq, Debug)]
pub enum BlendMode {
    AlphaOver,
}

/// Everything the backend needs for one draw call beyond the layer's own
/// buffers: the final uniform values and the blending mode.
#[derive(Clone, Copy, PartialEq, Eq, Debug)]
pub struct DrawCommand {
    pub uniforms: Uniforms,
    pub blend: BlendMode,
}

impl OpenGLLayer {
    /// Prepares the one draw call for this layer under the given global
    /// viewport-correction transform: the layer's own transform is composed
    /// with it, every other uniform is taken from the layer unchanged, and
    /// source-over alpha blending is selected.
    pub fn draw(&self, transformation: &ScaleTransform) -> (cmd: DrawCommand)
        requires
            self.matrix.wf(),
            transformation.wf(),
        ensures
            cmd.blend == BlendMode::AlphaOver,
            cmd.uniforms == (Uniforms {
                matrix: scale_compose_spec(self.matrix, *transformation),
                ..self.uniforms
            }),
    {
        let matrix = scale_compose(&self.matrix, transformation);
        DrawCommand {
            uniforms: Uniforms {
                color: self.uniforms.color,
                border_color: self.uniforms.border_color,
                matrix,
                center: self.uniforms.center,
                radius: self.uniforms.radius,
            },
            blend: BlendMode::AlphaOver,
        }
    }
}

} // verus!
