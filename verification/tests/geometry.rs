//! Tests of the geometry compiler, the draw-call preparation, the viewport
//! transform and the shader program cache.

use drawer::models::BackgroundGrid;
use drawer::models::BlendMode;
use drawer::models::Circle;
use drawer::models::Color;
use drawer::models::Frac;
use drawer::models::Rectangle;
use drawer::models::ScaleTransform;
use drawer::models::ShaderKind;
use drawer::models::ToOpenGLLayers;
use drawer::models::viewport_matrix;
use drawer::shaders::ShaderProgramCache;
use drawer::shaders::fragment_shader_source;
use drawer::shaders::vertex_shader_source;

fn opaque_white() -> Color {
    Color { r: 1000, g: 1000, b: 1000, a: 1000 }
}

fn opaque_black() -> Color {
    Color { r: 0, g: 0, b: 0, a: 1000 }
}

#[test]
fn rectangle_compiles_to_outer_and_inner_quad() {
    let r = Rectangle::new(-400, -300, 200, 100, opaque_white(), opaque_black());
    let layers = r.to_opengl_layers();
    assert_eq!(layers.len(), 2);

    let outer = &layers[0];
    assert_eq!(outer.program, ShaderKind::SolidFill);
    let outer_positions: Vec<(i64, i64)> =
        outer.vertex_data.iter().map(|v| v.position).collect();
    assert_eq!(outer_positions, vec![(-400, -300), (200, -300), (200, 100), (-400, 100)]);
    assert_eq!(outer.index_data, vec![0u16, 1, 3, 1, 2, 3]);
    // The outer quad is filled with the border color.
    assert_eq!(outer.uniforms.color, opaque_black());

    let inner = &layers[1];
    let inner_positions: Vec<(i64, i64)> =
        inner.vertex_data.iter().map(|v| v.position).collect();
    // Inset by the border thickness 10 (0.01 normalized) on every side.
    assert_eq!(inner_positions, vec![(-390, -290), (190, -290), (190, 90), (-390, 90)]);
    assert_eq!(inner.index_data, vec![0u16, 1, 3, 1, 2, 3]);
    // The inner quad is filled with the fill color.
    assert_eq!(inner.uniforms.color, opaque_white());
}

#[test]
fn thin_rectangle_inner_quad_inverts_without_clamping() {
    // A rectangle thinner than twice the border thickness: the inset
    // corners cross over, and the degenerate inner quad is kept as-is.
    let r = Rectangle::new(0, 0, 5, 5, opaque_white(), opaque_black());
    let layers = r.to_opengl_layers();
    let inner_positions: Vec<(i64, i64)> =
        layers[1].vertex_data.iter().map(|v| v.position).collect();
    assert_eq!(inner_positions, vec![(10, 10), (-5, 10), (-5, -5), (10, -5)]);
}

#[test]
fn compiling_twice_yields_identical_layers() {
    let r = Rectangle::new(-100, 0, 300, 500, opaque_white(), opaque_black());
    assert_eq!(r.to_opengl_layers(), r.to_opengl_layers());
    let c = Circle::new(50, -50, 200, opaque_white(), opaque_black());
    assert_eq!(c.to_opengl_layers(), c.to_opengl_layers());
    let g = BackgroundGrid { color: Color { r: 0, g: 0, b: 0, a: 250 } };
    assert_eq!(g.to_opengl_layers(), g.to_opengl_layers());
}

#[test]
fn circle_bounding_quad_and_unit_coords() {
    // A circle at the origin with radius 0.3: corners at (±0.3, ±0.3),
    // coords the four combinations of (±1, ±1).
    let c = Circle::new(0, 0, 300, opaque_white(), opaque_black());
    let layers = c.to_opengl_layers();
    assert_eq!(layers.len(), 1);
    let layer = &layers[0];
    assert_eq!(layer.program, ShaderKind::Circle);

    let positions: Vec<(i64, i64)> = layer.vertex_data.iter().map(|v| v.position).collect();
    assert_eq!(positions, vec![(-300, 300), (300, 300), (300, -300), (-300, -300)]);

    let coords: Vec<(i64, i64)> = layer.vertex_data.iter().map(|v| v.coord).collect();
    assert_eq!(coords, vec![(-1000, 1000), (1000, 1000), (1000, -1000), (-1000, -1000)]);

    assert_eq!(layer.index_data, vec![0u16, 1, 3, 1, 2, 3]);
    assert_eq!(layer.uniforms.color, opaque_white());
    assert_eq!(layer.uniforms.border_color, opaque_black());
}

#[test]
fn grid_covers_the_full_viewport() {
    let g = BackgroundGrid { color: Color { r: 0, g: 0, b: 0, a: 250 } };
    let layers = g.to_opengl_layers();
    assert_eq!(layers.len(), 1);
    let layer = &layers[0];
    assert_eq!(layer.program, ShaderKind::Grid);
    let positions: Vec<(i64, i64)> = layer.vertex_data.iter().map(|v| v.position).collect();
    assert_eq!(positions, vec![(-1000, 1000), (1000, 1000), (1000, -1000), (-1000, -1000)]);
    // The grid's color rides in the border_color uniform.
    assert_eq!(layer.uniforms.border_color, Color { r: 0, g: 0, b: 0, a: 250 });
    assert_eq!(layer.uniforms.color, Color { r: 0, g: 0, b: 0, a: 0 });
}

#[test]
fn viewport_matrix_letterboxes_wide_framebuffers() {
    // width > height: X is scaled by height/width, Y stays 1.
    let m = viewport_matrix(1024, 768);
    assert_eq!(m.sx, Frac { num: 768, den: 1024 });
    assert_eq!(m.sy, Frac { num: 1, den: 1 });
}

#[test]
fn viewport_matrix_letterboxes_tall_framebuffers() {
    let m = viewport_matrix(600, 800);
    assert_eq!(m.sx, Frac { num: 1, den: 1 });
    assert_eq!(m.sy, Frac { num: 600, den: 800 });
}

#[test]
fn viewport_matrix_is_identity_for_square_framebuffers() {
    let m = viewport_matrix(512, 512);
    assert_eq!(m.sx, Frac { num: 512, den: 512 });
    assert_eq!(m.sy, Frac { num: 1, den: 1 });
}

#[test]
fn draw_composes_the_viewport_transform() {
    let r = Rectangle::new(0, 0, 100, 100, opaque_white(), opaque_black());
    let layers = r.to_opengl_layers();
    let viewport = viewport_matrix(1024, 768);
    let cmd = layers[0].draw(&viewport);
    // The layer's own transform is the identity, so the effective transform
    // is the viewport correction itself (with the factors multiplied out).
    assert_eq!(cmd.uniforms.matrix.sx, Frac { num: 768, den: 1024 });
    assert_eq!(cmd.uniforms.matrix.sy, Frac { num: 1, den: 1 });
    // Every other uniform comes from the layer unchanged.
    assert_eq!(cmd.uniforms.color, layers[0].uniforms.color);
    assert_eq!(cmd.uniforms.border_color, layers[0].uniforms.border_color);
    assert_eq!(cmd.uniforms.center, layers[0].uniforms.center);
    assert_eq!(cmd.uniforms.radius, layers[0].uniforms.radius);
    assert_eq!(cmd.blend, BlendMode::AlphaOver);
}

#[test]
fn draw_scales_both_axes_exactly() {
    let a = ScaleTransform {
        sx: Frac { num: 3, den: 4 },
        sy: Frac { num: 5, den: 7 },
    };
    let g = BackgroundGrid { color: Color { r: 0, g: 0, b: 0, a: 250 } };
    let layers = g.to_opengl_layers();
    let cmd = layers[0].draw(&a);
    assert_eq!(cmd.uniforms.matrix.sx, Frac { num: 3, den: 4 });
    assert_eq!(cmd.uniforms.matrix.sy, Frac { num: 5, den: 7 });
}

#[test]
fn program_cache_compiles_each_kind_once() {
    let mut cache = ShaderProgramCache::new();
    assert!(cache.acquire(ShaderKind::SolidFill));
    assert!(!cache.acquire(ShaderKind::SolidFill));
    assert!(cache.acquire(ShaderKind::Circle));
    assert!(cache.acquire(ShaderKind::Grid));
    assert!(!cache.acquire(ShaderKind::Circle));
    assert!(!cache.acquire(ShaderKind::Grid));
    assert!(!cache.acquire(ShaderKind::SolidFill));
}

#[test]
fn shader_sources_are_fixed_glsl_programs() {
    let solid_vert = vertex_shader_source(ShaderKind::SolidFill);
    assert!(solid_vert.contains("#version 330"));
    assert!(solid_vert.contains("gl_Position = vec4(position, 0.0, 1.0) * matrix;"));
    let solid_frag = fragment_shader_source(ShaderKind::SolidFill);
    assert!(solid_frag.contains("gl_FragColor = color;"));

    let circle_frag = fragment_shader_source(ShaderKind::Circle);
    assert!(circle_frag.contains("smoothstep(0.99-delta, 0.99, dist)"));
    assert!(circle_frag.contains("smoothstep(1.0-delta, 1.0, dist)"));

    let grid_frag = fragment_shader_source(ShaderKind::Grid);
    assert!(grid_frag.contains("mod(gl_FragCoord.x, 30) < 1"));
    assert!(grid_frag.contains("mod(gl_FragCoord.x, 15) < 1"));
    assert!(grid_frag.contains("border_color2[3] = 0.15;"));

    // Each kind has its own pair of sources.
    assert!(vertex_shader_source(ShaderKind::Circle) != solid_vert);
    assert!(vertex_shader_source(ShaderKind::Grid) != solid_vert);
    assert!(fragment_shader_source(ShaderKind::Grid) != circle_frag);
}
