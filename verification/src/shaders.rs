//! The three fixed shader programs and the one-compile-per-kind cache.
//!
//! The GLSL source text of each program is embedded here as data; a GPU
//! backend compiles it.  [`ShaderProgramCache`] records which kinds have
//! been compiled for the current backend, so that each program is compiled
//! exactly once and then shared by every layer that selects it.

use vstd::prelude::*;

use crate::models::ShaderKind;

verus! {

/// The vertex shader source of the given program kind.
pub open spec fn vertex_shader_source_spec(kind: ShaderKind) -> Seq<char> {
    match kind {
        ShaderKind::SolidFill => "   #version 330
            uniform mat4 matrix;

            attribute vec2 position;

            void main() {
                gl_Position = vec4(position, 0.0, 1.0) * matrix;
            }
        "@,
        ShaderKind::Circle => "   #version 330
            uniform mat4 matrix;
            uniform vec4 color;
            uniform vec4 border_color;

            in vec2 position;
            in vec2 coord;

            out vec2 uv;
            out vec4 forground_color;
            out vec4 background_color;

            void main() {
                gl_Position = vec4(position, 0.0, 1.0) * matrix;

                uv = coord;

                background_color = border_color;
                background_color[3] = 0.0;
            }
        "@,
        ShaderKind::Grid => "   #version 330
            uniform mat4 matrix;

            in vec2 position;
            in vec2 coord;

            out vec2 uv;

            void main() {
                gl_Position = vec4(position, 0.0, 1.0);

                vec4 uv_full = vec4(coord, 0.0, 1.0);
                uv = uv_full.xy;
            }
        "@,
    }
}

/// The fragment shader source of the given program kind.
pub open spec fn fragment_shader_source_spec(kind: ShaderKind) -> Seq<char> {
    match kind {
        ShaderKind::SolidFill => "   #version 330
            uniform vec4 color;

            void main() {
                gl_FragColor = color;
            }
        "@,
        ShaderKind::Circle => "   #version 330
            uniform vec4 color;
            uniform vec4 border_color;

            in vec2 uv;
            in vec4 background_color;

            out vec4 secColor;

            void main() {
                float dist = distance(uv, vec2(0.0, 0.0));

                float delta = 0.01;

                float alpha = smoothstep(0.99-delta, 0.99, dist);
                vec4 forground_color = mix(color, border_color, alpha);

                alpha = smoothstep(1.0-delta, 1.0, dist);
                secColor = mix(forground_color, background_color, alpha);
            }
        "@,
        ShaderKind::Grid => "   #version 330
            uniform vec4 color;
            uniform vec4 border_color;

            in vec2 uv;
            in vec4 background_color;

            out vec4 secColor;

            void main() {
                vec4 border_color2 = border_color;
                border_color2[3] = 0.15;

                if (mod(gl_FragCoord.x, 30) < 1 ||
                        mod(gl_FragCoord.y, 30) < 1) {
                    secColor = border_color;
                } else if (mod(gl_FragCoord.x, 15) < 1 ||
                        mod(gl_FragCoord.y, 15) < 1) {
                    secColor = border_color2;
                } else {
                    secColor = color;
                }
            }
        "@,
    }
}

/// Hands out the fixed vertex shader source of a program kind.
pub fn vertex_shader_source(kind: ShaderKind) -> (r: &'static str)
    ensures
        r@ == vertex_shader_source_spec(kind),
{
    match kind {
        ShaderKind::SolidFill => "   #version 330
            uniform mat4 matrix;

            attribute vec2 position;

            void main() {
                gl_Position = vec4(position, 0.0, 1.0) * matrix;
            }
        ",
        ShaderKind::Circle => "   #version 330
            uniform mat4 matrix;
            uniform vec4 color;
            uniform vec4 border_color;

            in vec2 position;
            in vec2 coord;

            out vec2 uv;
            out vec4 forground_color;
            out vec4 background_color;

            void main() {
                gl_Position = vec4(position, 0.0, 1.0) * matrix;

                uv = coord;

                background_color = border_color;
                background_color[3] = 0.0;
            }
        ",
        ShaderKind::Grid => "   #version 330
            uniform mat4 matrix;

            in vec2 position;
            in vec2 coord;

            out vec2 uv;

            void main() {
                gl_Position = vec4(position, 0.0, 1.0);

                vec4 uv_full = vec4(coord, 0.0, 1.0);
                uv = uv_full.xy;
            }
        ",
    }
}

/// Hands out the fixed fragment shader source of a program kind.
pub fn fragment_shader_source(kind: ShaderKind) -> (r: &'static str)
    ensures
        r@ == fragment_shader_source_spec(kind),
{
    match kind {
        ShaderKind::SolidFill => "   #version 330
            uniform vec4 color;

            void main() {
                gl_FragColor = color;
            }
        ",
        ShaderKind::Circle => "   #version 330
            uniform vec4 color;
            uniform vec4 border_color;

            in vec2 uv;
            in vec4 background_color;

            out vec4 secColor;

            void main() {
                float dist = distance(uv, vec2(0.0, 0.0));

                float delta = 0.01;

                float alpha = smoothstep(0.99-delta, 0.99, dist);
                vec4 forground_color = mix(color, border_color, alpha);

                alpha = smoothstep(1.0-delta, 1.0, dist);
                secColor = mix(forground_color, background_color, alpha);
            }
        ",
        ShaderKind::Grid => "   #version 330
            uniform vec4 color;
            uniform vec4 border_color;

            in vec2 uv;
            in vec4 background_color;

            out vec4 secColor;

            void main() {
                vec4 border_color2 = border_color;
                border_color2[3] = 0.15;

                if (mod(gl_FragCoord.x, 30) < 1 ||
                        mod(gl_FragCoord.y, 30) < 1) {
                    secColor = border_color;
                } else if (mod(gl_FragCoord.x, 15) < 1 ||
                        mod(gl_FragCoord.y, 15) < 1) {
                    secColor = border_color2;
                } else {
                    secColor = color;
                }
            }
        ",
    }
}

/// Tracks, for one backend lifetime, which shader kinds have been compiled.
/// A program is compiled the first time a layer needs it and shared by every
/// later request of the same kind.
#[derive(Clone, Copy, PartialEq, Eq, Debug)]
pub struct ShaderProgramCache {
    solid_fill_compiled: bool,
    circle_compiled: bool,
    grid_compiled: bool,
}

impl ShaderProgramCache {
    /// Whether the program of the given kind has been compiled already.
    pub closed spec fn is_compiled(self, kind: ShaderKind) -> bool {
        match kind {
            ShaderKind::SolidFill => self.solid_fill_compiled,
            ShaderKind::Circle => self.circle_compiled,
            ShaderKind::Grid => self.grid_compiled,
        }
    }

    /// A fresh cache for a new backend: nothing compiled yet.
    pub fn new() -> (c: ShaderProgramCache)
        ensures
            forall|kind: ShaderKind| !c.is_compiled(kind),
    {
        ShaderProgramCache {
            solid_fill_compiled: false,
            circle_compiled: false,
            grid_compiled: false,
        }
    }

    /// Requests the program of a kind.  The result says whether the backend
    /// must compile it now; afterwards the kind counts as compiled, so a
    /// second request of the same kind never compiles again.  Other kinds
    /// are untouched.
    pub fn acquire(&mut self, kind: ShaderKind) -> (fresh: bool)
        ensures
            fresh == !old(self).is_compiled(kind),
            final(self).is_compiled(kind),
            forall|other: ShaderKind|
                other != kind ==> final(self).is_compiled(other) == old(self).is_compiled(other),
    {
        match kind {
            ShaderKind::SolidFill => {
                let fresh = !self.solid_fill_compiled;
                self.solid_fill_compiled = true;
                fresh
            },
            ShaderKind::Circle => {
                let fresh = !self.circle_compiled;
                self.circle_compiled = true;
                fresh
            },
            ShaderKind::Grid => {
                let fresh = !self.grid_compiled;
                self.grid_compiled = true;
                fresh
            },
        }
    }
}

} // verus!
