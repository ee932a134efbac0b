use vstd::prelude::*;

verus! {

/// The shape families that the renderer can instantiate.
#[derive(Clone, Copy, PartialEq, Eq, Structural, Debug)]
pub enum ShapeKind {
    Solid,
    Textured,
    Gradient,
    Faded,
    Tinted,
    Complex,
}

/// The vertex/fragment program pair that a style binds.
#[derive(Clone, Copy, PartialEq, Eq, Structural, Debug)]
pub enum ShaderPair {
    Solid,
    Texture,
    Gradient,
    Faded,
}

/// One pipeline configuration of the catalogue.
#[derive(Clone, Copy, PartialEq, Eq, Structural, Debug)]
pub struct StyleConfig {
    pub shaders: ShaderPair,
    /// Texture slots of the descriptor set layout (0 or 1).
    pub textures: u32,
    /// Vertex buffers bound per draw (1 to 3).
    pub vertex_buffers: u32,
    /// Whether the pipeline blends.
    pub alpha: bool,
}

/// Number of styles in the catalogue: two variants for every family but
/// the faded one, which only blends.
pub const STYLE_COUNT: usize = 11;

pub open spec fn spec_style(kind: ShapeKind, alpha: bool) -> StyleConfig {
    match kind {
        ShapeKind::Solid => StyleConfig { shaders: ShaderPair::Solid, textures: 0, vertex_buffers: 1, alpha },
        ShapeKind::Textured => StyleConfig { shaders: ShaderPair::Texture, textures: 1, vertex_buffers: 2, alpha },
        ShapeKind::Gradient => StyleConfig { shaders: ShaderPair::Gradient, textures: 0, vertex_buffers: 2, alpha },
        ShapeKind::Faded => StyleConfig { shaders: ShaderPair::Faded, textures: 1, vertex_buffers: 2, alpha: true },
        ShapeKind::Tinted => StyleConfig { shaders: ShaderPair::Gradient, textures: 1, vertex_buffers: 2, alpha },
        ShapeKind::Complex => StyleConfig { shaders: ShaderPair::Gradient, textures: 1, vertex_buffers: 3, alpha },
    }
}

/// Where the style for a family and blend flag sits in the catalogue.
pub open spec fn spec_style_slot(kind: ShapeKind, alpha: bool) -> nat {
    match kind {
        ShapeKind::Solid => if alpha { 0 } else { 1 },
        ShapeKind::Textured => if alpha { 2 } else { 3 },
        ShapeKind::Gradient => if alpha { 4 } else { 5 },
        ShapeKind::Faded => 6,
        ShapeKind::Tinted => if alpha { 7 } else { 8 },
        ShapeKind::Complex => if alpha { 9 } else { 10 },
    }
}

pub fn style_config(kind: ShapeKind, alpha: bool) -> (r: StyleConfig)
    ensures
        r == spec_style(kind, alpha),
{
    match kind {
        ShapeKind::Solid => StyleConfig { shaders: ShaderPair::Solid, textures: 0, vertex_buffers: 1, alpha },
        ShapeKind::Textured => StyleConfig { shaders: ShaderPair::Texture, textures: 1, vertex_buffers: 2, alpha },
        ShapeKind::Gradient => StyleConfig { shaders: ShaderPair::Gradient, textures: 0, vertex_buffers: 2, alpha },
        ShapeKind::Faded => StyleConfig { shaders: ShaderPair::Faded, textures: 1, vertex_buffers: 2, alpha: true },
        ShapeKind::Tinted => StyleConfig { shaders: ShaderPair::Gradient, textures: 1, vertex_buffers: 2, alpha },
        ShapeKind::Complex => StyleConfig { shaders: ShaderPair::Gradient, textures: 1, vertex_buffers: 3, alpha },
    }
}

pub fn style_slot(kind: ShapeKind, alpha: bool) -> (r: usize)
    ensures
        r == spec_style_slot(kind, alpha),
        r < STYLE_COUNT,
{
    match kind {
        ShapeKind::Solid => if alpha { 0 } else { 1 },
        ShapeKind::Textured => if alpha { 2 } else { 3 },
        ShapeKind::Gradient => if alpha { 4 } else { 5 },
        ShapeKind::Faded => 6,
        ShapeKind::Tinted => if alpha { 7 } else { 8 },
        ShapeKind::Complex => if alpha { 9 } else { 10 },
    }
}

/// The whole catalogue, in slot order. It is built once, against the
/// render pass that the swapchain was created with.
pub fn style_registry() -> (r: Vec<StyleConfig>)
    ensures
        r@.len() == STYLE_COUNT,
        forall|k: ShapeKind, a: bool| #[trigger] r@[spec_style_slot(k, a) as int] == spec_style(k, a),
        r@ == seq![
            spec_style(ShapeKind::Solid, true), spec_style(ShapeKind::Solid, false),
            spec_style(ShapeKind::Textured, true), spec_style(ShapeKind::Textured, false),
            spec_style(ShapeKind::Gradient, true), spec_style(ShapeKind::Gradient, false),
            spec_style(ShapeKind::Faded, true),
            spec_style(ShapeKind::Tinted, true), spec_style(ShapeKind::Tinted, false),
            spec_style(ShapeKind::Complex, true), spec_style(ShapeKind::Complex, false),
        ],
{
    let mut r: Vec<StyleConfig> = Vec::new();
    r.push(style_config(ShapeKind::Solid, true));
    r.push(style_config(ShapeKind::Solid, false));
    r.push(style_config(ShapeKind::Textured, true));
    r.push(style_config(ShapeKind::Textured, false));
    r.push(style_config(ShapeKind::Gradient, true));
    r.push(style_config(ShapeKind::Gradient, false));
    r.push(style_config(ShapeKind::Faded, true));
    r.push(style_config(ShapeKind::Tinted, true));
    r.push(style_config(ShapeKind::Tinted, false));
    r.push(style_config(ShapeKind::Complex, true));
    r.push(style_config(ShapeKind::Complex, false));
    proof {
        let e = r@;
        assert forall|k: ShapeKind, a: bool| #[trigger] e[spec_style_slot(k, a) as int] == spec_style(k, a) by {
            match k {
                ShapeKind::Solid => {},
                ShapeKind::Textured => {},
                ShapeKind::Gradient => {},
                ShapeKind::Faded => {},
                ShapeKind::Tinted => {},
                ShapeKind::Complex => {},
            }
        }
    }
    r
}

} // verus!
