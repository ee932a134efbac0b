use vstd::prelude::*;
use crate::handle::{partition_of, spec_partition, Partition, ShapeHandle};
use crate::order::{indexes_into, sorted_by_depth, depth_sort};
use crate::pool::{copied, spec_vertex_count, vertex_count, Gradient, Model, TexCoords, VertexBuffer};
use crate::style::{spec_style_slot, style_slot, ShapeKind};
use crate::swapchain::Vw;
use crate::texture::{Texture, TextureUpload};
use crate::uniform::{fog_words, hcam, spec_fog_words, spec_hcam, Matrix, Uniform};

verus! {

/// One drawable instance.
#[derive(Debug)]
pub struct Shape {
    /// Slot of its style in the catalogue.
    pub style: usize,
    /// The vertex buffers bound when it is drawn, in binding order.
    pub buffers: Vec<VertexBuffer>,
    /// The texture its descriptor set samples, if any.
    pub texture: Option<usize>,
    /// Triangle fans, copied from the model.
    pub fans: Vec<(u32, u32)>,
    /// Its uniform payload; the matrix in it is the shape's transform.
    pub uniform: Uniform,
}

/// What is recorded for one shape: its vertex buffers are bound, its
/// pipeline and descriptor set (those of the instance that the handle
/// names) are bound, then one draw is issued per fan.
#[derive(Debug)]
pub struct DrawCall {
    pub shape: ShapeHandle,
    pub buffers: Vec<VertexBuffer>,
    pub fans: Vec<(u32, u32)>,
}

/// The plan of one frame: the render pass begins on the acquired image's
/// framebuffer, cleared to the clear color, and the draws follow in order.
#[derive(Debug)]
pub struct Frame {
    pub image: u64,
    pub frame_buffer: u64,
    pub render_pass: u64,
    pub width: u32,
    pub height: u32,
    pub clear_color: [u32; 3],
    pub draws: Vec<DrawCall>,
}

/// What the view-projection matrix is built from: the camera's position
/// and rotation (bit patterns of single-precision numbers) and the surface
/// size that gives the aspect ratio.
#[derive(Clone, Copy, Debug)]
pub struct CameraPose {
    pub xyz: [u32; 3],
    pub rotate_xyz: [u32; 3],
    pub width: u32,
    pub height: u32,
}

/// What follows a resize: the camera is rebuilt for the new aspect ratio,
/// and the pipelines of the style catalogue are rebuilt when the new render
/// pass is another object than the one they were built against.
#[derive(Clone, Copy, Debug)]
pub struct ResizePlan {
    pub camera: CameraPose,
    pub rebuild_styles: bool,
}

/// Indices 0 to n - 1, in order.
pub open spec fn indices(n: nat) -> Seq<u32> {
    Seq::new(n, |i: int| i as u32)
}

/// A draw order over n shapes: each one exactly once.
pub open spec fn draw_order_wf(ind: Seq<u32>, n: nat) -> bool {
    &&& n < u32::MAX
    &&& ind.len() == n
    &&& indexes_into(ind, n)
    &&& ind.to_multiset() == indices(n).to_multiset()
}

pub open spec fn shape_is(
    s: Shape,
    style: nat,
    buffers: Seq<VertexBuffer>,
    texture: Option<usize>,
    fans: Seq<(u32, u32)>,
    uniform: Uniform,
) -> bool {
    &&& s.style == style
    &&& s.buffers@ == buffers
    &&& s.texture == texture
    &&& s.fans@ == fans
    &&& s.uniform == uniform
}

pub open spec fn draws_shape(d: DrawCall, h: ShapeHandle, s: Shape) -> bool {
    &&& d.shape == h
    &&& d.buffers@ == s.buffers@
    &&& d.fans@ == s.fans@
}

/// The scene: resource pools, shape instances in their partitions, the
/// camera pose, the clear color and the swapchain state.
#[derive(Debug)]
pub struct Renderer {
    pub vw: Vw,
    /// Draw order of the opaque shapes, re-sorted every frame.
    pub opaque_ind: Vec<u32>,
    /// Draw order of the translucent shapes, re-sorted every frame.
    pub alpha_ind: Vec<u32>,
    pub opaque_vec: Vec<Shape>,
    pub alpha_vec: Vec<Shape>,
    pub gui_vec: Vec<Shape>,
    pub models: Vec<Model>,
    pub texcoords: Vec<TexCoords>,
    pub gradients: Vec<Gradient>,
    pub textures: Vec<Texture>,
    pub clear_color: [u32; 3],
    pub xyz: [u32; 3],
    pub rotate_xyz: [u32; 3],
}

impl Renderer {
    pub open spec fn wf(self) -> bool {
        &&& self.vw.wf()
        &&& draw_order_wf(self.opaque_ind@, self.opaque_vec@.len())
        &&& draw_order_wf(self.alpha_ind@, self.alpha_vec@.len())
        &&& self.gui_vec@.len() < u32::MAX
        &&& forall|i: int| 0 <= i < self.textures@.len() ==> (#[trigger] self.textures@[i]).wf()
    }

    /// Everything but the shapes and their draw orders is as in `old`.
    pub open spec fn same_resources(self, old: Renderer) -> bool {
        &&& self.vw == old.vw
        &&& self.models == old.models
        &&& self.texcoords == old.texcoords
        &&& self.gradients == old.gradients
        &&& self.textures == old.textures
        &&& self.clear_color == old.clear_color
        &&& self.xyz == old.xyz
        &&& self.rotate_xyz == old.rotate_xyz
    }

    /// The shapes and draw orders are as in `old`.
    pub open spec fn same_shapes(self, old: Renderer) -> bool {
        &&& self.opaque_ind == old.opaque_ind
        &&& self.alpha_ind == old.alpha_ind
        &&& self.opaque_vec == old.opaque_vec
        &&& self.alpha_vec == old.alpha_vec
        &&& self.gui_vec == old.gui_vec
    }

    pub open spec fn valid_handle(self, h: ShapeHandle) -> bool {
        match h {
            ShapeHandle::Opaque(i) => i < self.opaque_vec@.len(),
            ShapeHandle::Alpha(i) => i < self.alpha_vec@.len(),
            ShapeHandle::Gui(i) => i < self.gui_vec@.len(),
        }
    }

    pub open spec fn shape(self, h: ShapeHandle) -> Shape {
        match h {
            ShapeHandle::Opaque(i) => self.opaque_vec@[i as int],
            ShapeHandle::Alpha(i) => self.alpha_vec@[i as int],
            ShapeHandle::Gui(i) => self.gui_vec@[i as int],
        }
    }

    /// The handle that the next shape of partition `p` gets.
    pub open spec fn next_handle(self, p: Partition) -> ShapeHandle {
        match p {
            Partition::Opaque => ShapeHandle::Opaque(self.opaque_vec@.len() as u32),
            Partition::Alpha => ShapeHandle::Alpha(self.alpha_vec@.len() as u32),
            Partition::Gui => ShapeHandle::Gui(self.gui_vec@.len() as u32),
        }
    }

    /// Shapes are recorded opaque ones first in their draw order, then the
    /// translucent ones in theirs, then the overlay in insertion order.
    pub open spec fn frame_order(self) -> Seq<ShapeHandle> {
        self.opaque_ind@.map_values(|i: u32| ShapeHandle::Opaque(i))
            + self.alpha_ind@.map_values(|i: u32| ShapeHandle::Alpha(i))
            + indices(self.gui_vec@.len()).map_values(|i: u32| ShapeHandle::Gui(i))
    }

    /// `self` is `old` with shape `s` added to partition `p` under
    /// handle `h`.
    pub open spec fn added(self, old: Renderer, p: Partition, h: ShapeHandle) -> bool {
        &&& self.same_resources(old)
        &&& h == old.next_handle(p)
        &&& self.valid_handle(h)
        &&& forall|g: ShapeHandle| old.valid_handle(g) ==> self.valid_handle(g) && #[trigger] self.shape(g) == old.shape(g)
        &&& match p {
            Partition::Opaque => {
                &&& self.opaque_vec@.len() == old.opaque_vec@.len() + 1
                &&& self.opaque_ind@ == old.opaque_ind@.push(h.index())
                &&& self.alpha_vec == old.alpha_vec && self.alpha_ind == old.alpha_ind
                &&& self.gui_vec == old.gui_vec
            },
            Partition::Alpha => {
                &&& self.alpha_vec@.len() == old.alpha_vec@.len() + 1
                &&& self.alpha_ind@ == old.alpha_ind@.push(h.index())
                &&& self.opaque_vec == old.opaque_vec && self.opaque_ind == old.opaque_ind
                &&& self.gui_vec == old.gui_vec
            },
            Partition::Gui => {
                &&& self.gui_vec@.len() == old.gui_vec@.len() + 1
                &&& self.opaque_vec == old.opaque_vec && self.opaque_ind == old.opaque_ind
                &&& self.alpha_vec == old.alpha_vec && self.alpha_ind == old.alpha_ind
            },
        }
    }

    /// Room for one more shape in partition `p`: handles are 32-bit.
    pub open spec fn has_room(self, p: Partition) -> bool {
        match p {
            Partition::Opaque => self.opaque_vec@.len() + 1 < u32::MAX,
            Partition::Alpha => self.alpha_vec@.len() + 1 < u32::MAX,
            Partition::Gui => self.gui_vec@.len() + 1 < u32::MAX,
        }
    }

    /// A renderer with empty pools and no shapes, on the given swapchain.
    pub fn new(vw: Vw, rgb: [u32; 3]) -> (r: Renderer)
        requires
            vw.wf(),
        ensures
            r.wf(),
            r.vw == vw,
            r.clear_color == rgb,
            r.opaque_vec@.len() == 0 && r.alpha_vec@.len() == 0 && r.gui_vec@.len() == 0,
            r.models@.len() == 0 && r.texcoords@.len() == 0,
            r.gradients@.len() == 0 && r.textures@.len() == 0,
            r.xyz == [0u32, 0u32, 0u32] && r.rotate_xyz == [0u32, 0u32, 0u32],
    {
        let r = Renderer {
            vw,
            opaque_ind: Vec::new(),
            alpha_ind: Vec::new(),
            opaque_vec: Vec::new(),
            alpha_vec: Vec::new(),
            gui_vec: Vec::new(),
            models: Vec::new(),
            texcoords: Vec::new(),
            gradients: Vec::new(),
            textures: Vec::new(),
            clear_color: rgb,
            xyz: [0, 0, 0],
            rotate_xyz: [0, 0, 0],
        };
        assert(indices(0) =~= Seq::<u32>::empty());
        assert(r.opaque_ind@ =~= Seq::<u32>::empty());
        assert(r.alpha_ind@ =~= Seq::<u32>::empty());
        r
    }
}

/// Appending the next index keeps a draw order complete.
proof fn lemma_draw_order_push(ind: Seq<u32>, n: nat)
    requires
        draw_order_wf(ind, n),
        n + 1 < u32::MAX,
    ensures
        draw_order_wf(ind.push(n as u32), n + 1),
{
    assert(indices(n + 1) =~= indices(n).push(n as u32));
    vstd::seq_lib::to_multiset_build(ind, n as u32);
    vstd::seq_lib::to_multiset_build(indices(n), n as u32);
}

impl Renderer {
    /// Files `s` into partition `p` and returns its handle.
    fn add_shape(&mut self, s: Shape, p: Partition) -> (r: ShapeHandle)
        requires
            old(self).wf(),
            old(self).has_room(p),
        ensures
            final(self).wf(),
            final(self).added(*old(self), p, r),
            final(self).shape(r) == s,
    {
        match p {
            Partition::Opaque => {
                let i = self.opaque_vec.len() as u32;
                proof {
                    lemma_draw_order_push(self.opaque_ind@, self.opaque_vec@.len());
                }
                self.opaque_vec.push(s);
                self.opaque_ind.push(i);
                ShapeHandle::Opaque(i)
            },
            Partition::Alpha => {
                let i = self.alpha_vec.len() as u32;
                proof {
                    lemma_draw_order_push(self.alpha_ind@, self.alpha_vec@.len());
                }
                self.alpha_vec.push(s);
                self.alpha_ind.push(i);
                ShapeHandle::Alpha(i)
            },
            Partition::Gui => {
                let i = self.gui_vec.len() as u32;
                self.gui_vec.push(s);
                ShapeHandle::Gui(i)
            },
        }
    }

    /// Creates an instance of `model` with the given style, buffers,
    /// texture and uniform, and files it into partition `p`.
    fn add_instance(
        &mut self,
        model: usize,
        style: usize,
        buffers: Vec<VertexBuffer>,
        texture: Option<usize>,
        uniform: Uniform,
        p: Partition,
    ) -> (r: ShapeHandle)
        requires
            old(self).wf(),
            old(self).has_room(p),
            model < old(self).models@.len(),
        ensures
            final(self).wf(),
            final(self).added(*old(self), p, r),
            shape_is(final(self).shape(r), style as nat, buffers@, texture, old(self).models@[model as int].fans@, uniform),
    {
        let fans = copied(&self.models[model].fans);
        let shape = Shape { style, buffers, texture, fans, uniform };
        self.add_shape(shape, p)
    }

    /// Whether texture coordinates `texcoords` have one entry per vertex
    /// of model `model`, as textured, faded, tinted and complex shapes
    /// need.
    pub open spec fn spec_texcoords_match(self, model: usize, texcoords: usize) -> bool {
        self.models@[model as int].vertex_count == self.texcoords@[texcoords as int].vertex_count
    }

    /// Whether gradient `colors` has one color per vertex of model
    /// `model`, as gradient and complex shapes need.
    pub open spec fn spec_colors_match(self, model: usize, colors: usize) -> bool {
        self.models@[model as int].vertex_count == self.gradients@[colors as int].vertex_count
    }

    pub fn texcoords_match(&self, model: usize, texcoords: usize) -> (r: bool)
        requires
            model < self.models@.len(),
            texcoords < self.texcoords@.len(),
        ensures
            r == self.spec_texcoords_match(model, texcoords),
    {
        self.models[model].vertex_count == self.texcoords[texcoords].vertex_count
    }

    pub fn colors_match(&self, model: usize, colors: usize) -> (r: bool)
        requires
            model < self.models@.len(),
            colors < self.gradients@.len(),
        ensures
            r == self.spec_colors_match(model, colors),
    {
        self.models[model].vertex_count == self.gradients[colors].vertex_count
    }

    /// Registers a model of `vertices` floats (four per vertex) drawn as
    /// the given triangle fans; returns its index in the model pool.
    pub fn model(&mut self, vertices: usize, fans: Vec<(u32, u32)>) -> (r: usize)
        requires
            old(self).wf(),
            vertices <= u32::MAX,
        ensures
            final(self).wf(),
            r == old(self).models@.len(),
            final(self).models@.len() == r + 1,
            forall|i: int| 0 <= i < r ==> #[trigger] final(self).models@[i] == old(self).models@[i],
            final(self).models@[r as int].vertex_count == spec_vertex_count(vertices as nat),
            final(self).models@[r as int].fans == fans,
            final(self).same_shapes(*old(self)),
            final(self).vw == old(self).vw && final(self).textures == old(self).textures,
            final(self).texcoords == old(self).texcoords && final(self).gradients == old(self).gradients,
            final(self).clear_color == old(self).clear_color,
            final(self).xyz == old(self).xyz && final(self).rotate_xyz == old(self).rotate_xyz,
    {
        let a = self.models.len();
        self.models.push(Model { vertex_count: vertex_count(vertices), fans });
        a
    }

    /// Registers texture coordinates of `texcoords` floats (four per
    /// vertex); returns their index in the pool.
    pub fn texcoords(&mut self, texcoords: usize) -> (r: usize)
        requires
            old(self).wf(),
            texcoords <= u32::MAX,
        ensures
            final(self).wf(),
            r == old(self).texcoords@.len(),
            final(self).texcoords@ == old(self).texcoords@.push(
                TexCoords { vertex_count: spec_vertex_count(texcoords as nat) },
            ),
            final(self).same_shapes(*old(self)),
            final(self).vw == old(self).vw && final(self).textures == old(self).textures,
            final(self).models == old(self).models && final(self).gradients == old(self).gradients,
            final(self).clear_color == old(self).clear_color,
            final(self).xyz == old(self).xyz && final(self).rotate_xyz == old(self).rotate_xyz,
    {
        let a = self.texcoords.len();
        self.texcoords.push(TexCoords { vertex_count: vertex_count(texcoords) });
        a
    }

    /// Registers per-vertex colors of `colors` floats (four per vertex);
    /// returns their index in the gradient pool.
    pub fn colors(&mut self, colors: usize) -> (r: usize)
        requires
            old(self).wf(),
            colors <= u32::MAX,
        ensures
            final(self).wf(),
            r == old(self).gradients@.len(),
            final(self).gradients@ == old(self).gradients@.push(
                Gradient { vertex_count: spec_vertex_count(colors as nat) },
            ),
            final(self).same_shapes(*old(self)),
            final(self).vw == old(self).vw && final(self).textures == old(self).textures,
            final(self).models == old(self).models && final(self).texcoords == old(self).texcoords,
            final(self).clear_color == old(self).clear_color,
            final(self).xyz == old(self).xyz && final(self).rotate_xyz == old(self).rotate_xyz,
    {
        let a = self.gradients.len();
        self.gradients.push(Gradient { vertex_count: vertex_count(colors) });
        a
    }

    /// Registers a `width` × `height` texture whose mappable image has rows
    /// `pitch` bytes apart, and gives the upload of its first pixels.
    pub fn texture(&mut self, width: u32, height: u32, pitch: u32, staged: bool, rgba: &Vec<u32>) -> (r: (
        usize,
        TextureUpload,
    ))
        requires
            old(self).wf(),
            (Texture { w: width, h: height, pitch, staged }).wf(),
            rgba@.len() == width * height,
        ensures
            final(self).wf(),
            r.0 == old(self).textures@.len(),
            final(self).textures@ == old(self).textures@.push((Texture { w: width, h: height, pitch, staged })),
            r.1.words@ == (Texture { w: width, h: height, pitch, staged }).spec_layout(rgba@),
            r.1.copy_to_optimal == staged,
            final(self).same_shapes(*old(self)),
            final(self).vw == old(self).vw,
            final(self).models == old(self).models && final(self).texcoords == old(self).texcoords,
            final(self).gradients == old(self).gradients,
            final(self).clear_color == old(self).clear_color,
            final(self).xyz == old(self).xyz && final(self).rotate_xyz == old(self).rotate_xyz,
    {
        let texture = (Texture { w: width, h: height, pitch, staged });
        let upload = texture.upload(rgba);
        let a = self.textures.len();
        self.textures.push(texture);
        (a, upload)
    }

    /// The upload that replaces the pixels of texture `texture`.
    pub fn set_texture(&self, texture: usize, rgba: &Vec<u32>) -> (r: TextureUpload)
        requires
            self.wf(),
            texture < self.textures@.len(),
            rgba@.len() == self.textures@[texture as int].w * self.textures@[texture as int].h,
        ensures
            r.words@ == self.textures@[texture as int].spec_layout(rgba@),
            r.copy_to_optimal == self.textures@[texture as int].staged,
    {
        self.textures[texture].upload(rgba)
    }
}

impl Renderer {
    /// An instance of `model` sampling `texture` at `texcoords`.
    pub fn textured(&mut self, model: usize, mat4: Matrix, texture: usize, texcoords: usize, alpha: bool, fog: bool, camera: bool) -> (r: ShapeHandle)
        requires
            old(self).wf(),
            model < old(self).models@.len(),
            texture < old(self).textures@.len(),
            texcoords < old(self).texcoords@.len(),
            old(self).spec_texcoords_match(model, texcoords),
            old(self).has_room(spec_partition(alpha, fog, camera)),
        ensures
            final(self).wf(),
            final(self).added(*old(self), spec_partition(alpha, fog, camera), r),
            shape_is(
                final(self).shape(r),
                spec_style_slot(ShapeKind::Textured, alpha),
                seq![VertexBuffer::Model(model), VertexBuffer::TexCoords(texcoords)],
                Some(texture),
                old(self).models@[model as int].fans@,
                Uniform::Transform { mat: mat4, hcam: spec_hcam(fog, camera) },
            ),
    {
        let p = partition_of(alpha, fog, camera);
        let mut buffers: Vec<VertexBuffer> = Vec::new();
        buffers.push(VertexBuffer::Model(model));
        buffers.push(VertexBuffer::TexCoords(texcoords));
        assert(buffers@ =~= seq![VertexBuffer::Model(model), VertexBuffer::TexCoords(texcoords)]);
        let uniform = Uniform::Transform { mat: mat4, hcam: hcam(fog, camera) };
        self.add_instance(model, style_slot(ShapeKind::Textured, alpha), buffers, Some(texture), uniform, p)
    }

    /// An instance of `model` in one RGBA color.
    pub fn solid(&mut self, model: usize, mat4: Matrix, color: [u32; 4], alpha: bool, fog: bool, camera: bool) -> (r: ShapeHandle)
        requires
            old(self).wf(),
            model < old(self).models@.len(),
            old(self).has_room(spec_partition(alpha, fog, camera)),
        ensures
            final(self).wf(),
            final(self).added(*old(self), spec_partition(alpha, fog, camera), r),
            shape_is(
                final(self).shape(r),
                spec_style_slot(ShapeKind::Solid, alpha),
                seq![VertexBuffer::Model(model)],
                None,
                old(self).models@[model as int].fans@,
                Uniform::TransformAndColor { mat: mat4, color, hcam: spec_hcam(fog, camera) },
            ),
    {
        let p = partition_of(alpha, fog, camera);
        let mut buffers: Vec<VertexBuffer> = Vec::new();
        buffers.push(VertexBuffer::Model(model));
        assert(buffers@ =~= seq![VertexBuffer::Model(model)]);
        let uniform = Uniform::TransformAndColor { mat: mat4, color, hcam: hcam(fog, camera) };
        self.add_instance(model, style_slot(ShapeKind::Solid, alpha), buffers, None, uniform, p)
    }

    /// An instance of `model` colored per vertex by gradient `colors`.
    pub fn gradient(&mut self, model: usize, mat4: Matrix, colors: usize, alpha: bool, fog: bool, camera: bool) -> (r: ShapeHandle)
        requires
            old(self).wf(),
            model < old(self).models@.len(),
            colors < old(self).gradients@.len(),
            old(self).spec_colors_match(model, colors),
            old(self).has_room(spec_partition(alpha, fog, camera)),
        ensures
            final(self).wf(),
            final(self).added(*old(self), spec_partition(alpha, fog, camera), r),
            shape_is(
                final(self).shape(r),
                spec_style_slot(ShapeKind::Gradient, alpha),
                seq![VertexBuffer::Model(model), VertexBuffer::Gradient(colors)],
                None,
                old(self).models@[model as int].fans@,
                Uniform::Transform { mat: mat4, hcam: spec_hcam(fog, camera) },
            ),
    {
        let p = partition_of(alpha, fog, camera);
        let mut buffers: Vec<VertexBuffer> = Vec::new();
        buffers.push(VertexBuffer::Model(model));
        buffers.push(VertexBuffer::Gradient(colors));
        assert(buffers@ =~= seq![VertexBuffer::Model(model), VertexBuffer::Gradient(colors)]);
        let uniform = Uniform::Transform { mat: mat4, hcam: hcam(fog, camera) };
        self.add_instance(model, style_slot(ShapeKind::Gradient, alpha), buffers, None, uniform, p)
    }

    /// A translucent textured instance of `model`, faded by `fade_factor`.
    pub fn faded(&mut self, model: usize, mat4: Matrix, texture: usize, texcoords: usize, fade_factor: u32, fog: bool, camera: bool) -> (r: ShapeHandle)
        requires
            old(self).wf(),
            model < old(self).models@.len(),
            texture < old(self).textures@.len(),
            texcoords < old(self).texcoords@.len(),
            old(self).spec_texcoords_match(model, texcoords),
            old(self).has_room(spec_partition(true, fog, camera)),
        ensures
            final(self).wf(),
            final(self).added(*old(self), spec_partition(true, fog, camera), r),
            shape_is(
                final(self).shape(r),
                spec_style_slot(ShapeKind::Faded, true),
                seq![VertexBuffer::Model(model), VertexBuffer::TexCoords(texcoords)],
                Some(texture),
                old(self).models@[model as int].fans@,
                Uniform::TransformAndFade { mat: mat4, fade: fade_factor, hcam: spec_hcam(fog, camera) },
            ),
    {
        let p = partition_of(true, fog, camera);
        let mut buffers: Vec<VertexBuffer> = Vec::new();
        buffers.push(VertexBuffer::Model(model));
        buffers.push(VertexBuffer::TexCoords(texcoords));
        assert(buffers@ =~= seq![VertexBuffer::Model(model), VertexBuffer::TexCoords(texcoords)]);
        let uniform = Uniform::TransformAndFade { mat: mat4, fade: fade_factor, hcam: hcam(fog, camera) };
        self.add_instance(model, style_slot(ShapeKind::Faded, true), buffers, Some(texture), uniform, p)
    }

    /// A textured instance of `model`, tinted by an RGBA color.
    pub fn tinted(&mut self, model: usize, mat4: Matrix, texture: usize, texcoords: usize, color: [u32; 4], alpha: bool, fog: bool, camera: bool) -> (r: ShapeHandle)
        requires
            old(self).wf(),
            model < old(self).models@.len(),
            texture < old(self).textures@.len(),
            texcoords < old(self).texcoords@.len(),
            old(self).spec_texcoords_match(model, texcoords),
            old(self).has_room(spec_partition(alpha, fog, camera)),
        ensures
            final(self).wf(),
            final(self).added(*old(self), spec_partition(alpha, fog, camera), r),
            shape_is(
                final(self).shape(r),
                spec_style_slot(ShapeKind::Tinted, alpha),
                seq![VertexBuffer::Model(model), VertexBuffer::TexCoords(texcoords)],
                Some(texture),
                old(self).models@[model as int].fans@,
                Uniform::TransformAndColor { mat: mat4, color, hcam: spec_hcam(fog, camera) },
            ),
    {
        let p = partition_of(alpha, fog, camera);
        let mut buffers: Vec<VertexBuffer> = Vec::new();
        buffers.push(VertexBuffer::Model(model));
        buffers.push(VertexBuffer::TexCoords(texcoords));
        assert(buffers@ =~= seq![VertexBuffer::Model(model), VertexBuffer::TexCoords(texcoords)]);
        let uniform = Uniform::TransformAndColor { mat: mat4, color, hcam: hcam(fog, camera) };
        self.add_instance(model, style_slot(ShapeKind::Tinted, alpha), buffers, Some(texture), uniform, p)
    }

    /// A textured instance of `model`, also colored per vertex.
    pub fn complex(&mut self, model: usize, mat4: Matrix, texture: usize, texcoords: usize, colors: usize, alpha: bool, fog: bool, camera: bool) -> (r: ShapeHandle)
        requires
            old(self).wf(),
            model < old(self).models@.len(),
            texture < old(self).textures@.len(),
            texcoords < old(self).texcoords@.len(),
            old(self).spec_texcoords_match(model, texcoords),
            colors < old(self).gradients@.len(),
            old(self).spec_colors_match(model, colors),
            old(self).has_room(spec_partition(alpha, fog, camera)),
        ensures
            final(self).wf(),
            final(self).added(*old(self), spec_partition(alpha, fog, camera), r),
            shape_is(
                final(self).shape(r),
                spec_style_slot(ShapeKind::Complex, alpha),
                seq![VertexBuffer::Model(model), VertexBuffer::TexCoords(texcoords), VertexBuffer::Gradient(colors)],
                Some(texture),
                old(self).models@[model as int].fans@,
                Uniform::Transform { mat: mat4, hcam: spec_hcam(fog, camera) },
            ),
    {
        let p = partition_of(alpha, fog, camera);
        let mut buffers: Vec<VertexBuffer> = Vec::new();
        buffers.push(VertexBuffer::Model(model));
        buffers.push(VertexBuffer::TexCoords(texcoords));
        buffers.push(VertexBuffer::Gradient(colors));
        assert(buffers@ =~= seq![VertexBuffer::Model(model), VertexBuffer::TexCoords(texcoords), VertexBuffer::Gradient(colors)]);
        let uniform = Uniform::Transform { mat: mat4, hcam: hcam(fog, camera) };
        self.add_instance(model, style_slot(ShapeKind::Complex, alpha), buffers, Some(texture), uniform, p)
    }
}

impl Renderer {
    /// `self` is `old` with the transform of shape `h` set to `m`, and
    /// nothing else changed.
    pub open spec fn transformed(self, old: Renderer, h: ShapeHandle, m: Matrix) -> bool {
        &&& self.same_resources(old)
        &&& self.opaque_ind == old.opaque_ind
        &&& self.alpha_ind == old.alpha_ind
        &&& self.opaque_vec@.len() == old.opaque_vec@.len()
        &&& self.alpha_vec@.len() == old.alpha_vec@.len()
        &&& self.gui_vec@.len() == old.gui_vec@.len()
        &&& forall|g: ShapeHandle| old.valid_handle(g) && g != h ==> #[trigger] self.shape(g) == old.shape(g)
        &&& shape_is(
            self.shape(h),
            old.shape(h).style as nat,
            old.shape(h).buffers@,
            old.shape(h).texture,
            old.shape(h).fans@,
            old.shape(h).uniform.spec_with_matrix(m),
        )
    }

    /// Replaces shape `i` of `v` by a copy whose matrix is `m`.
    fn set_matrix(v: &mut Vec<Shape>, i: usize, m: Matrix)
        requires
            i < old(v)@.len(),
        ensures
            final(v)@.len() == old(v)@.len(),
            forall|j: int| 0 <= j < old(v)@.len() && j != i ==> #[trigger] final(v)@[j] == old(v)@[j],
            shape_is(
                final(v)@[i as int],
                old(v)@[i as int].style as nat,
                old(v)@[i as int].buffers@,
                old(v)@[i as int].texture,
                old(v)@[i as int].fans@,
                old(v)@[i as int].uniform.spec_with_matrix(m),
            ),
    {
        let s = v.remove(i);
        let uniform = s.uniform.with_matrix(m);
        v.insert(i, Shape { style: s.style, buffers: s.buffers, texture: s.texture, fans: s.fans, uniform });
    }

    /// Sets the transform of shape `shape`; returns the words to copy to
    /// the start of its uniform buffer.
    pub fn transform(&mut self, shape: &ShapeHandle, transform: Matrix) -> (r: Vec<u32>)
        requires
            old(self).wf(),
            old(self).valid_handle(*shape),
        ensures
            final(self).wf(),
            final(self).transformed(*old(self), *shape, transform),
            final(self).valid_handle(*shape),
            r@ == transform.view(),
    {
        match *shape {
            ShapeHandle::Opaque(x) => Self::set_matrix(&mut self.opaque_vec, x as usize, transform),
            ShapeHandle::Alpha(x) => Self::set_matrix(&mut self.alpha_vec, x as usize, transform),
            ShapeHandle::Gui(x) => Self::set_matrix(&mut self.gui_vec, x as usize, transform),
        }
        transform.to_words()
    }

    /// Stores a new camera position and rotation. The view-projection
    /// matrix follows on the next call of `camera`.
    pub fn set_camera(&mut self, xyz: [u32; 3], rxyz: [u32; 3])
        ensures
            final(self).xyz == xyz,
            final(self).rotate_xyz == rxyz,
            final(self).same_shapes(*old(self)),
            final(self).vw == old(self).vw,
            final(self).models == old(self).models && final(self).texcoords == old(self).texcoords,
            final(self).gradients == old(self).gradients && final(self).textures == old(self).textures,
            final(self).clear_color == old(self).clear_color,
    {
        self.xyz = xyz;
        self.rotate_xyz = rxyz;
    }

    /// What the camera's view-projection matrix is to be built from now.
    pub fn camera(&self) -> (r: CameraPose)
        ensures
            r == self.spec_camera(),
    {
        CameraPose { xyz: self.xyz, rotate_xyz: self.rotate_xyz, width: self.vw.width, height: self.vw.height }
    }

    /// The fog uniform for the range `fog` (near, far), in the clear color.
    pub fn fog(&self, fog: (u32, u32)) -> (r: Vec<u32>)
        ensures
            r@ == spec_fog_words(self.clear_color, fog.0, fog.1),
    {
        fog_words(self.clear_color, fog.0, fog.1)
    }

    /// Sets the color that frames are cleared to and that fog fades into.
    pub fn bg_color(&mut self, rgb: [u32; 3])
        ensures
            final(self).clear_color == rgb,
            final(self).same_shapes(*old(self)),
            final(self).vw == old(self).vw,
            final(self).models == old(self).models && final(self).texcoords == old(self).texcoords,
            final(self).gradients == old(self).gradients && final(self).textures == old(self).textures,
            final(self).xyz == old(self).xyz && final(self).rotate_xyz == old(self).rotate_xyz,
    {
        self.clear_color = rgb;
    }

    /// Installs the swapchain rebuilt for a new surface size, after the
    /// old one was torn down, and says what is to be rebuilt with it.
    pub fn resize(&mut self, vw: Vw) -> (r: ResizePlan)
        requires
            old(self).wf(),
            vw.wf(),
            vw.image_count == old(self).vw.image_count,
        ensures
            final(self).wf(),
            final(self).vw == vw,
            final(self).same_shapes(*old(self)),
            final(self).models == old(self).models && final(self).texcoords == old(self).texcoords,
            final(self).gradients == old(self).gradients && final(self).textures == old(self).textures,
            final(self).clear_color == old(self).clear_color,
            final(self).xyz == old(self).xyz && final(self).rotate_xyz == old(self).rotate_xyz,
            r.camera == final(self).spec_camera(),
            r.rebuild_styles == (vw.render_pass != old(self).vw.render_pass),
    {
        let rebuild_styles = vw.render_pass != self.vw.render_pass;
        self.vw = vw;
        ResizePlan { camera: self.camera(), rebuild_styles }
    }

    pub open spec fn spec_camera(self) -> CameraPose {
        CameraPose { xyz: self.xyz, rotate_xyz: self.rotate_xyz, width: self.vw.width, height: self.vw.height }
    }
}

impl Renderer {
    /// The draw for shape `h`.
    fn draw_call(&self, h: ShapeHandle) -> (r: DrawCall)
        requires
            self.valid_handle(h),
        ensures
            draws_shape(r, h, self.shape(h)),
    {
        let s = match h {
            ShapeHandle::Opaque(i) => &self.opaque_vec[i as usize],
            ShapeHandle::Alpha(i) => &self.alpha_vec[i as usize],
            ShapeHandle::Gui(i) => &self.gui_vec[i as usize],
        };
        DrawCall { shape: h, buffers: copied(&s.buffers), fans: copied(&s.fans) }
    }

    /// Plans one frame on the acquired swapchain image `image_index`.
    /// `opaque_keys[i]` and `alpha_keys[i]` are the depth keys of opaque
    /// and translucent shape `i`: distances from the camera to the shape's
    /// origin, encoded so that integer order is distance order. Opaque
    /// shapes are drawn nearest first, translucent ones farthest first,
    /// then the overlay in the order it was added.
    pub fn update(&mut self, image_index: u32, opaque_keys: &Vec<u32>, alpha_keys: &Vec<u32>) -> (r: Frame)
        requires
            old(self).wf(),
            image_index < old(self).vw.image_count,
            opaque_keys@.len() == old(self).opaque_vec@.len(),
            alpha_keys@.len() == old(self).alpha_vec@.len(),
        ensures
            final(self).wf(),
            final(self).same_resources(*old(self)),
            final(self).opaque_vec == old(self).opaque_vec,
            final(self).alpha_vec == old(self).alpha_vec,
            final(self).gui_vec == old(self).gui_vec,
            final(self).opaque_ind@.to_multiset() == old(self).opaque_ind@.to_multiset(),
            final(self).alpha_ind@.to_multiset() == old(self).alpha_ind@.to_multiset(),
            sorted_by_depth(final(self).opaque_ind@, opaque_keys@, true),
            sorted_by_depth(final(self).alpha_ind@, alpha_keys@, false),
            r.image == old(self).vw.present_images@[image_index as int],
            r.frame_buffer == old(self).vw.frame_buffers@[image_index as int],
            r.render_pass == old(self).vw.render_pass,
            r.width == old(self).vw.width,
            r.height == old(self).vw.height,
            r.clear_color == old(self).clear_color,
            r.draws@.len() == final(self).frame_order().len(),
            forall|k: int|
                0 <= k < r.draws@.len() ==> draws_shape(
                    #[trigger] r.draws@[k],
                    final(self).frame_order()[k],
                    final(self).shape(final(self).frame_order()[k]),
                ),
    {
        depth_sort(&mut self.opaque_ind, opaque_keys, true);
        depth_sort(&mut self.alpha_ind, alpha_keys, false);
        let no = self.opaque_ind.len();
        let na = self.alpha_ind.len();
        let ng = self.gui_vec.len();
        let ghost order = self.frame_order();
        assert(order.len() == no + na + ng);
        let mut draws: Vec<DrawCall> = Vec::new();
        let mut k: usize = 0;
        while k < no
            invariant
                self.wf(),
                order == self.frame_order(),
                no == self.opaque_ind@.len(),
                k <= no,
                draws@.len() == k,
                forall|t: int| 0 <= t < k ==> draws_shape(#[trigger] draws@[t], order[t], self.shape(order[t])),
            decreases no - k,
        {
            let h = ShapeHandle::Opaque(self.opaque_ind[k]);
            assert(order[k as int] == h);
            draws.push(self.draw_call(h));
            k += 1;
        }
        let mut k: usize = 0;
        while k < na
            invariant
                self.wf(),
                order == self.frame_order(),
                no == self.opaque_ind@.len(),
                na == self.alpha_ind@.len(),
                k <= na,
                draws@.len() == no + k,
                forall|t: int| 0 <= t < no + k ==> draws_shape(#[trigger] draws@[t], order[t], self.shape(order[t])),
            decreases na - k,
        {
            let h = ShapeHandle::Alpha(self.alpha_ind[k]);
            assert(order[no + k] == h);
            draws.push(self.draw_call(h));
            k += 1;
        }
        let mut k: usize = 0;
        while k < ng
            invariant
                self.wf(),
                order == self.frame_order(),
                no == self.opaque_ind@.len(),
                na == self.alpha_ind@.len(),
                ng == self.gui_vec@.len(),
                k <= ng,
                draws@.len() == no + na + k,
                forall|t: int| 0 <= t < no + na + k ==> draws_shape(#[trigger] draws@[t], order[t], self.shape(order[t])),
            decreases ng - k,
        {
            let h = ShapeHandle::Gui(k as u32);
            assert(order[no + na + k] == h);
            draws.push(self.draw_call(h));
            k += 1;
        }
        let i = image_index as usize;
        Frame {
            image: self.vw.present_images[i],
            frame_buffer: self.vw.frame_buffers[i],
            render_pass: self.vw.render_pass,
            width: self.vw.width,
            height: self.vw.height,
            clear_color: self.clear_color,
            draws,
        }
    }
}

/// A shape made with neither camera nor fog goes to the overlay
/// partition, and every frame records every overlay shape, after all
/// depth-sorted shapes and at a place that no depth key moves.
pub proof fn lemma_overlay_every_frame(r: Renderer, alpha: bool, k: int)
    requires
        r.wf(),
        0 <= k < r.gui_vec@.len(),
    ensures
        spec_partition(alpha, false, false) == Partition::Gui,
        r.next_handle(Partition::Gui) == ShapeHandle::Gui(r.gui_vec@.len() as u32),
        r.frame_order()[r.opaque_ind@.len() + r.alpha_ind@.len() + k] == ShapeHandle::Gui(k as u32),
{
}

/// Every shape of a partition appears in its draw order.
proof fn lemma_draw_order_has(ind: Seq<u32>, n: nat, a: u32) -> (i: int)
    requires
        draw_order_wf(ind, n),
        a < n,
    ensures
        0 <= i < ind.len(),
        ind[i] == a,
{
    let idx = indices(n);
    assert(idx[a as int] == a);
    vstd::seq_lib::to_multiset_contains(idx, a);
    vstd::seq_lib::to_multiset_contains(ind, a);
    choose|i: int| 0 <= i < ind.len() && ind[i] == a
}

/// After a frame is planned, of two opaque shapes the one nearer to the
/// camera is recorded first.
pub proof fn lemma_opaque_front_to_back(r: Renderer, keys: Seq<u32>, a: u32, b: u32) -> (pos: (int, int))
    requires
        r.wf(),
        sorted_by_depth(r.opaque_ind@, keys, true),
        keys.len() == r.opaque_vec@.len(),
        a < keys.len(),
        b < keys.len(),
        keys[a as int] < keys[b as int],
    ensures
        0 <= pos.0 < pos.1 < r.opaque_ind@.len(),
        r.frame_order()[pos.0] == ShapeHandle::Opaque(a),
        r.frame_order()[pos.1] == ShapeHandle::Opaque(b),
{
    let ind = r.opaque_ind@;
    let i = lemma_draw_order_has(ind, r.opaque_vec@.len(), a);
    let j = lemma_draw_order_has(ind, r.opaque_vec@.len(), b);
    if j <= i {
        assert(j != i);
        assert(keys[ind[j] as int] <= keys[ind[i] as int]);
    }
    (i, j)
}

/// After a frame is planned, of two translucent shapes the one nearer to
/// the camera is recorded after the farther one, and both after every
/// opaque shape.
pub proof fn lemma_alpha_back_to_front(r: Renderer, keys: Seq<u32>, a: u32, b: u32) -> (pos: (int, int))
    requires
        r.wf(),
        sorted_by_depth(r.alpha_ind@, keys, false),
        keys.len() == r.alpha_vec@.len(),
        a < keys.len(),
        b < keys.len(),
        keys[a as int] < keys[b as int],
    ensures
        r.opaque_ind@.len() <= pos.1 < pos.0 < r.opaque_ind@.len() + r.alpha_ind@.len(),
        r.frame_order()[pos.0] == ShapeHandle::Alpha(a),
        r.frame_order()[pos.1] == ShapeHandle::Alpha(b),
{
    let ind = r.alpha_ind@;
    let no = r.opaque_ind@.len() as int;
    let i = lemma_draw_order_has(ind, r.alpha_vec@.len(), a);
    let j = lemma_draw_order_has(ind, r.alpha_vec@.len(), b);
    if i <= j {
        assert(j != i);
        assert(keys[ind[i] as int] >= keys[ind[j] as int]);
    }
    (no + i, no + j)
}

/// A frame planned after a resize targets only the new swapchain: its
/// image, framebuffer and render pass are handles of the swapchain now
/// installed, so none of them is a handle of the one it replaced, as long
/// as the two share no handle.
pub proof fn lemma_no_stale_handles(r: Renderer, replaced: Vw, image_index: u32)
    requires
        r.wf(),
        image_index < r.vw.image_count,
        forall|h: u64| r.vw.owns(h) ==> !replaced.owns(h),
    ensures
        r.vw.owns(r.vw.present_images@[image_index as int]),
        r.vw.owns(r.vw.frame_buffers@[image_index as int]),
        r.vw.owns(r.vw.render_pass),
        !replaced.owns(r.vw.present_images@[image_index as int]),
        !replaced.owns(r.vw.frame_buffers@[image_index as int]),
        !replaced.owns(r.vw.render_pass),
{
    assert(r.vw.present_images@.contains(r.vw.present_images@[image_index as int]));
    assert(r.vw.frame_buffers@.contains(r.vw.frame_buffers@[image_index as int]));
}

/// Setting the transform of shape `h` to `m` puts `m` at the start of
/// that shape's uniform data, keeps the rest of it, and leaves every other
/// shape as it was.
pub proof fn lemma_transform_reflected(old: Renderer, new: Renderer, h: ShapeHandle, m: Matrix, g: ShapeHandle)
    requires
        old.valid_handle(h),
        new.transformed(old, h, m),
        old.valid_handle(g),
        g != h,
    ensures
        new.shape(h).uniform.matrix() == m,
        new.shape(h).uniform.view() == m.view() + old.shape(h).uniform.view().subrange(
            16,
            old.shape(h).uniform.view().len() as int,
        ),
        new.shape(g) == old.shape(g),
{
    let u = old.shape(h).uniform;
    assert(u.matrix().view().len() == 16);
    assert(m.view().len() == 16);
    match u {
        Uniform::Transform { mat, hcam } => {
            assert(u.view().subrange(16, u.view().len() as int) =~= seq![hcam]);
            assert(new.shape(h).uniform.view() =~= m.view() + seq![hcam]);
        },
        Uniform::TransformAndFade { mat, fade, hcam } => {
            assert(u.view().subrange(16, u.view().len() as int) =~= seq![fade, hcam]);
            assert(new.shape(h).uniform.view() =~= m.view() + seq![fade, hcam]);
        },
        Uniform::TransformAndColor { mat, color, hcam } => {
            assert(u.view().subrange(16, u.view().len() as int) =~= color@ + seq![hcam]);
            assert(new.shape(h).uniform.view() =~= m.view() + (color@ + seq![hcam]));
        },
    }
}

} // verus!
