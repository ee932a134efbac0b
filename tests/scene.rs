use adi_gpu_vulkan::handle::{partition_of, Partition, ShapeHandle};
use adi_gpu_vulkan::order::depth_sort;
use adi_gpu_vulkan::pool::{vertex_count, VertexBuffer};
use adi_gpu_vulkan::renderer::Renderer;
use adi_gpu_vulkan::style::{style_config, style_registry, style_slot, ShaderPair, ShapeKind, STYLE_COUNT};
use adi_gpu_vulkan::swapchain::Vw;
use adi_gpu_vulkan::texture::{MappableUsage, SampledImage, Texture};
use adi_gpu_vulkan::uniform::{fog_words, hcam, Matrix, Uniform, ONE_BITS};

const RED: [u32; 4] = [ONE_BITS, 0, 0, ONE_BITS];

fn swapchain(base: u64, width: u32, height: u32) -> Vw {
    Vw::new(
        width,
        height,
        vec![base + 1, base + 2],
        vec![base + 11, base + 12],
        vec![base + 21, base + 22],
        base + 30,
    )
}

fn renderer() -> Renderer {
    Renderer::new(swapchain(100, 640, 360), [0, 0, 0])
}

fn scaled(s: u32) -> Matrix {
    let mut m = Matrix::identity();
    m.words[0] = s;
    m
}

fn order(frame: &adi_gpu_vulkan::renderer::Frame) -> Vec<ShapeHandle> {
    frame.draws.iter().map(|d| d.shape).collect()
}

#[test]
fn one_solid_triangle_frame() {
    let mut r = renderer();
    let model = r.model(12, vec![(0, 3)]);
    assert_eq!(model, 0);
    let h = r.solid(model, Matrix::identity(), RED, false, false, true);
    assert_eq!(h, ShapeHandle::Opaque(0));
    let frame = r.update(0, &vec![5], &vec![]);
    assert_eq!(frame.draws.len(), 1);
    assert_eq!(frame.draws[0].shape, ShapeHandle::Opaque(0));
    assert_eq!(frame.draws[0].fans, vec![(0, 3)]);
    assert_eq!(frame.draws[0].buffers, vec![VertexBuffer::Model(0)]);
    assert_eq!(frame.image, 101);
    assert_eq!(frame.frame_buffer, 121);
    assert_eq!(frame.render_pass, 130);
    assert_eq!((frame.width, frame.height), (640, 360));
}

#[test]
fn overlay_shapes_without_camera_or_fog() {
    let mut r = renderer();
    let m = r.model(12, vec![(0, 3)]);
    assert_eq!(r.solid(m, Matrix::identity(), RED, false, false, false), ShapeHandle::Gui(0));
    assert_eq!(r.solid(m, Matrix::identity(), RED, true, false, false), ShapeHandle::Gui(1));
    assert_eq!(r.solid(m, Matrix::identity(), RED, true, true, false), ShapeHandle::Alpha(0));
    assert_eq!(r.solid(m, Matrix::identity(), RED, false, false, true), ShapeHandle::Opaque(0));
    let frame = r.update(1, &vec![7], &vec![3]);
    assert_eq!(
        order(&frame),
        vec![ShapeHandle::Opaque(0), ShapeHandle::Alpha(0), ShapeHandle::Gui(0), ShapeHandle::Gui(1)]
    );
    assert_eq!(frame.image, 102);
}

#[test]
fn partition_rule() {
    assert_eq!(partition_of(true, false, false), Partition::Gui);
    assert_eq!(partition_of(false, false, false), Partition::Gui);
    assert_eq!(partition_of(true, true, false), Partition::Alpha);
    assert_eq!(partition_of(true, false, true), Partition::Alpha);
    assert_eq!(partition_of(false, true, true), Partition::Opaque);
}

#[test]
fn opaque_front_to_back() {
    let mut r = renderer();
    let m = r.model(12, vec![(0, 3)]);
    for _ in 0..3 {
        r.solid(m, Matrix::identity(), RED, false, true, true);
    }
    let frame = r.update(0, &vec![30, 10, 20], &vec![]);
    assert_eq!(
        order(&frame),
        vec![ShapeHandle::Opaque(1), ShapeHandle::Opaque(2), ShapeHandle::Opaque(0)]
    );
}

#[test]
fn alpha_back_to_front() {
    let mut r = renderer();
    let m = r.model(12, vec![(0, 3)]);
    for _ in 0..3 {
        r.solid(m, Matrix::identity(), RED, true, true, true);
    }
    let frame = r.update(0, &vec![], &vec![30, 10, 20]);
    assert_eq!(
        order(&frame),
        vec![ShapeHandle::Alpha(0), ShapeHandle::Alpha(2), ShapeHandle::Alpha(1)]
    );
}

#[test]
fn depth_sort_keeps_ties_in_order() {
    let mut ind = vec![2, 0, 1, 3];
    depth_sort(&mut ind, &vec![5, 1, 5, 0], true);
    assert_eq!(ind, vec![3, 1, 2, 0]);
    let mut ind = vec![2, 0, 1, 3];
    depth_sort(&mut ind, &vec![5, 1, 5, 0], false);
    assert_eq!(ind, vec![2, 0, 1, 3]);
    let mut empty: Vec<u32> = vec![];
    depth_sort(&mut empty, &vec![], true);
    assert!(empty.is_empty());
}

#[test]
fn transform_touches_one_shape() {
    let mut r = renderer();
    let m = r.model(12, vec![(0, 3)]);
    let a = r.solid(m, Matrix::identity(), RED, false, true, true);
    let b = r.solid(m, Matrix::identity(), RED, false, true, true);
    let before_b = r.opaque_vec[1].uniform.to_words();
    let words = r.transform(&a, scaled(0x4000_0000));
    assert_eq!(words, scaled(0x4000_0000).words.to_vec());
    let after_a = r.opaque_vec[0].uniform.to_words();
    assert_eq!(after_a[0], 0x4000_0000);
    assert_eq!(&after_a[1..16], &Matrix::identity().words[1..16]);
    assert_eq!(&after_a[16..], &[ONE_BITS, 0, 0, ONE_BITS, 2]);
    assert_eq!(r.opaque_vec[1].uniform.to_words(), before_b);
    assert_eq!(b, ShapeHandle::Opaque(1));
    let frame = r.update(0, &vec![1, 2], &vec![]);
    assert_eq!(frame.draws.len(), 2);
    assert_eq!(r.opaque_vec[0].uniform.to_words()[0], 0x4000_0000);
}

#[test]
fn transform_gui_and_alpha_shapes() {
    let mut r = renderer();
    let m = r.model(8, vec![(0, 2)]);
    let g = r.solid(m, Matrix::identity(), RED, false, false, false);
    let a = r.solid(m, Matrix::identity(), RED, true, true, false);
    r.transform(&g, scaled(7));
    r.transform(&a, scaled(9));
    assert_eq!(r.gui_vec[0].uniform.to_words()[0], 7);
    assert_eq!(r.alpha_vec[0].uniform.to_words()[0], 9);
}

#[test]
fn uniform_layouts() {
    let mut r = renderer();
    let m = r.model(12, vec![(0, 3)]);
    let tc = r.texcoords(12);
    let gr = r.colors(12);
    let (t, _) = r.texture(1, 1, 4, false, &vec![0xffff_ffff]);
    let s = r.solid(m, Matrix::identity(), RED, false, true, true);
    let x = r.textured(m, Matrix::identity(), t, tc, false, true, false);
    let f = r.faded(m, Matrix::identity(), t, tc, 0x3f00_0000, false, true);
    let gd = r.gradient(m, Matrix::identity(), gr, true, false, false);
    let ti = r.tinted(m, Matrix::identity(), t, tc, RED, true, true, true);
    let c = r.complex(m, Matrix::identity(), t, tc, gr, false, true, true);
    assert_eq!(s, ShapeHandle::Opaque(0));
    assert_eq!(x, ShapeHandle::Opaque(1));
    assert_eq!(f, ShapeHandle::Alpha(0));
    assert_eq!(gd, ShapeHandle::Gui(0));
    assert_eq!(ti, ShapeHandle::Alpha(1));
    assert_eq!(c, ShapeHandle::Opaque(2));

    let solid = r.opaque_vec[0].uniform.to_words();
    assert_eq!(solid.len(), 21);
    assert_eq!(solid[20], 2);
    let textured = r.opaque_vec[1].uniform.to_words();
    assert_eq!(textured.len(), 17);
    assert_eq!(textured[16], 1);
    let faded = r.alpha_vec[0].uniform.to_words();
    assert_eq!(faded.len(), 18);
    assert_eq!(&faded[16..], &[0x3f00_0000, 1]);
    assert_eq!(r.gui_vec[0].uniform.to_words()[16], 0);

    assert_eq!(r.opaque_vec[0].style, style_slot(ShapeKind::Solid, false));
    assert_eq!(r.alpha_vec[0].style, 6);
    assert_eq!(r.gui_vec[0].style, style_slot(ShapeKind::Gradient, true));
    assert_eq!(
        r.opaque_vec[2].buffers,
        vec![VertexBuffer::Model(0), VertexBuffer::TexCoords(0), VertexBuffer::Gradient(0)]
    );
    assert_eq!(r.opaque_vec[2].texture, Some(0));
    assert_eq!(r.opaque_vec[0].texture, None);
    assert_eq!(r.gui_vec[0].buffers, vec![VertexBuffer::Model(0), VertexBuffer::Gradient(0)]);
    match r.alpha_vec[1].uniform {
        Uniform::TransformAndColor { color, hcam, .. } => {
            assert_eq!(color, RED);
            assert_eq!(hcam, 2);
        }
        _ => panic!("tinted shapes carry a color"),
    }
}

#[test]
fn attribute_counts_must_match_the_model() {
    let mut r = renderer();
    let m = r.model(12, vec![(0, 3)]);
    let good_tc = r.texcoords(12);
    let bad_tc = r.texcoords(8);
    let good_gr = r.colors(15);
    let bad_gr = r.colors(16);
    assert!(r.texcoords_match(m, good_tc));
    assert!(!r.texcoords_match(m, bad_tc));
    assert!(r.colors_match(m, good_gr));
    assert!(!r.colors_match(m, bad_gr));
}

#[test]
fn flag_word() {
    assert_eq!(hcam(false, false), 0);
    assert_eq!(hcam(true, false), 1);
    assert_eq!(hcam(false, true), 1);
    assert_eq!(hcam(true, true), 2);
}

#[test]
fn faded_is_always_translucent() {
    let mut r = renderer();
    let m = r.model(12, vec![(0, 3)]);
    let tc = r.texcoords(12);
    let (t, _) = r.texture(1, 1, 4, true, &vec![1]);
    assert_eq!(r.faded(m, Matrix::identity(), t, tc, 0, true, true), ShapeHandle::Alpha(0));
    assert_eq!(r.faded(m, Matrix::identity(), t, tc, 0, false, false), ShapeHandle::Gui(0));
}

#[test]
fn vertex_counts_are_quarter_lengths() {
    assert_eq!(vertex_count(12), 3);
    assert_eq!(vertex_count(13), 3);
    assert_eq!(vertex_count(0), 0);
    let mut r = renderer();
    let m = r.model(14, vec![(0, 3), (1, 2)]);
    assert_eq!(r.models[m].vertex_count, 3);
    assert_eq!(r.models[m].fans, vec![(0, 3), (1, 2)]);
    let tc = r.texcoords(8);
    assert_eq!(r.texcoords[tc].vertex_count, 2);
    let g = r.colors(16);
    assert_eq!(r.gradients[g].vertex_count, 4);
}

#[test]
fn fans_become_draws() {
    let mut r = renderer();
    let m = r.model(24, vec![(0, 3), (3, 3)]);
    r.solid(m, Matrix::identity(), RED, false, true, true);
    let frame = r.update(0, &vec![0], &vec![]);
    assert_eq!(frame.draws[0].fans, vec![(0, 3), (3, 3)]);
}

#[test]
fn texture_rows_at_pitch() {
    let mut r = renderer();
    let (id, up) = r.texture(2, 2, 16, false, &vec![1, 2, 3, 4]);
    assert_eq!(id, 0);
    assert_eq!(up.words, vec![1, 2, 0, 0, 3, 4, 0, 0]);
    assert!(!up.copy_to_optimal);
    assert_eq!(r.textures[0].sampled(), SampledImage::Mappable);
    let (id, up) = r.texture(3, 1, 12, true, &vec![7, 8, 9]);
    assert_eq!(id, 1);
    assert_eq!(up.words, vec![7, 8, 9]);
    assert!(up.copy_to_optimal);
    assert_eq!(r.textures[1].sampled(), SampledImage::Optimal);
}

#[test]
fn texture_update_with_same_pixels() {
    let mut r = renderer();
    let rgba = vec![0x1122_3344, 0x5566_7788, 0x99aa_bbcc, 0xddee_ff00, 5, 6];
    let (id, first) = r.texture(3, 2, 16, true, &rgba);
    let again = r.set_texture(id, &rgba);
    assert_eq!(first.words, again.words);
    assert_eq!(first.copy_to_optimal, again.copy_to_optimal);
    assert_eq!(again.words, vec![0x1122_3344, 0x5566_7788, 0x99aa_bbcc, 0, 0xddee_ff00, 5, 6, 0]);
    let other = r.set_texture(id, &vec![0, 0, 0, 0, 0, 1]);
    assert_eq!(other.words, vec![0, 0, 0, 0, 0, 0, 1, 0]);
}

#[test]
fn texture_layout_direct() {
    let t = Texture::new(1, 3, 8, false);
    assert_eq!(t.layout(&vec![4, 5, 6]), vec![4, 0, 5, 0, 6, 0]);
    let empty = Texture::new(0, 0, 0, false);
    assert!(empty.layout(&vec![]).is_empty());
}

#[test]
fn resize_targets_new_swapchain() {
    let mut r = renderer();
    let m = r.model(12, vec![(0, 3)]);
    r.solid(m, Matrix::identity(), RED, false, true, true);
    r.set_camera([1, 2, 3], [4, 5, 6]);
    let plan = r.resize(swapchain(500, 800, 600));
    assert!(plan.rebuild_styles);
    let pose = plan.camera;
    assert_eq!((pose.width, pose.height), (800, 600));
    assert_eq!(pose.xyz, [1, 2, 3]);
    assert_eq!(pose.rotate_xyz, [4, 5, 6]);
    for i in 0..2u32 {
        let frame = r.update(i, &vec![0], &vec![]);
        assert_eq!(frame.image, 501 + i as u64);
        assert_eq!(frame.frame_buffer, 521 + i as u64);
        assert_eq!(frame.render_pass, 530);
        assert_eq!((frame.width, frame.height), (800, 600));
        assert!(frame.image != 101 && frame.image != 102);
        assert!(frame.frame_buffer != 121 && frame.frame_buffer != 122);
    }
}

#[test]
fn resize_keeping_render_pass() {
    let mut r = renderer();
    let plan = r.resize(swapchain(100, 320, 200));
    assert!(!plan.rebuild_styles);
    assert_eq!((plan.camera.width, plan.camera.height), (320, 200));
    assert_eq!(r.vw.width, 320);
}

#[test]
fn camera_pose_and_fog() {
    let mut r = Renderer::new(swapchain(0, 640, 360), [10, 20, 30]);
    let pose = r.camera();
    assert_eq!(pose.xyz, [0, 0, 0]);
    assert_eq!((pose.width, pose.height), (640, 360));
    r.set_camera([1, 1, 1], [0, 2, 0]);
    assert_eq!(r.camera().xyz, [1, 1, 1]);
    assert_eq!(r.camera().rotate_xyz, [0, 2, 0]);
    assert_eq!(r.fog((5, 9)), vec![10, 20, 30, ONE_BITS, 5, 9]);
    r.bg_color([1, 2, 3]);
    assert_eq!(r.fog((5, 9)), vec![1, 2, 3, ONE_BITS, 5, 9]);
    let frame = r.update(0, &vec![], &vec![]);
    assert_eq!(frame.clear_color, [1, 2, 3]);
    assert!(frame.draws.is_empty());
    assert_eq!(fog_words([0, 0, 0], 1, 2), vec![0, 0, 0, 0x3f80_0000, 1, 2]);
}

#[test]
fn style_catalogue() {
    let styles = style_registry();
    assert_eq!(styles.len(), STYLE_COUNT);
    assert_eq!(styles.len(), 11);
    assert_eq!(styles[style_slot(ShapeKind::Faded, false)], style_config(ShapeKind::Faded, true));
    assert!(styles[6].alpha);
    let complex = style_config(ShapeKind::Complex, false);
    assert_eq!(complex.vertex_buffers, 3);
    assert_eq!(complex.textures, 1);
    assert!(!complex.alpha);
    assert_eq!(complex.shaders, ShaderPair::Gradient);
    assert_eq!(styles[10], complex);
    assert_eq!(style_config(ShapeKind::Solid, true).vertex_buffers, 1);
    assert_eq!(style_config(ShapeKind::Solid, true).textures, 0);
    assert_eq!(style_config(ShapeKind::Textured, true).shaders, ShaderPair::Texture);
    for (i, s) in styles.iter().enumerate() {
        let blends = if i < 6 { i % 2 == 0 } else if i == 6 { true } else { i % 2 == 1 };
        assert_eq!(s.alpha, blends, "slot {}", i);
    }
}

#[test]
fn identity_matrix_words() {
    let m = Matrix::identity();
    for i in 0..16 {
        assert_eq!(m.words[i], if i % 5 == 0 { ONE_BITS } else { 0 });
    }
    assert_eq!(m.to_words().len(), 16);
}

#[test]
fn mappable_image_usage() {
    assert_eq!(Texture::mappable_usage(true), MappableUsage::TransferSource);
    assert_eq!(Texture::mappable_usage(false), MappableUsage::Sampled);
}
