use softgl::assemble::triangulate;
use softgl::context::{Context, Viewport};
use softgl::math::{Mat4, Vec4};
use softgl::modes::{MatrixMode, PrimitiveMode};
use softgl::stack::MatrixStack;
use softgl::surface::{BITMAPINFOHEADER, RECT};
use softgl::texture::{
    internal_format_of, shade_byte, Texture, TextureTable, GL_LUMINANCE, GL_LUMINANCE_ALPHA,
    GL_RGB, GL_RGBA, GL_TEXTURE_2D, GL_UNSIGNED_BYTE,
};

fn bits(m: &Mat4<f32>) -> Vec<u32> {
    let mut out = Vec::new();
    for i in 0..4 {
        for j in 0..4 {
            out.push(m.row(i).get(j).to_bits());
        }
    }
    out
}

fn is_identity(m: &Mat4<f32>) -> bool {
    bits(m) == bits(&Mat4::identity())
}

#[test]
fn a_new_context_starts_from_identity() {
    let ctx = Context::<f32>::new();
    assert_eq!(ctx.model_view.len(), 1);
    assert_eq!(ctx.projection.len(), 1);
    assert!(is_identity(&ctx.model_view.top()));
    assert!(is_identity(&ctx.projection.top()));
    assert_eq!(ctx.matrix_mode, MatrixMode::ModelView);
    assert_eq!(ctx.viewport, Viewport { x: 0, y: 0, width: 0, height: 0 });
    assert_eq!(ctx.primitive, PrimitiveMode::Points);
    let tc = ctx.tex_coord;
    assert_eq!((tc.x, tc.y, tc.z, tc.w), (0.0, 0.0, 0.0, 1.0));
    assert_eq!(ctx.textures.bound, 0);
    assert!(ctx.textures.textures[0].is_empty());
    assert!(ctx.fb.is_none());
}

#[test]
fn load_identity_replaces_the_top() {
    let mut ctx = Context::<f32>::new();
    ctx.translate(1.0, 2.0, 3.0);
    assert!(!is_identity(&ctx.model_view.top()));
    ctx.load_identity();
    assert!(is_identity(&ctx.model_view.top()));
    assert_eq!(ctx.model_view.len(), 1);
}

#[test]
fn pops_never_empty_a_stack() {
    let mut ctx = Context::<f32>::new();
    ctx.pop_matrix();
    ctx.pop_matrix();
    assert_eq!(ctx.model_view.len(), 1);
    ctx.load_identity();
    assert!(is_identity(&ctx.model_view.top()));
    let mut s = MatrixStack::new(7u8);
    s.pop();
    assert_eq!((s.len(), s.top()), (1, 7));
}

#[test]
fn push_then_pop_keeps_the_top_bitwise() {
    let mut ctx = Context::<f32>::new();
    ctx.rotate(0.6, 0.0, 0.8, 0.3f32, (1.0f32 - 0.09).sqrt());
    ctx.translate(0.1, -7.25, 3.0);
    let before = bits(&ctx.model_view.top());
    ctx.push_matrix();
    ctx.pop_matrix();
    assert_eq!(bits(&ctx.model_view.top()), before);
    assert_eq!(ctx.model_view.len(), 1);
}

#[test]
fn matrix_stack_discipline() {
    let mut ctx = Context::<f32>::new();
    ctx.scale(2.0, 3.0, 4.0);
    let before = bits(&ctx.model_view.top());
    ctx.push_matrix();
    ctx.translate(5.0, 0.0, 0.0);
    ctx.push_matrix();
    ctx.translate(0.0, 5.0, 0.0);
    assert_eq!(ctx.model_view.len(), 3);
    ctx.pop_matrix();
    ctx.pop_matrix();
    assert_eq!(bits(&ctx.model_view.top()), before);
}

#[test]
fn matrix_mode_picks_the_stack() {
    let mut ctx = Context::<f32>::new();
    assert!(ctx.set_matrix_mode(0x1701));
    assert_eq!(ctx.matrix_mode, MatrixMode::Projection);
    ctx.translate(1.0, 0.0, 0.0);
    assert!(is_identity(&ctx.model_view.top()));
    assert!(!is_identity(&ctx.projection.top()));
    assert!(ctx.set_matrix_mode(0x1700));
    assert_eq!(ctx.matrix_mode, MatrixMode::ModelView);
    assert!(!ctx.set_matrix_mode(0x1702));
    assert_eq!(ctx.matrix_mode, MatrixMode::ModelView);
    assert_eq!(MatrixMode::Projection.index(), 1);
    assert_eq!(MatrixMode::from_gl(5), None);
}

#[test]
fn primitive_mode_tokens() {
    let all = [
        PrimitiveMode::Points,
        PrimitiveMode::Lines,
        PrimitiveMode::LineStrip,
        PrimitiveMode::LineLoop,
        PrimitiveMode::Triangles,
        PrimitiveMode::TriangleStrip,
        PrimitiveMode::TriangleFan,
        PrimitiveMode::Quads,
        PrimitiveMode::QuadStrip,
        PrimitiveMode::Polygon,
    ];
    for (token, mode) in all.iter().enumerate() {
        assert_eq!(PrimitiveMode::from_gl(token as u32), Some(*mode));
    }
    assert_eq!(PrimitiveMode::from_gl(10), None);
    assert!(PrimitiveMode::Quads.rasterized());
    assert!(!PrimitiveMode::LineLoop.rasterized());
}

#[test]
fn viewport_keeps_the_last_call() {
    let mut ctx = Context::<f32>::new();
    ctx.set_viewport(1, 2, 3, 4);
    ctx.set_viewport(-5, 6, 640, 480);
    assert_eq!(ctx.viewport, Viewport { x: -5, y: 6, width: 640, height: 480 });
    let v = ctx.viewport;
    assert_eq!((v.x as f32, v.width as f32), (-5.0, 640.0));
}

#[test]
fn vertices_capture_the_texture_coordinate() {
    let mut ctx = Context::<f32>::new();
    ctx.begin(PrimitiveMode::Triangles);
    ctx.vertex(1.0, 2.0, 0.0, 1.0);
    ctx.set_tex_coord(0.25, 0.75);
    ctx.vertex(3.0, 4.0, 5.0, 1.0);
    assert_eq!(ctx.vertices.len(), 2);
    assert_eq!(ctx.vertices[0].tex_coord.x, 0.0);
    assert_eq!(ctx.vertices[1].tex_coord.x, 0.25);
    assert_eq!(ctx.vertices[1].tex_coord.y, 0.75);
    assert_eq!(ctx.vertices[1].tex_coord.w, 1.0);
    ctx.begin(PrimitiveMode::Quads);
    assert_eq!(ctx.vertices.len(), 0);
    assert_eq!(ctx.primitive, PrimitiveMode::Quads);
    assert_eq!(ctx.tex_coord.y, 0.75);
}

#[test]
fn end_primitive_transforms_and_triangulates() {
    let mut ctx = Context::<i64>::new();
    ctx.translate(10, 20, 30);
    ctx.set_matrix_mode(0x1701);
    ctx.scale(2, 2, 2);
    ctx.begin(PrimitiveMode::TriangleFan);
    ctx.vertex(1, 1, 1, 1);
    ctx.vertex(2, 0, 0, 1);
    ctx.vertex(0, 3, 0, 1);
    ctx.vertex(0, 0, 4, 1);
    let (clip, tris) = ctx.end_primitive().unwrap();
    let p = clip[0].position;
    assert_eq!((p.x, p.y, p.z, p.w), (22, 42, 62, 1));
    assert_eq!(tris, vec![(0, 1, 2), (0, 2, 3)]);
    ctx.begin(PrimitiveMode::Lines);
    assert!(ctx.end_primitive().is_none());
}

#[test]
fn triangulation_per_mode() {
    assert_eq!(
        triangulate(PrimitiveMode::Triangles, 7),
        Some(vec![(0, 1, 2), (3, 4, 5)])
    );
    assert_eq!(
        triangulate(PrimitiveMode::Quads, 8),
        Some(vec![(0, 1, 2), (2, 3, 0), (4, 5, 6), (6, 7, 4)])
    );
    assert_eq!(
        triangulate(PrimitiveMode::TriangleStrip, 5),
        Some(vec![(0, 1, 2), (2, 1, 3), (2, 3, 4)])
    );
    assert_eq!(
        triangulate(PrimitiveMode::Polygon, 5),
        Some(vec![(0, 1, 2), (0, 2, 3), (0, 3, 4)])
    );
    assert_eq!(triangulate(PrimitiveMode::TriangleFan, 2), Some(vec![]));
    assert_eq!(triangulate(PrimitiveMode::Triangles, 0), Some(vec![]));
    assert_eq!(triangulate(PrimitiveMode::Points, 3), None);
    assert_eq!(triangulate(PrimitiveMode::QuadStrip, 4), None);
}

#[test]
fn binding_grows_the_table() {
    let mut t = TextureTable::new();
    t.bind(3);
    assert_eq!(t.bound, 3);
    assert_eq!(t.textures.len(), 4);
    assert!(t.textures[2].is_empty());
    t.bind(1);
    assert_eq!((t.bound, t.textures.len()), (1, 4));
}

#[test]
fn upload_of_zeros_is_all_zero() {
    let mut t = TextureTable::new();
    t.bind(1);
    let zeros = vec![0u8; 3 * 2 * 4];
    assert!(t.upload(GL_TEXTURE_2D, 0, 3, 2, GL_RGBA, GL_UNSIGNED_BYTE, Some(&zeros)));
    let tex = &t.textures[1];
    assert_eq!((tex.width, tex.height), (3, 2));
    assert!(tex.data.iter().all(|&b| b as f32 / 256.0 == 0.0));
}

#[test]
fn upload_of_full_bytes_is_255_over_256() {
    let mut t = TextureTable::new();
    let full = vec![255u8; 4];
    assert!(t.upload(GL_TEXTURE_2D, 0, 1, 1, GL_RGBA, GL_UNSIGNED_BYTE, Some(&full)));
    let tex = &t.textures[0];
    for c in tex.texel(0, 0) {
        let v = c as f32 / 256.0;
        assert_eq!(v, 0.99609375);
        assert!((v - 0.996).abs() < 1e-3);
    }
}

#[test]
fn uploads_of_other_kinds_are_ignored() {
    let mut t = TextureTable::new();
    let px = vec![9u8; 4];
    assert!(!t.upload(GL_TEXTURE_2D, 1, 1, 1, GL_RGBA, GL_UNSIGNED_BYTE, Some(&px)));
    assert!(!t.upload(GL_TEXTURE_2D, 0, 1, 1, GL_LUMINANCE, GL_UNSIGNED_BYTE, Some(&px)));
    assert!(!t.upload(0x0de0, 0, 1, 1, GL_RGBA, GL_UNSIGNED_BYTE, Some(&px)));
    assert!(!t.upload(GL_TEXTURE_2D, 0, 1, 1, GL_RGBA, 0x1406, Some(&px)));
    assert!(!t.upload(GL_TEXTURE_2D, 0, -1, 1, GL_RGBA, GL_UNSIGNED_BYTE, None));
    assert!(t.textures[0].is_empty());
}

#[test]
fn upload_without_data_keeps_what_fits() {
    let mut t = TextureTable::new();
    let px: Vec<u8> = (1..=8).collect();
    assert!(t.upload(GL_TEXTURE_2D, 0, 2, 1, GL_RGBA, GL_UNSIGNED_BYTE, Some(&px)));
    assert!(t.upload(GL_TEXTURE_2D, 0, 3, 1, GL_RGBA, GL_UNSIGNED_BYTE, None));
    let tex = &t.textures[0];
    assert_eq!(tex.data, vec![1, 2, 3, 4, 5, 6, 7, 8, 0, 0, 0, 0]);
}

#[test]
fn internal_format_shorthands() {
    assert_eq!(internal_format_of(1), GL_LUMINANCE);
    assert_eq!(internal_format_of(2), GL_LUMINANCE_ALPHA);
    assert_eq!(internal_format_of(3), GL_RGB);
    assert_eq!(internal_format_of(4), GL_RGBA);
    assert_eq!(internal_format_of(0x1908), GL_RGBA);
}

#[test]
fn shade_byte_scales_by_255_over_256() {
    assert_eq!(shade_byte(255), 254);
    assert_eq!(shade_byte(128), 127);
    assert_eq!(shade_byte(1), 0);
    assert_eq!(shade_byte(0), 0);
    for k in 0..=255u8 {
        assert_eq!(shade_byte(k), ((k as f32 / 256.0) * 255.0) as u8);
    }
}

#[test]
fn texels_wrap_around() {
    let tex = Texture { width: 2, height: 2, data: (0..16).collect() };
    assert_eq!(tex.texel(0, 0), [0, 1, 2, 3]);
    assert_eq!(tex.texel(1, 0), [4, 5, 6, 7]);
    assert_eq!(tex.texel(0, 1), [8, 9, 10, 11]);
    assert_eq!(tex.texel(3, 2), [4, 5, 6, 7]);
    assert_eq!(tex.shaded_texel(1, 1), [shade_byte(12), shade_byte(13), shade_byte(14)]);
}

#[test]
fn surface_header_and_client_size() {
    let r = RECT { left: 0, top: 0, right: 640, bottom: 480 };
    assert_eq!(r.client_size(), (640, 480));
    let h = BITMAPINFOHEADER::for_surface(640, 480);
    assert_eq!((h.size, h.width, h.height), (40, 640, 480));
    assert_eq!((h.planes, h.bit_count, h.compression), (1, 32, 0));
    let mut ctx = Context::<f32>::new();
    ctx.attach_surface(4, 3, 1.0);
    assert_eq!(ctx.bmi, BITMAPINFOHEADER::for_surface(4, 3));
    let fb = ctx.fb.as_ref().unwrap();
    assert_eq!((fb.width, fb.height, fb.color.len(), fb.depth.len()), (4, 3, 48, 12));
}

#[test]
fn frustum_gives_w_two_at_depth_two() {
    let mut ctx = Context::<f32>::new();
    ctx.set_matrix_mode(0x1701);
    ctx.load_identity();
    ctx.frustum(-1.0, 1.0, -1.0, 1.0, 1.0, 100.0);
    ctx.set_matrix_mode(0x1700);
    ctx.begin(PrimitiveMode::Triangles);
    ctx.vertex(-1.0, -1.0, -2.0, 1.0);
    ctx.vertex(1.0, -1.0, -2.0, 1.0);
    ctx.vertex(0.0, 1.0, -2.0, 1.0);
    let (clip, _) = ctx.end_primitive().unwrap();
    for v in &clip {
        assert_eq!(v.position.w, 2.0);
        let z = v.position.z / v.position.w;
        assert!(z > 0.0 && z < 1.0);
    }
}

#[test]
fn tex_coord_sets_s_t_zero_one() {
    let mut ctx = Context::<f32>::new();
    ctx.set_tex_coord(0.5, 2.0);
    let tc = ctx.tex_coord;
    assert_eq!((tc.x, tc.y, tc.z, tc.w), (0.5, 2.0, 0.0, 1.0));
    let v = Vec4::new(0.5f32, 2.0, 0.0, 1.0);
    assert_eq!(tc.dot(v), v.dot(v));
}
