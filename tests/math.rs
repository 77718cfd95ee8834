use softgl::math::{Mat4, Vec2, Vec3, Vec4};

fn entry(m: &Mat4<f32>, i: usize, j: usize) -> f32 {
    m.row(i).get(j)
}

fn assert_near_identity(m: &Mat4<f32>, tol: f32) {
    for i in 0..4 {
        for j in 0..4 {
            let want = if i == j { 1.0 } else { 0.0 };
            let got = entry(m, i, j);
            assert!((got - want).abs() <= tol, "entry ({i}, {j}) is {got}");
        }
    }
}

#[test]
fn perp_turns_a_quarter_counter_clockwise() {
    let p = Vec2::new(3.0f32, 4.0).perp();
    assert_eq!((p.x, p.y), (-4.0, 3.0));
    let q = Vec2::new(5i32, -7).perp();
    assert_eq!((q.x, q.y), (7, 5));
}

#[test]
fn vec2_dot_and_sub() {
    let a = Vec2::new(1i64, 2);
    let b = Vec2::new(10i64, 20);
    assert_eq!(a.dot(b), 50);
    let d = b.sub(a);
    assert_eq!((d.x, d.y), (9, 18));
}

#[test]
fn cross_of_the_axes_and_of_integers() {
    let z = Vec3::new(1.0f32, 0.0, 0.0).cross(Vec3::new(0.0, 1.0, 0.0));
    assert_eq!((z.x, z.y, z.z), (0.0, 0.0, 1.0));
    let c = Vec3::new(2i32, 3, 4).cross(Vec3::new(5, 6, 7));
    assert_eq!((c.x, c.y, c.z), (-3, 6, -3));
}

#[test]
fn xy_and_xyz_take_leading_components() {
    let v = Vec4::new(1.5f32, 2.5, 3.5, 4.5);
    let a = v.xy();
    let b = v.xyz();
    assert_eq!((a.x, a.y), (1.5, 2.5));
    assert_eq!((b.x, b.y, b.z), (1.5, 2.5, 3.5));
}

#[test]
fn vec4_add_scale_dot() {
    let a = Vec4::new(1i32, 2, 3, 4);
    let b = Vec4::new(5i32, 6, 7, 8);
    let s = a.add(b);
    assert_eq!((s.x, s.y, s.z, s.w), (6, 8, 10, 12));
    let k = a.scale(3);
    assert_eq!((k.x, k.y, k.z, k.w), (3, 6, 9, 12));
    assert_eq!(a.dot(b), 70);
    assert_eq!(a.get(2), 3);
}

#[test]
fn identity_rows_and_columns() {
    let id = Mat4::<f32>::identity();
    for i in 0..4 {
        let r = id.row(i);
        let c = id.col(i);
        for j in 0..4 {
            let want = if i == j { 1.0 } else { 0.0 };
            assert_eq!(r.get(j), want);
            assert_eq!(c.get(j), want);
        }
    }
}

#[test]
fn row_and_col_read_a_matrix() {
    let m = Mat4::new([1i32, 2, 3, 4], [5, 6, 7, 8], [9, 10, 11, 12], [13, 14, 15, 16]);
    let r = m.row(1);
    assert_eq!((r.x, r.y, r.z, r.w), (5, 6, 7, 8));
    let c = m.col(2);
    assert_eq!((c.x, c.y, c.z, c.w), (3, 7, 11, 15));
}

#[test]
fn matrix_product_on_integers() {
    let a = Mat4::new([1i64, 2, 0, 0], [0, 1, 0, 0], [0, 0, 1, 0], [0, 0, 0, 1]);
    let b = Mat4::new([1i64, 0, 0, 3], [0, 1, 0, 4], [0, 0, 1, 5], [0, 0, 0, 1]);
    let p = a.mul(&b);
    let r0 = p.row(0);
    assert_eq!((r0.x, r0.y, r0.z, r0.w), (1, 2, 0, 11));
    let r1 = p.row(1);
    assert_eq!((r1.x, r1.y, r1.z, r1.w), (0, 1, 0, 4));
    let mut q = a;
    q.mul_assign(&b);
    assert_eq!(q.row(0).w, 11);
}

#[test]
fn transform_applies_rows() {
    let t = Mat4::<i32>::translation(1, 2, 3);
    let p = t.transform(Vec4::new(5, 6, 7, 1));
    assert_eq!((p.x, p.y, p.z, p.w), (6, 8, 10, 1));
    let s = Mat4::<i32>::scaling(2, 3, 4);
    let q = s.transform(Vec4::new(1, 1, 1, 1));
    assert_eq!((q.x, q.y, q.z, q.w), (2, 3, 4, 1));
}

#[test]
fn ortho_entries() {
    let m = Mat4::<f32>::ortho(0.0, 4.0, 0.0, 2.0, -1.0, 1.0);
    assert_eq!(entry(&m, 0, 0), 0.5);
    assert_eq!(entry(&m, 0, 3), -1.0);
    assert_eq!(entry(&m, 1, 1), 1.0);
    assert_eq!(entry(&m, 1, 3), -1.0);
    assert_eq!(entry(&m, 2, 2), -1.0);
    assert_eq!(entry(&m, 2, 3), 0.0);
    assert_eq!(entry(&m, 3, 3), 1.0);
}

#[test]
fn frustum_entries() {
    let m = Mat4::<f32>::frustum(-1.0, 1.0, -1.0, 1.0, 1.0, 100.0);
    assert_eq!(entry(&m, 0, 0), 1.0);
    assert_eq!(entry(&m, 1, 1), 1.0);
    assert_eq!(entry(&m, 0, 2), 0.0);
    assert!((entry(&m, 2, 2) + 101.0 / 99.0).abs() < 1e-6);
    assert!((entry(&m, 2, 3) + 200.0 / 99.0).abs() < 1e-5);
    assert_eq!(entry(&m, 3, 2), -1.0);
    assert_eq!(entry(&m, 3, 3), 0.0);
}

#[test]
fn ortho_then_its_inverse_restores_the_vertex() {
    let (l, r, b, t, n, f) = (-3.0f32, 5.0, -2.0, 6.0, 0.5, 20.0);
    let ortho = Mat4::ortho(l, r, b, t, n, f);
    let inverse = Mat4::translation((r + l) / 2.0, (t + b) / 2.0, -(f + n) / 2.0)
        .mul(&Mat4::scaling((r - l) / 2.0, (t - b) / 2.0, -(f - n) / 2.0));
    for v in [
        Vec4::new(1.0f32, 2.0, -3.0, 1.0),
        Vec4::new(-2.5, 0.25, -10.0, 1.0),
        Vec4::new(0.0, 0.0, 0.0, 1.0),
    ] {
        let back = inverse.transform(ortho.transform(v));
        assert!((back.x - v.x).abs() < 1e-5);
        assert!((back.y - v.y).abs() < 1e-5);
        assert!((back.z - v.z).abs() < 1e-5);
        assert!((back.w - v.w).abs() < 1e-5);
    }
}

#[test]
fn rotation_then_its_reverse_is_identity() {
    for (angle, axis) in [
        (30.0f32, (0.0f32, 0.0f32, 1.0f32)),
        (73.0, (1.0, 2.0, 3.0)),
        (-140.0, (0.3, -0.5, 0.8)),
    ] {
        let norm = (axis.0 * axis.0 + axis.1 * axis.1 + axis.2 * axis.2).sqrt();
        let (x, y, z) = (axis.0 / norm, axis.1 / norm, axis.2 / norm);
        let (c, s) = (angle.to_radians().cos(), angle.to_radians().sin());
        let (c2, s2) = ((-angle).to_radians().cos(), (-angle).to_radians().sin());
        let m = Mat4::rotation(x, y, z, c, s).mul(&Mat4::rotation(x, y, z, c2, s2));
        assert_near_identity(&m, 1e-5);
    }
}

#[test]
fn rotation_about_z_by_a_quarter_turn() {
    let m = Mat4::<i32>::rotation(0, 0, 1, 0, 1);
    let p = m.transform(Vec4::new(1, 0, 0, 1));
    assert_eq!((p.x, p.y, p.z, p.w), (0, 1, 0, 1));
}
