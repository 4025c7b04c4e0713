use arbitra::scalar::Scalar;
use arbitra::transform::Factor;
use arbitra::transform::Transform;

fn s(v: f32) -> Scalar {
    Scalar::from_bits(v.to_bits())
}

fn v3(a: [Scalar; 3]) -> [f32; 3] {
    [f32::from_bits(a[0].bits), f32::from_bits(a[1].bits), f32::from_bits(a[2].bits)]
}

#[test]
fn transform_new_changes_nothing() {
    let t = Transform::new();
    assert_eq!(v3(t.position), [0.0, 0.0, 0.0]);
    assert_eq!(v3(t.rotation), [0.0, 0.0, 0.0]);
    assert_eq!(v3(t.scale), [1.0, 1.0, 1.0]);
    assert_eq!(Transform::default(), t);
}

#[test]
fn transform_builders_set_one_field_each() {
    let t = Transform::new().with_position(s(1.0), s(2.0), s(3.0));
    assert_eq!(v3(t.position), [1.0, 2.0, 3.0]);
    assert_eq!(v3(t.rotation), [0.0, 0.0, 0.0]);
    assert_eq!(v3(t.scale), [1.0, 1.0, 1.0]);
    let t = t.with_rotation(s(90.0), s(45.0), s(-30.0));
    assert_eq!(v3(t.position), [1.0, 2.0, 3.0]);
    assert_eq!(v3(t.rotation), [90.0, 45.0, -30.0]);
    assert_eq!(v3(t.scale), [1.0, 1.0, 1.0]);
    let t = t.with_scale(s(2.0), s(0.5), s(4.0));
    assert_eq!(v3(t.position), [1.0, 2.0, 3.0]);
    assert_eq!(v3(t.rotation), [90.0, 45.0, -30.0]);
    assert_eq!(v3(t.scale), [2.0, 0.5, 4.0]);
}

#[test]
fn transform_factors_are_translation_rotations_z_y_x_and_scale() {
    let t = Transform::new()
        .with_position(s(1.0), s(2.0), s(3.0))
        .with_rotation(s(10.0), s(20.0), s(30.0))
        .with_scale(s(4.0), s(5.0), s(6.0));
    assert_eq!(
        t.factors(),
        vec![
            Factor::Translation([s(1.0), s(2.0), s(3.0)]),
            Factor::RotationZ(s(30.0)),
            Factor::RotationY(s(20.0)),
            Factor::RotationX(s(10.0)),
            Factor::Scale([s(4.0), s(5.0), s(6.0)]),
        ]
    );
}

fn matrix_of(factor: &Factor) -> cgmath::Matrix4<f32> {
    let f = |v: Scalar| f32::from_bits(v.bits);
    match *factor {
        Factor::Translation(v) => cgmath::Matrix4::from_translation(cgmath::Vector3::new(f(v[0]), f(v[1]), f(v[2]))),
        Factor::RotationZ(a) => cgmath::Matrix4::from_angle_z(cgmath::Deg(f(a))),
        Factor::RotationY(a) => cgmath::Matrix4::from_angle_y(cgmath::Deg(f(a))),
        Factor::RotationX(a) => cgmath::Matrix4::from_angle_x(cgmath::Deg(f(a))),
        Factor::Scale(v) => cgmath::Matrix4::from_nonuniform_scale(f(v[0]), f(v[1]), f(v[2])),
    }
}

fn product(t: &Transform) -> [[f32; 4]; 4] {
    let mut m = cgmath::Matrix4::from_scale(1.0f32);
    for factor in t.factors().iter() {
        m = m * matrix_of(factor);
    }
    m.into()
}

fn close(got: [[f32; 4]; 4], want: [[f32; 4]; 4]) {
    for c in 0..4 {
        for r in 0..4 {
            assert!((got[c][r] - want[c][r]).abs() < 1e-5, "column {c} row {r}: {} against {}", got[c][r], want[c][r]);
        }
    }
}

#[test]
fn model_matrix_is_translation_times_rotations_times_scale() {
    let t = Transform::new()
        .with_position(s(1.0), s(2.0), s(3.0))
        .with_rotation(s(90.0), s(90.0), s(0.0))
        .with_scale(s(2.0), s(3.0), s(4.0));
    close(
        product(&t),
        [[0.0, 0.0, -2.0, 0.0], [3.0, 0.0, 0.0, 0.0], [0.0, -4.0, 0.0, 0.0], [1.0, 2.0, 3.0, 1.0]],
    );

    let t = Transform::new()
        .with_position(s(-5.0), s(0.5), s(7.0))
        .with_rotation(s(0.0), s(0.0), s(90.0))
        .with_scale(s(2.0), s(3.0), s(4.0));
    close(
        product(&t),
        [[0.0, 2.0, 0.0, 0.0], [-3.0, 0.0, 0.0, 0.0], [0.0, 0.0, 4.0, 0.0], [-5.0, 0.5, 7.0, 1.0]],
    );

    let t = Transform::new().with_rotation(s(90.0), s(0.0), s(90.0));
    close(
        product(&t),
        [[0.0, 1.0, 0.0, 0.0], [0.0, 0.0, 1.0, 0.0], [1.0, 0.0, 0.0, 0.0], [0.0, 0.0, 0.0, 1.0]],
    );
}

#[test]
fn model_matrix_of_the_identity_transform_is_the_identity() {
    close(
        product(&Transform::new()),
        [[1.0, 0.0, 0.0, 0.0], [0.0, 1.0, 0.0, 0.0], [0.0, 0.0, 1.0, 0.0], [0.0, 0.0, 0.0, 1.0]],
    );
}
