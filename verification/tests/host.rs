//! The rig together with Bevy's own rotations, as a host puts them together.

use bevy::prelude::{Quat, Transform};
use spooky_camera::fixed::ONE;
use spooky_camera::placement::desired_position;
use spooky_camera::{
    position_and_rotate_camera, update_camera_focus, Axis, Basis, CameraFocus, CameraMode,
    CameraTransform, ForwardJitter, PrimaryCamera, Rotation, Vec3,
};

const DEGREE: i64 = 1_000_000;

fn to_fixed(value: f32) -> i64 {
    (f64::from(value) * ONE as f64).round() as i64
}

fn to_float(value: i64) -> f32 {
    (value as f64 / ONE as f64) as f32
}

fn to_fixed_vec(value: bevy::prelude::Vec3) -> Vec3 {
    Vec3::new(to_fixed(value.x), to_fixed(value.y), to_fixed(value.z))
}

fn to_float_vec(value: Vec3) -> bevy::prelude::Vec3 {
    bevy::prelude::Vec3::new(to_float(value.x), to_float(value.y), to_float(value.z))
}

fn turn(transform: &mut Transform, rotation: Rotation) {
    let angle = to_float(rotation.degrees).to_radians();
    match rotation.axis {
        Axis::X => transform.rotate_x(angle),
        Axis::Y => transform.rotate_y(angle),
    }
}

fn turned(plan: (Rotation, Rotation)) -> Transform {
    let mut transform = Transform::default();
    turn(&mut transform, plan.0);
    turn(&mut transform, plan.1);
    transform
}

fn basis_of(camera: &PrimaryCamera) -> Basis {
    let transform = turned(camera.basis_rotations());
    Basis {
        forward: to_fixed_vec(transform.forward().normalize()),
        right: to_fixed_vec(transform.right().normalize()),
    }
}

fn jittered_forward(jitter: ForwardJitter) -> bevy::prelude::Vec3 {
    let radius = (jitter.offset.radius as f64 / ONE as f64) as f32;
    let theta = (jitter.offset.theta as f64 / ONE as f64) as f32;
    let rot_x = (radius * theta.cos()).to_radians();
    let rot_y = (radius * theta.sin()).to_radians();
    let rotation = Quat::from_axis_angle(bevy::prelude::Vec3::new(0.0, 1.0, 0.0), rot_y)
        .mul_quat(Quat::from_axis_angle(bevy::prelude::Vec3::new(1.0, 0.0, 0.0), rot_x));
    rotation.mul_vec3(to_float_vec(jitter.forward))
}

fn looking_ahead() -> CameraFocus {
    let transform = Transform::default();
    let mut focus = CameraFocus::default();
    update_camera_focus(
        &mut focus,
        Some(CameraTransform {
            position: to_fixed_vec(transform.translation),
            forward: to_fixed_vec(transform.forward()),
            right: to_fixed_vec(transform.right()),
        }),
    );
    focus
}

#[test]
fn unturned_bevy_basis_looks_down_negative_z() {
    let basis = basis_of(&PrimaryCamera::default());
    assert_eq!(basis.forward, Vec3::new(0, 0, -ONE));
    assert_eq!(basis.right, Vec3::new(ONE, 0, 0));
}

#[test]
fn default_orbit_on_the_bevy_basis() {
    let camera = PrimaryCamera::default();
    let position = desired_position(&camera, &basis_of(&camera));
    assert_eq!(position, Vec3::new(0, 500_000, 6_000_000));
}

#[test]
fn quarter_yaw_orbit_on_the_bevy_basis() {
    let camera = PrimaryCamera { y_angle: 90 * DEGREE, ..PrimaryCamera::default() };
    let basis = basis_of(&camera);
    assert_eq!(basis.forward, Vec3::new(-ONE, 0, 0));
    assert_eq!(basis.right, Vec3::new(0, 0, -ONE));
    assert_eq!(desired_position(&camera, &basis), Vec3::new(6_000_000, 500_000, 0));
}

#[test]
fn first_person_on_any_bevy_basis() {
    let camera = PrimaryCamera {
        mode: CameraMode::FirstPerson,
        x_angle: 15 * DEGREE,
        y_angle: 200 * DEGREE,
        target: Vec3::new(1_000_000, 2_000_000, 3_000_000),
        ..PrimaryCamera::default()
    };
    let position = desired_position(&camera, &basis_of(&camera));
    assert_eq!(position, Vec3::new(1_000_000, 2_500_000, 3_000_000));
}

#[test]
fn a_frame_of_no_time_leaves_the_bevy_transform() {
    let camera = PrimaryCamera { x_angle: 10 * DEGREE, y_angle: 40 * DEGREE, ..PrimaryCamera::default() };
    let mut transform = Transform::from_xyz(1.0, 2.0, 3.0);
    transform.rotate_y(0.3);
    let before = transform;
    let placement = position_and_rotate_camera(
        to_fixed_vec(transform.translation),
        &camera,
        &basis_of(&camera),
        0,
    );
    let desired = turned(placement.orientation);
    transform.rotation = transform.rotation.slerp(desired.rotation, to_float(placement.factor));
    transform.translation = to_float_vec(placement.position);
    assert_eq!(transform.translation, before.translation);
    assert!(transform.rotation.abs_diff_eq(before.rotation, 1e-6));
}

#[test]
fn a_long_frame_brings_the_bevy_transform_to_the_desired_one() {
    let camera = PrimaryCamera { x_angle: 10 * DEGREE, y_angle: 40 * DEGREE, ..PrimaryCamera::default() };
    let mut transform = Transform::from_xyz(1.0, 2.0, 3.0);
    transform.rotate_y(0.3);
    let basis = basis_of(&camera);
    for _ in 0..2 {
        let placement = position_and_rotate_camera(
            to_fixed_vec(transform.translation),
            &camera,
            &basis,
            1_000_000,
        );
        let desired = turned(placement.orientation);
        transform.rotation =
            transform.rotation.slerp(desired.rotation, to_float(placement.factor));
        transform.translation = to_float_vec(placement.position);
        assert_eq!(placement.position, desired_position(&camera, &basis));
        assert!(transform.rotation.abs_diff_eq(desired.rotation, 1e-6));
    }
}

#[test]
fn zero_range_leaves_the_forward_direction() {
    let focus = looking_ahead();
    for _ in 0..32 {
        let forward = jittered_forward(focus.forward_randomized(0));
        assert!(forward.abs_diff_eq(to_float_vec(focus.forward()), 1e-6));
    }
}

#[test]
fn randomized_forward_stays_close_to_forward() {
    let focus = looking_ahead();
    let ahead = to_float_vec(focus.forward());
    for _ in 0..200 {
        let forward = jittered_forward(focus.forward_randomized(9_000_000));
        assert!((forward.length() - 1.0).abs() < 1e-4);
        assert!(forward.angle_between(ahead) <= 3.0_f32.to_radians() * 1.5);
    }
}
