use squirrel::camera::{Camera, InvalidCameraSize};
use squirrel::math::{Scalar, Vec3};

fn s(x: f32) -> Scalar {
    Scalar::from_bits(x.to_bits())
}

fn v3(x: f32, y: f32, z: f32) -> Vec3 {
    Vec3::new(s(x), s(y), s(z))
}

fn aspect(camera: &Camera) -> f32 {
    match camera.aspect_ratio() {
        Some((w, h)) => w as f32 / h as f32,
        None => 0.0,
    }
}

fn test_camera() -> Camera {
    Camera::new(
        v3(0.0, 0.0, 3.0),
        v3(0.0, 0.0, 0.0),
        v3(0.0, 1.0, 0.0),
        s(f32::to_radians(45.0)),
        s(0.1),
        s(100.0),
        100,
        200,
    )
}

#[test]
fn set_valid_viewport_size() {
    let mut camera = test_camera();

    assert_eq!(0.5, aspect(&camera));

    assert!(camera.set_viewport_size(600, 300).is_ok());
    assert_eq!(2.0, aspect(&camera));
}

#[test]
fn set_invalid_viewport_size() {
    let mut camera = test_camera();

    assert!(camera.set_viewport_size(0, 100).is_err());

    let err = camera.set_viewport_size(0, 100).unwrap_err();
    assert_eq!(0, err.0);
    assert_eq!(100, err.1);

    assert!(camera.set_viewport_size(600, 0).is_err());

    let err = camera.set_viewport_size(600, 0).unwrap_err();
    assert_eq!(600, err.0);
    assert_eq!(0, err.1);

    assert!(camera.set_viewport_size(0, 0).is_err());

    let err = camera.set_viewport_size(0, 0).unwrap_err();
    assert_eq!(0, err.0);
    assert_eq!(0, err.1);
}

#[test]
fn viewport_resize_sequence_keeps_last_valid_aspect() {
    let mut camera = test_camera();
    assert_eq!(0.5, aspect(&camera));
    assert_eq!(Ok(()), camera.set_viewport_size(600, 300));
    assert_eq!(2.0, aspect(&camera));
    assert_eq!(Err(InvalidCameraSize(0, 100)), camera.set_viewport_size(0, 100));
    assert_eq!(2.0, aspect(&camera));
    assert_eq!(600, camera.viewport_width());
    assert_eq!(300, camera.viewport_height());
}

#[test]
fn new_camera_keeps_its_arguments() {
    let camera = test_camera();
    assert_eq!(camera.eye(), v3(0.0, 0.0, 3.0));
    assert_eq!(camera.target(), v3(0.0, 0.0, 0.0));
    assert_eq!(camera.up(), v3(0.0, 1.0, 0.0));
    assert_eq!(camera.world_up(), v3(0.0, 1.0, 0.0));
    assert_eq!(f32::from_bits(camera.fov_y().to_bits()), f32::to_radians(45.0));
    assert_eq!(f32::from_bits(camera.z_near().to_bits()), 0.1);
    assert_eq!(f32::from_bits(camera.z_far().to_bits()), 100.0);
    assert_eq!(camera.viewport_width(), 100);
    assert_eq!(camera.viewport_height(), 200);
}

#[test]
fn camera_with_a_zero_viewport_has_no_aspect() {
    let camera = Camera::new(
        v3(0.0, 0.0, 3.0),
        v3(0.0, 0.0, 0.0),
        v3(0.0, 1.0, 0.0),
        s(1.0),
        s(0.0),
        s(1.0),
        0,
        200,
    );
    assert_eq!(camera.aspect_ratio(), None);
}

#[test]
fn camera_parameters_are_checked_as_numbers() {
    let eye = v3(0.0, 0.0, 3.0);
    let target = v3(0.0, 0.0, 0.0);
    assert!(Camera::is_accepted(eye, target, s(0.5), s(0.1), s(100.0)));
    // The near plane may sit at zero, of either sign.
    assert!(Camera::is_accepted(eye, target, s(0.5), s(0.0), s(100.0)));
    assert!(Camera::is_accepted(eye, target, s(0.5), s(-0.0), s(100.0)));
    // A field of view must be above zero.
    assert!(!Camera::is_accepted(eye, target, s(0.0), s(0.1), s(100.0)));
    assert!(!Camera::is_accepted(eye, target, s(-1.0), s(0.1), s(100.0)));
    assert!(!Camera::is_accepted(eye, target, s(f32::NAN), s(0.1), s(100.0)));
    // The near plane must not be negative.
    assert!(!Camera::is_accepted(eye, target, s(0.5), s(-0.1), s(100.0)));
    // The far plane must lie beyond the near plane.
    assert!(!Camera::is_accepted(eye, target, s(0.5), s(1.0), s(1.0)));
    assert!(!Camera::is_accepted(eye, target, s(0.5), s(2.0), s(1.0)));
    // The eye must not be at the target; the two zeros are one place.
    assert!(!Camera::is_accepted(target, target, s(0.5), s(0.1), s(100.0)));
    assert!(!Camera::is_accepted(v3(-0.0, 0.0, 0.0), target, s(0.5), s(0.1), s(100.0)));
    // A position that is not a number differs from every position.
    assert!(Camera::is_accepted(v3(f32::NAN, 0.0, 0.0), target, s(0.5), s(0.1), s(100.0)));
}

#[test]
fn reorient_moves_eye_target_and_up_only() {
    let mut camera = test_camera();
    camera.reorient(v3(1.0, 2.0, 3.0), v3(4.0, 5.0, 6.0), v3(0.0, 0.0, 1.0));
    assert_eq!(camera.eye(), v3(1.0, 2.0, 3.0));
    assert_eq!(camera.target(), v3(4.0, 5.0, 6.0));
    assert_eq!(camera.up(), v3(0.0, 0.0, 1.0));
    assert_eq!(camera.world_up(), v3(0.0, 1.0, 0.0));
    assert_eq!(camera.viewport_width(), 100);
    camera.set_fov_y(s(0.25));
    assert_eq!(camera.fov_y(), s(0.25));
    assert_eq!(camera.eye(), v3(1.0, 2.0, 3.0));
}
