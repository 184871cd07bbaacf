use squirrel::camera::Camera;
use squirrel::gameplay::{
    ArcballCameraController, ArcballStep, FreeLookCameraController, FreeLookStep, Look,
    OrbitCandidate, Pose, FOV_MAX_RADIANS_BITS, FOV_MIN_RADIANS_BITS, GIMBAL_LIMIT_BITS,
};
use squirrel::input::{ElementState, KeyCode, MouseButton, WindowEvent};
use squirrel::math::{Scalar, Vec2, Vec3};

fn s(x: f32) -> Scalar {
    Scalar::from_bits(x.to_bits())
}

fn f(x: Scalar) -> f32 {
    f32::from_bits(x.to_bits())
}

fn v2(x: f32, y: f32) -> Vec2 {
    Vec2::new(s(x), s(y))
}

fn v3(x: f32, y: f32, z: f32) -> Vec3 {
    Vec3::new(s(x), s(y), s(z))
}

fn camera() -> Camera {
    Camera::new(
        v3(0.0, 0.0, 3.0),
        v3(0.0, 0.0, 0.0),
        v3(0.0, 1.0, 0.0),
        s(f32::to_radians(45.0)),
        s(0.1),
        s(100.0),
        100,
        200,
    )
}

fn mouse(button: MouseButton, state: ElementState) -> WindowEvent {
    WindowEvent::MouseInput { button, state }
}

fn key(physical_key: KeyCode, state: ElementState) -> WindowEvent {
    WindowEvent::KeyboardInput { physical_key, is_escape: false, state }
}

/// A candidate whose three poses can be told apart by `tag`.
fn candidate(tag: f32, distance: f32) -> OrbitCandidate {
    OrbitCandidate {
        distance: s(distance),
        free: Pose { eye: v3(tag, 0.0, 0.0), up: v3(tag, 0.0, 1.0) },
        at_min: Pose { eye: v3(tag, 1.0, 0.0), up: v3(tag, 1.0, 1.0) },
        at_max: Pose { eye: v3(tag, 2.0, 0.0), up: v3(tag, 2.0, 1.0) },
    }
}

fn step(cos_angle: f32, y_angle: f32, distance: f32) -> ArcballStep {
    ArcballStep {
        cos_angle: s(cos_angle),
        y_angle: s(y_angle),
        yaw_only: candidate(10.0, distance),
        yaw_and_pitch: candidate(20.0, distance),
    }
}

#[test]
fn arcball_starts_with_its_constants() {
    let c = ArcballCameraController::new();
    assert_eq!(f(c.horizontal_speed()), 25.0);
    assert_eq!(f(c.vertical_speed()), 25.0);
    assert_eq!(f(c.scroll_direction_modifier()), -1.0);
    assert_eq!(f(c.scroll_speed_modifier()), 25.0);
    assert_eq!(f(c.min_distance()), 1.0);
    assert_eq!(c.max_distance().map(f), Some(20.0));
    assert!(c.mouse_motion().is_empty());
    assert!(c.mouse_scroll().is_empty());
    assert_eq!(f32::from_bits(GIMBAL_LIMIT_BITS), 0.99);
}

#[test]
fn arcball_collects_motion_only_while_the_left_button_is_down() {
    let mut c = ArcballCameraController::new();
    c.process_mouse_motion(v2(1.0, 1.0));
    assert!(c.mouse_motion().is_empty());

    assert!(!c.process_input(&mouse(MouseButton::Right, ElementState::Pressed)));
    c.process_mouse_motion(v2(1.0, 1.0));
    assert!(c.mouse_motion().is_empty());
    assert!(!c.process_input(&key(KeyCode::KeyW, ElementState::Pressed)));

    assert!(c.process_input(&mouse(MouseButton::Left, ElementState::Pressed)));
    c.process_mouse_motion(v2(1.0, 2.0));
    c.process_mouse_motion(v2(3.0, 4.0));
    assert_eq!(c.mouse_motion(), &vec![v2(1.0, 2.0), v2(3.0, 4.0)]);

    assert!(c.process_input(&mouse(MouseButton::Left, ElementState::Released)));
    c.process_mouse_motion(v2(5.0, 6.0));
    assert_eq!(c.mouse_motion(), &vec![v2(1.0, 2.0), v2(3.0, 4.0)]);

    // Scrolling is collected whether or not the button is down.
    c.process_mouse_wheel(v2(0.0, 1.0));
    c.process_mouse_wheel(v2(0.0, -1.0));
    assert_eq!(c.mouse_scroll(), &vec![v2(0.0, 1.0), v2(0.0, -1.0)]);
}

#[test]
fn arcball_update_consumes_the_collected_input() {
    let mut c = ArcballCameraController::new();
    c.process_input(&mouse(MouseButton::Left, ElementState::Pressed));
    c.process_mouse_motion(v2(1.0, 2.0));
    c.process_mouse_wheel(v2(0.0, 1.0));
    let mut cam = camera();
    c.update_camera(&mut cam, &step(0.0, 0.1, 5.0));
    assert!(c.mouse_motion().is_empty());
    assert!(c.mouse_scroll().is_empty());
    // The button is still down.
    c.process_mouse_motion(v2(1.0, 2.0));
    assert_eq!(c.mouse_motion().len(), 1);
    // The camera keeps its target and everything but its pose.
    assert_eq!(cam.target(), v3(0.0, 0.0, 0.0));
    assert_eq!(cam.world_up(), v3(0.0, 1.0, 0.0));
    assert_eq!(cam.viewport_width(), 100);
}

#[test]
fn arcball_takes_the_pitch_below_the_limit() {
    let mut c = ArcballCameraController::new();
    let mut cam = camera();
    c.update_camera(&mut cam, &step(0.5, 0.1, 5.0));
    assert_eq!(cam.eye(), v3(20.0, 0.0, 0.0));
    assert_eq!(cam.up(), v3(20.0, 0.0, 1.0));
    // Looking nearly straight down, but pitching up: the sign of the
    // pitch turns the cosine around.
    c.update_camera(&mut cam, &step(0.995, -0.1, 5.0));
    assert_eq!(cam.eye(), v3(20.0, 0.0, 0.0));
    c.update_camera(&mut cam, &step(-0.995, 0.1, 5.0));
    assert_eq!(cam.eye(), v3(20.0, 0.0, 0.0));
    // No pitch at all counts as pitching in the positive direction.
    c.update_camera(&mut cam, &step(0.98, 0.0, 5.0));
    assert_eq!(cam.eye(), v3(20.0, 0.0, 0.0));
}

#[test]
fn arcball_drops_the_pitch_at_the_gimbal_limit() {
    let mut c = ArcballCameraController::new();
    let mut cam = camera();
    c.update_camera(&mut cam, &step(0.995, 0.1, 5.0));
    assert_eq!(cam.eye(), v3(10.0, 0.0, 0.0));
    assert_eq!(cam.up(), v3(10.0, 0.0, 1.0));
    c.update_camera(&mut cam, &step(-0.995, -0.1, 5.0));
    assert_eq!(cam.eye(), v3(10.0, 0.0, 0.0));
    // Exactly at the limit the pitch is dropped too.
    c.update_camera(&mut cam, &step(0.99, 0.1, 5.0));
    assert_eq!(cam.eye(), v3(10.0, 0.0, 0.0));
    c.update_camera(&mut cam, &step(0.99, 0.0, 5.0));
    assert_eq!(cam.eye(), v3(10.0, 0.0, 0.0));
    // A pitch that is not a number is dropped.
    c.update_camera(&mut cam, &step(0.0, f32::NAN, 5.0));
    assert_eq!(cam.eye(), v3(10.0, 0.0, 0.0));
    // The decision agrees with the arithmetic it stands for.
    for &(cos, y) in
        [(0.5f32, 0.1f32), (0.995, 0.1), (0.995, -0.1), (-0.995, -0.1), (0.99, 0.1), (0.98, -0.0)]
            .iter()
    {
        let mut cam = camera();
        c.update_camera(&mut cam, &step(cos, y, 5.0));
        let expected = if cos * y.signum() < 0.99 { 20.0 } else { 10.0 };
        assert_eq!(cam.eye(), v3(expected, 0.0, 0.0), "cos {cos}, pitch {y}");
    }
}

#[test]
fn arcball_keeps_the_distance_within_its_limits() {
    let mut c = ArcballCameraController::new();
    let mut cam = camera();
    // Inside the limits: the pose is taken as it is.
    c.update_camera(&mut cam, &step(0.0, 0.1, 5.0));
    assert_eq!(cam.eye(), v3(20.0, 0.0, 0.0));
    // At or below the minimum.
    c.update_camera(&mut cam, &step(0.0, 0.1, 1.0));
    assert_eq!(cam.eye(), v3(20.0, 1.0, 0.0));
    assert_eq!(cam.up(), v3(20.0, 1.0, 1.0));
    c.update_camera(&mut cam, &step(0.0, 0.1, 0.0));
    assert_eq!(cam.eye(), v3(20.0, 1.0, 0.0));
    c.update_camera(&mut cam, &step(0.0, 0.1, 1.000_001));
    assert_eq!(cam.eye(), v3(20.0, 0.0, 0.0));
    // At or beyond the maximum, however far.
    c.update_camera(&mut cam, &step(0.0, 0.1, 20.0));
    assert_eq!(cam.eye(), v3(20.0, 2.0, 0.0));
    assert_eq!(cam.up(), v3(20.0, 2.0, 1.0));
    c.update_camera(&mut cam, &step(0.0, 0.1, f32::MAX));
    assert_eq!(cam.eye(), v3(20.0, 2.0, 0.0));
    c.update_camera(&mut cam, &step(0.0, 0.1, f32::INFINITY));
    assert_eq!(cam.eye(), v3(20.0, 2.0, 0.0));
    c.update_camera(&mut cam, &step(0.0, 0.1, 19.999));
    assert_eq!(cam.eye(), v3(20.0, 0.0, 0.0));
    // The limits apply to the yaw-only pose as well.
    c.update_camera(&mut cam, &step(1.0, 0.1, 50.0));
    assert_eq!(cam.eye(), v3(10.0, 2.0, 0.0));
    // Without a maximum only the minimum holds.
    c.set_distance_limits(s(2.0), None);
    c.update_camera(&mut cam, &step(0.0, 0.1, 1.0e9));
    assert_eq!(cam.eye(), v3(20.0, 0.0, 0.0));
    c.update_camera(&mut cam, &step(0.0, 0.1, 1.5));
    assert_eq!(cam.eye(), v3(20.0, 1.0, 0.0));
}

fn look(tag: f32) -> Look {
    Look { target: v3(tag, 0.0, 0.0), up: v3(tag, 1.0, 0.0) }
}

fn free_step(pitch: f32, fov: f32) -> FreeLookStep {
    FreeLookStep {
        eye: v3(7.0, 8.0, 9.0),
        yaw_deg: s(-45.0),
        pitch_deg: s(pitch),
        look_free: look(1.0),
        look_at_upper: look(2.0),
        look_at_lower: look(3.0),
        fov_deg: s(fov),
        fov_radians: s(fov.to_radians()),
    }
}

#[test]
fn free_look_starts_with_its_constants() {
    let c = FreeLookCameraController::new();
    assert_eq!(f(c.move_speed()), 4.0);
    assert_eq!(f(c.look_speed()), 4.0);
    assert_eq!(f(c.pitch_deg()), 0.0);
    assert_eq!(f(c.yaw_deg()), -90.0);
    assert_eq!(f(c.fov_y()), 45.0);
    assert!(!c.move_forward() && !c.move_backward() && !c.move_left() && !c.move_right());
    assert!(c.mouse_delta().is_empty());
    assert!(c.scroll_wheel_delta().is_empty());
    assert_eq!(f32::from_bits(FOV_MIN_RADIANS_BITS), f32::to_radians(1.0));
    assert_eq!(f32::from_bits(FOV_MAX_RADIANS_BITS), f32::to_radians(60.0));
}

#[test]
fn free_look_holds_a_direction_while_its_key_is_down() {
    let mut c = FreeLookCameraController::new();
    assert!(c.process_input(&key(KeyCode::KeyW, ElementState::Pressed)));
    assert!(c.move_forward());
    assert!(c.process_input(&key(KeyCode::ArrowUp, ElementState::Released)));
    assert!(!c.move_forward());
    assert!(c.process_input(&key(KeyCode::ArrowDown, ElementState::Pressed)));
    assert!(c.move_backward());
    assert!(c.process_input(&key(KeyCode::KeyS, ElementState::Released)));
    assert!(!c.move_backward());
    assert!(c.process_input(&key(KeyCode::KeyA, ElementState::Pressed)));
    assert!(c.move_left());
    assert!(c.process_input(&key(KeyCode::ArrowLeft, ElementState::Released)));
    assert!(!c.move_left());
    assert!(c.process_input(&key(KeyCode::ArrowRight, ElementState::Pressed)));
    assert!(c.move_right());
    assert!(c.process_input(&key(KeyCode::KeyD, ElementState::Released)));
    assert!(!c.move_right());
    assert!(!c.process_input(&key(KeyCode::KeyZ, ElementState::Pressed)));
    assert!(!c.process_input(&key(KeyCode::Other, ElementState::Pressed)));
    assert!(!c.process_input(&mouse(MouseButton::Left, ElementState::Pressed)));
    assert!(!c.process_input(&WindowEvent::Other));
    assert!(!c.move_forward() && !c.move_backward() && !c.move_left() && !c.move_right());
}

#[test]
fn free_look_update_consumes_input_but_keeps_keys() {
    let mut c = FreeLookCameraController::new();
    c.process_input(&key(KeyCode::KeyW, ElementState::Pressed));
    c.process_mouse_motion(v2(1.0, 2.0));
    c.process_mouse_motion(v2(3.0, 4.0));
    c.process_mouse_wheel(v2(5.0, 6.0));
    assert_eq!(c.mouse_delta(), &vec![v2(1.0, 2.0), v2(3.0, 4.0)]);
    assert_eq!(c.scroll_wheel_delta(), &vec![s(5.0)]);
    let mut cam = camera();
    c.update_camera(&mut cam, &free_step(10.0, 30.0));
    assert!(c.mouse_delta().is_empty());
    assert!(c.scroll_wheel_delta().is_empty());
    assert!(c.move_forward());
    assert_eq!(f(c.yaw_deg()), -45.0);
    assert_eq!(f(c.pitch_deg()), 10.0);
    assert_eq!(f(c.fov_y()), 30.0);
    assert_eq!(cam.eye(), v3(7.0, 8.0, 9.0));
    assert_eq!(cam.target(), v3(1.0, 0.0, 0.0));
    assert_eq!(cam.up(), v3(1.0, 1.0, 0.0));
    assert_eq!(f(cam.fov_y()), f32::to_radians(30.0));
}

#[test]
fn free_look_keeps_the_pitch_between_minus_ninety_and_eighty_nine() {
    let mut c = FreeLookCameraController::new();
    let mut cam = camera();
    c.update_camera(&mut cam, &free_step(89.0, 45.0));
    assert_eq!(f(c.pitch_deg()), 89.0);
    assert_eq!(cam.target(), v3(1.0, 0.0, 0.0));
    c.update_camera(&mut cam, &free_step(89.5, 45.0));
    assert_eq!(f(c.pitch_deg()), 89.0);
    assert_eq!(cam.target(), v3(2.0, 0.0, 0.0));
    c.update_camera(&mut cam, &free_step(-90.0, 45.0));
    assert_eq!(f(c.pitch_deg()), -90.0);
    assert_eq!(cam.target(), v3(1.0, 0.0, 0.0));
    c.update_camera(&mut cam, &free_step(-90.5, 45.0));
    assert_eq!(f(c.pitch_deg()), -89.0);
    assert_eq!(cam.target(), v3(3.0, 0.0, 0.0));
    assert_eq!(cam.up(), v3(3.0, 1.0, 0.0));
}

#[test]
fn free_look_keeps_the_field_of_view_between_one_and_sixty() {
    let mut c = FreeLookCameraController::new();
    let mut cam = camera();
    c.update_camera(&mut cam, &free_step(0.0, 0.5));
    assert_eq!(f(c.fov_y()), 1.0);
    assert_eq!(f(cam.fov_y()), f32::to_radians(1.0));
    c.update_camera(&mut cam, &free_step(0.0, 75.0));
    assert_eq!(f(c.fov_y()), 60.0);
    assert_eq!(f(cam.fov_y()), f32::to_radians(60.0));
    c.update_camera(&mut cam, &free_step(0.0, 60.0));
    assert_eq!(f(c.fov_y()), 60.0);
    c.update_camera(&mut cam, &free_step(0.0, 1.0));
    assert_eq!(f(c.fov_y()), 1.0);
    assert_eq!(f(cam.fov_y()), f32::to_radians(1.0));
    for &fov in [0.5f32, 1.0, 30.0, 60.0, 61.0, -5.0].iter() {
        c.update_camera(&mut cam, &free_step(0.0, fov));
        assert_eq!(f(c.fov_y()), fov.clamp(1.0, 60.0));
        assert_eq!(f(cam.fov_y()), fov.clamp(1.0, 60.0).to_radians());
    }
}

fn drive<C: squirrel::gameplay::CameraController>(
    controller: &mut C,
    camera: &mut Camera,
    step: &C::Step,
) {
    controller.process_mouse_wheel(v2(0.0, 1.0));
    controller.process_mouse_motion(v2(1.0, 1.0));
    controller.update_camera(camera, step);
}

#[test]
fn any_controller_forgets_its_input_on_update() {
    let mut cam = camera();
    let mut arcball = ArcballCameraController::new();
    arcball.process_input(&mouse(MouseButton::Left, ElementState::Pressed));
    drive(&mut arcball, &mut cam, &step(0.0, 0.1, 5.0));
    assert!(arcball.mouse_motion().is_empty());
    assert!(arcball.mouse_scroll().is_empty());
    assert_eq!(cam.eye(), v3(20.0, 0.0, 0.0));

    let mut freelook = FreeLookCameraController::new();
    drive(&mut freelook, &mut cam, &free_step(10.0, 30.0));
    assert!(freelook.mouse_delta().is_empty());
    assert!(freelook.scroll_wheel_delta().is_empty());
    assert_eq!(cam.eye(), v3(7.0, 8.0, 9.0));
}

fn hand_event<C: squirrel::gameplay::CameraController>(
    controller: &mut C,
    event: &WindowEvent,
) -> bool {
    let used = controller.process_input(event);
    controller.process_mouse_motion(v2(1.0, 2.0));
    used
}

#[test]
fn input_through_the_trait_does_what_the_controller_does() {
    let mut arcball = ArcballCameraController::new();
    // Mouse look is off: the event is not used and the motion is dropped.
    assert!(!hand_event(&mut arcball, &key(KeyCode::KeyW, ElementState::Pressed)));
    assert!(arcball.mouse_motion().is_empty());
    assert!(hand_event(&mut arcball, &mouse(MouseButton::Left, ElementState::Pressed)));
    assert_eq!(arcball.mouse_motion(), &vec![v2(1.0, 2.0)]);
    assert!(hand_event(&mut arcball, &mouse(MouseButton::Left, ElementState::Released)));
    assert_eq!(arcball.mouse_motion(), &vec![v2(1.0, 2.0)]);

    let mut freelook = FreeLookCameraController::new();
    assert!(!hand_event(&mut freelook, &mouse(MouseButton::Left, ElementState::Pressed)));
    assert!(hand_event(&mut freelook, &key(KeyCode::KeyA, ElementState::Pressed)));
    assert!(freelook.move_left());
    assert!(!freelook.move_forward());
    assert_eq!(freelook.mouse_delta(), &vec![v2(1.0, 2.0), v2(1.0, 2.0)]);
}
