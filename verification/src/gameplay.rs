//! Camera controllers: what the user's input makes of the camera.
//!
//! A controller collects mouse motion and scroll wheel steps between two
//! frames and remembers which keys and buttons are held. Once per frame
//! `update_camera` consumes what was collected and moves the camera. The
//! arithmetic of a move is the host's: it reads the controller, computes
//! where each possible decision would take the camera, and the controller
//! decides.
use vstd::prelude::*;
use crate::camera::Camera;
use crate::camera::CameraState;
use crate::input::ElementState;
use crate::input::KeyCode;
use crate::input::MouseButton;
use crate::input::WindowEvent;
use crate::math::Scalar;
use crate::math::Vec2;
use crate::math::Vec3;

verus! {

/// What a camera controller does: it takes input events, collects mouse
/// motion and scroll wheel steps, and once per frame applies what it has
/// collected to the camera.
pub trait CameraController {
    /// What the host computes for one update of the controller.
    type Step;

    /// The number of mouse motion and scroll wheel steps that the
    /// controller has collected and not yet applied.
    spec fn pending(&self) -> nat;

    /// Updates the camera controller state with the given input event.
    /// Returns `true` if `event` was used, otherwise false. What was
    /// collected stays.
    fn process_input(&mut self, event: &WindowEvent) -> (used: bool)
        ensures
            final(self).pending() == old(self).pending(),
    ;

    /// Collects mouse motion until it is applied in `update_camera`.
    fn process_mouse_motion(&mut self, delta: Vec2)
        ensures
            old(self).pending() <= final(self).pending() <= old(self).pending() + 1,
    ;

    /// Collects mouse scroll wheel steps until they are applied in
    /// `update_camera`.
    fn process_mouse_wheel(&mut self, delta: Vec2)
        ensures
            final(self).pending() == old(self).pending() + 1,
    ;

    /// Applies updates to the camera that reflect the current state of
    /// this controller, and forgets what was collected: no step is
    /// applied twice.
    fn update_camera(&mut self, camera: &mut Camera, step: &Self::Step)
        ensures
            final(self).pending() == 0,
    ;
}

/// The cosine beyond which the arcball controller gives up pitching: 0.99.
pub const GIMBAL_LIMIT_BITS: u32 = 0x3f7d_70a4;

/// A pose that the host has computed for the camera.
#[derive(Clone, Copy, Debug, PartialEq, Eq, Structural)]
pub struct Pose {
    /// Where the camera is.
    pub eye: Vec3,
    /// The camera's up direction at `eye`.
    pub up: Vec3,
}

/// One way to go on orbiting the target.
#[derive(Clone, Copy, Debug, PartialEq, Eq, Structural)]
pub struct OrbitCandidate {
    /// The distance from the target to `free.eye`.
    pub distance: Scalar,
    /// The pose after rotating and scrolling.
    pub free: Pose,
    /// The pose on the same ray from the target, at the controller's
    /// minimum distance.
    pub at_min: Pose,
    /// The pose on the same ray from the target, at the controller's
    /// maximum distance.
    pub at_max: Pose,
}

/// What the host has computed for one update of an arcball controller,
/// from the input that the controller has collected.
#[derive(Clone, Copy, Debug, PartialEq, Eq, Structural)]
pub struct ArcballStep {
    /// The cosine of the angle between the view direction after the
    /// horizontal rotation and the world's up direction.
    pub cos_angle: Scalar,
    /// The angle of the vertical rotation that the input asks for.
    pub y_angle: Scalar,
    /// Where the horizontal rotation alone leads.
    pub yaw_only: OrbitCandidate,
    /// Where the horizontal and the vertical rotation lead.
    pub yaw_and_pitch: OrbitCandidate,
}

/// Experimental arc-ball camera controller. This controller uses the
/// camera's target as the pivot point, and allows both rotation and
/// zooming. Zooming is accomplished with the mouse wheel. Rotation is done
/// by holding the mouse button down and panning in the direction you wish
/// to rotate.
pub struct ArcballCameraController {
    /// Horizontal panning speed modifier.
    horizontal_speed: Scalar,
    /// Vertical panning speed modifier.
    vertical_speed: Scalar,
    /// Allows mouse motion to contribute to the camera controller when set
    /// to true, otherwise mouse motion is ignored.
    allow_mouse_look: bool,
    /// The mouse motion since the last call to update, step by step.
    mouse_motion: Vec<Vec2>,
    /// The scroll wheel steps since the last call to update.
    mouse_scroll: Vec<Vec2>,
    /// A direction modifier to apply to mouse scroll actions: one or
    /// minus one.
    scroll_direction_modifier: Scalar,
    /// Adjusts the mouse wheel scroll speed by the given amount.
    scroll_speed_modifier: Scalar,
    /// Minimum view distance from target.
    min_distance: Scalar,
    /// Maximum view distance from target.
    max_distance: Option<Scalar>,
}

/// An arcball controller as contracts see it.
pub struct ArcballView {
    pub horizontal_speed: Scalar,
    pub vertical_speed: Scalar,
    pub allow_mouse_look: bool,
    pub mouse_motion: Seq<Vec2>,
    pub mouse_scroll: Seq<Vec2>,
    pub scroll_direction_modifier: Scalar,
    pub scroll_speed_modifier: Scalar,
    pub min_distance: Scalar,
    pub max_distance: Option<Scalar>,
}

impl View for ArcballCameraController {
    type V = ArcballView;

    closed spec fn view(&self) -> ArcballView {
        ArcballView {
            horizontal_speed: self.horizontal_speed,
            vertical_speed: self.vertical_speed,
            allow_mouse_look: self.allow_mouse_look,
            mouse_motion: self.mouse_motion@,
            mouse_scroll: self.mouse_scroll@,
            scroll_direction_modifier: self.scroll_direction_modifier,
            scroll_speed_modifier: self.scroll_speed_modifier,
            min_distance: self.min_distance,
            max_distance: self.max_distance,
        }
    }
}

impl ArcballView {
    /// What a new controller holds: speeds of 25, mouse look off, nothing
    /// collected, scrolling inverted, and a distance between 1 and 20.
    pub open spec fn initial() -> ArcballView {
        ArcballView {
            horizontal_speed: Scalar { bits: 0x41c8_0000 },
            vertical_speed: Scalar { bits: 0x41c8_0000 },
            allow_mouse_look: false,
            mouse_motion: Seq::empty(),
            mouse_scroll: Seq::empty(),
            scroll_direction_modifier: Scalar { bits: 0xbf80_0000 },
            scroll_speed_modifier: Scalar { bits: 0x41c8_0000 },
            min_distance: Scalar { bits: 0x3f80_0000 },
            max_distance: Some(Scalar { bits: 0x41a0_0000 }),
        }
    }

    /// Whether the vertical rotation is taken: only while the cosine,
    /// signed by the direction of the pitch, is below 0.99.
    pub open spec fn pitch_allowed(cos_angle: Scalar, y_angle: Scalar) -> bool {
        cos_angle.times_sign_of(y_angle).lt(Scalar { bits: GIMBAL_LIMIT_BITS })
    }

    /// The candidate that an update goes on with.
    pub open spec fn chosen(step: ArcballStep) -> OrbitCandidate {
        if Self::pitch_allowed(step.cos_angle, step.y_angle) {
            step.yaw_and_pitch
        } else {
            step.yaw_only
        }
    }

    /// The pose that an update gives the camera: that of the chosen
    /// candidate, pulled to the minimum distance where it is at or below
    /// it, and else to the maximum distance where there is one and it is
    /// at or beyond it.
    pub open spec fn pose(self, step: ArcballStep) -> Pose {
        let candidate = Self::chosen(step);
        if candidate.distance.le(self.min_distance) {
            candidate.at_min
        } else if self.max_distance is Some && self.max_distance->Some_0.le(candidate.distance) {
            candidate.at_max
        } else {
            candidate.free
        }
    }
}

impl ArcballView {
    /// The distance from the target at which an update leaves the camera:
    /// the minimum distance, the maximum distance, or the distance of the
    /// chosen candidate, as `pose` decides.
    pub open spec fn distance_after(self, step: ArcballStep) -> Scalar {
        let candidate = Self::chosen(step);
        if candidate.distance.le(self.min_distance) {
            self.min_distance
        } else if self.max_distance is Some && self.max_distance->Some_0.le(candidate.distance) {
            self.max_distance->Some_0
        } else {
            candidate.distance
        }
    }

    /// Whatever the input was, an update leaves the camera between the
    /// minimum and the maximum distance from its target, both included.
    /// The distances must be numbers, and the limits in order.
    pub proof fn lemma_distance_stays_within_limits(self, step: ArcballStep)
        requires
            !Self::chosen(step).distance.is_nan(),
            !self.min_distance.is_nan(),
            self.max_distance is Some ==> self.min_distance.le(self.max_distance->Some_0),
        ensures
            self.min_distance.le(self.distance_after(step)),
            self.max_distance is Some ==> self.distance_after(step).le(self.max_distance->Some_0),
    {
    }

    /// Where the cosine, signed by the direction of the pitch, is 0.99 or
    /// more, the update goes on with the horizontal rotation alone.
    pub proof fn lemma_gimbal_guard(step: ArcballStep)
        requires
            (Scalar { bits: GIMBAL_LIMIT_BITS }).le(step.cos_angle.times_sign_of(step.y_angle)),
        ensures
            Self::chosen(step) == step.yaw_only,
    {
    }
}

impl ArcballCameraController {
    /// Create a new camera controller that lets users pan and zoom on a
    /// pivot point: speeds of 25, scrolling inverted, and a distance
    /// between 1 and 20.
    pub fn new() -> (controller: Self)
        ensures
            controller@ == ArcballView::initial(),
    {
        ArcballCameraController {
            horizontal_speed: Scalar::from_bits(0x41c8_0000),
            vertical_speed: Scalar::from_bits(0x41c8_0000),
            allow_mouse_look: false,
            mouse_motion: Vec::new(),
            mouse_scroll: Vec::new(),
            scroll_direction_modifier: Scalar::from_bits(0xbf80_0000),
            scroll_speed_modifier: Scalar::from_bits(0x41c8_0000),
            min_distance: Scalar::one(),
            max_distance: Some(Scalar::from_bits(0x41a0_0000)),
        }
    }

    /// Updates the camera controller state with the given input event.
    /// Returns `true` if `event` was used, otherwise false: the left
    /// mouse button switches mouse look on as it goes down and off as it
    /// comes up.
    pub fn process_input(&mut self, event: &WindowEvent) -> (used: bool)
        ensures
            used == (*event matches WindowEvent::MouseInput { button: MouseButton::Left, .. }),
            final(self)@ == (match *event {
                WindowEvent::MouseInput { button: MouseButton::Left, state } => ArcballView {
                    allow_mouse_look: state == ElementState::Pressed,
                    ..old(self)@
                },
                _ => old(self)@,
            }),
    {
        match *event {
            WindowEvent::MouseInput { button: MouseButton::Left, state } => {
                self.allow_mouse_look = state == ElementState::Pressed;
                true
            },
            _ => false,
        }
    }

    /// Collects mouse motion until `update_camera` applies it; ignored
    /// while mouse look is off.
    pub fn process_mouse_motion(&mut self, delta: Vec2)
        ensures
            final(self)@ == (ArcballView {
                mouse_motion: if old(self)@.allow_mouse_look {
                    old(self)@.mouse_motion.push(delta)
                } else {
                    old(self)@.mouse_motion
                },
                ..old(self)@
            }),
    {
        if self.allow_mouse_look {
            self.mouse_motion.push(delta);
        }
    }

    /// Collects mouse scroll wheel steps until `update_camera` applies
    /// them.
    pub fn process_mouse_wheel(&mut self, delta: Vec2)
        ensures
            final(self)@ == (ArcballView {
                mouse_scroll: old(self)@.mouse_scroll.push(delta),
                ..old(self)@
            }),
    {
        self.mouse_scroll.push(delta);
    }

    /// The mouse motion collected since the last update, oldest first.
    pub fn mouse_motion(&self) -> (steps: &Vec<Vec2>)
        ensures
            steps@ == self@.mouse_motion,
    {
        &self.mouse_motion
    }

    /// The scroll wheel steps collected since the last update, oldest
    /// first.
    pub fn mouse_scroll(&self) -> (steps: &Vec<Vec2>)
        ensures
            steps@ == self@.mouse_scroll,
    {
        &self.mouse_scroll
    }

    pub fn horizontal_speed(&self) -> (s: Scalar)
        ensures
            s == self@.horizontal_speed,
    {
        self.horizontal_speed
    }

    pub fn vertical_speed(&self) -> (s: Scalar)
        ensures
            s == self@.vertical_speed,
    {
        self.vertical_speed
    }

    pub fn scroll_direction_modifier(&self) -> (s: Scalar)
        ensures
            s == self@.scroll_direction_modifier,
    {
        self.scroll_direction_modifier
    }

    pub fn scroll_speed_modifier(&self) -> (s: Scalar)
        ensures
            s == self@.scroll_speed_modifier,
    {
        self.scroll_speed_modifier
    }

    pub fn min_distance(&self) -> (s: Scalar)
        ensures
            s == self@.min_distance,
    {
        self.min_distance
    }

    pub fn max_distance(&self) -> (s: Option<Scalar>)
        ensures
            s == self@.max_distance,
    {
        self.max_distance
    }

    /// Set the distances between which the camera stays.
    pub fn set_distance_limits(&mut self, min_distance: Scalar, max_distance: Option<Scalar>)
        ensures
            final(self)@ == (ArcballView { min_distance, max_distance, ..old(self)@ }),
    {
        self.min_distance = min_distance;
        self.max_distance = max_distance;
    }

    /// Applies the collected input to the camera and forgets it.
    ///
    /// `step` holds what the host has computed from the collected input.
    /// The vertical rotation is dropped where it would bring the view
    /// direction nearly parallel to the world's up direction; the
    /// horizontal rotation always applies. The camera then stays within
    /// the controller's distance limits and keeps its target.
    pub fn update_camera(&mut self, camera: &mut Camera, step: &ArcballStep)
        ensures
            final(camera)@ == (CameraState {
                eye: old(self)@.pose(*step).eye,
                up: old(self)@.pose(*step).up,
                ..old(camera)@
            }),
            final(self)@ == (ArcballView {
                mouse_motion: Seq::empty(),
                mouse_scroll: Seq::empty(),
                ..old(self)@
            }),
    {
        let pivot = camera.target();

        // Do not use the vertical rotation contribution if it causes the
        // camera to become nearly parallel with the world's up vector.
        let signed = step.cos_angle.multiply_by_sign_of(step.y_angle);
        let candidate = if signed.less_than(Scalar::from_bits(GIMBAL_LIMIT_BITS)) {
            // Both horizontal and vertical rotation.
            step.yaw_and_pitch
        } else {
            // Only horizontal rotation.
            step.yaw_only
        };

        // Don't scroll too close or too far from the target.
        let too_far = match self.max_distance {
            Some(max_distance) => max_distance.less_or_equal(candidate.distance),
            None => false,
        };
        let pose = if candidate.distance.less_or_equal(self.min_distance) {
            candidate.at_min
        } else if too_far {
            candidate.at_max
        } else {
            candidate.free
        };

        // Update camera position and target.
        camera.reorient(pose.eye, pivot, pose.up);

        // Reset update state.
        self.mouse_motion.clear();
        self.mouse_scroll.clear();
    }
}

impl CameraController for ArcballCameraController {
    type Step = ArcballStep;

    open spec fn pending(&self) -> nat {
        self@.mouse_motion.len() + self@.mouse_scroll.len()
    }

    fn process_input(&mut self, event: &WindowEvent) -> (used: bool)
        ensures
            used == (*event matches WindowEvent::MouseInput { button: MouseButton::Left, .. }),
            final(self)@ == (match *event {
                WindowEvent::MouseInput { button: MouseButton::Left, state } => ArcballView {
                    allow_mouse_look: state == ElementState::Pressed,
                    ..old(self)@
                },
                _ => old(self)@,
            }),
    {
        ArcballCameraController::process_input(self, event)
    }

    fn process_mouse_motion(&mut self, delta: Vec2)
        ensures
            final(self)@ == (ArcballView {
                mouse_motion: if old(self)@.allow_mouse_look {
                    old(self)@.mouse_motion.push(delta)
                } else {
                    old(self)@.mouse_motion
                },
                ..old(self)@
            }),
    {
        ArcballCameraController::process_mouse_motion(self, delta)
    }

    fn process_mouse_wheel(&mut self, delta: Vec2)
        ensures
            final(self)@ == (ArcballView {
                mouse_scroll: old(self)@.mouse_scroll.push(delta),
                ..old(self)@
            }),
    {
        ArcballCameraController::process_mouse_wheel(self, delta)
    }

    fn update_camera(&mut self, camera: &mut Camera, step: &ArcballStep)
        ensures
            final(camera)@ == (CameraState {
                eye: old(self)@.pose(*step).eye,
                up: old(self)@.pose(*step).up,
                ..old(camera)@
            }),
            final(self)@ == (ArcballView {
                mouse_motion: Seq::empty(),
                mouse_scroll: Seq::empty(),
                ..old(self)@
            }),
    {
        ArcballCameraController::update_camera(self, camera, step)
    }
}

/// Where the camera looks from `eye`.
#[derive(Clone, Copy, Debug, PartialEq, Eq, Structural)]
pub struct Look {
    /// The point that the camera looks at.
    pub target: Vec3,
    /// The camera's up direction.
    pub up: Vec3,
}

/// What the host has computed for one update of a free look controller,
/// from the keys that are held and the input that the controller has
/// collected.
#[derive(Clone, Copy, Debug, PartialEq, Eq, Structural)]
pub struct FreeLookStep {
    /// Where the held keys take the camera.
    pub eye: Vec3,
    /// The yaw after the mouse motion, in degrees.
    pub yaw_deg: Scalar,
    /// The pitch after the mouse motion, in degrees.
    pub pitch_deg: Scalar,
    /// Where the camera looks with `yaw_deg` and `pitch_deg`.
    pub look_free: Look,
    /// Where the camera looks with `yaw_deg` and a pitch of 89 degrees.
    pub look_at_upper: Look,
    /// Where the camera looks with `yaw_deg` and a pitch of -89 degrees.
    pub look_at_lower: Look,
    /// The field of view after the scroll wheel steps, in degrees.
    pub fov_deg: Scalar,
    /// `fov_deg` in radians.
    pub fov_radians: Scalar,
}

/// 89 degrees: the pitch that takes the place of a larger one.
pub const PITCH_UPPER_BITS: u32 = 0x42b2_0000;

/// -90 degrees: the pitch below which a pitch is replaced.
pub const PITCH_LOWER_BITS: u32 = 0xc2b4_0000;

/// -89 degrees: the pitch that takes the place of one below -90 degrees.
pub const PITCH_LOWER_REPLACEMENT_BITS: u32 = 0xc2b2_0000;

/// One degree, the smallest field of view.
pub const FOV_MIN_BITS: u32 = 0x3f80_0000;

/// One degree in radians.
pub const FOV_MIN_RADIANS_BITS: u32 = 0x3c8e_fa35;

/// 60 degrees, the largest field of view.
pub const FOV_MAX_BITS: u32 = 0x4270_0000;

/// 60 degrees in radians.
pub const FOV_MAX_RADIANS_BITS: u32 = 0x3f86_0a92;

/// A first person camera that moves in the direction the mouse is looking.
pub struct FreeLookCameraController {
    /// A movement speed modifier.
    move_speed: Scalar,
    look_speed: Scalar,
    move_forward: bool,
    move_backward: bool,
    move_left: bool,
    move_right: bool,
    /// The mouse motion since the last call to update, step by step.
    mouse_delta: Vec<Vec2>,
    pitch_deg: Scalar,
    yaw_deg: Scalar,
    /// The scroll wheel steps since the last call to update.
    scroll_wheel_delta: Vec<Scalar>,
    /// The vertical field of view in degrees.
    fov_y: Scalar,
}

/// A free look controller as contracts see it.
pub struct FreeLookView {
    pub move_speed: Scalar,
    pub look_speed: Scalar,
    pub move_forward: bool,
    pub move_backward: bool,
    pub move_left: bool,
    pub move_right: bool,
    pub mouse_delta: Seq<Vec2>,
    pub pitch_deg: Scalar,
    pub yaw_deg: Scalar,
    pub scroll_wheel_delta: Seq<Scalar>,
    pub fov_y: Scalar,
}

impl View for FreeLookCameraController {
    type V = FreeLookView;

    closed spec fn view(&self) -> FreeLookView {
        FreeLookView {
            move_speed: self.move_speed,
            look_speed: self.look_speed,
            move_forward: self.move_forward,
            move_backward: self.move_backward,
            move_left: self.move_left,
            move_right: self.move_right,
            mouse_delta: self.mouse_delta@,
            pitch_deg: self.pitch_deg,
            yaw_deg: self.yaw_deg,
            scroll_wheel_delta: self.scroll_wheel_delta@,
            fov_y: self.fov_y,
        }
    }
}

impl FreeLookView {
    /// What a new controller holds: speeds of 4, no key held, nothing
    /// collected, a yaw of -90 degrees, a pitch of zero and a field of
    /// view of 45 degrees.
    pub open spec fn initial() -> FreeLookView {
        FreeLookView {
            move_speed: Scalar { bits: 0x4080_0000 },
            look_speed: Scalar { bits: 0x4080_0000 },
            move_forward: false,
            move_backward: false,
            move_left: false,
            move_right: false,
            mouse_delta: Seq::empty(),
            pitch_deg: Scalar { bits: 0 },
            yaw_deg: Scalar { bits: 0xc2b4_0000 },
            scroll_wheel_delta: Seq::empty(),
            fov_y: Scalar { bits: 0x4234_0000 },
        }
    }

    /// The pitch that is kept for a pitch of `pitch_deg`: 89 degrees for
    /// one above 89 degrees, -89 degrees for one below -90 degrees, and
    /// else the pitch itself.
    pub open spec fn kept_pitch(pitch_deg: Scalar) -> Scalar {
        if (Scalar { bits: PITCH_UPPER_BITS }).lt(pitch_deg) {
            Scalar { bits: PITCH_UPPER_BITS }
        } else if pitch_deg.lt(Scalar { bits: PITCH_LOWER_BITS }) {
            Scalar { bits: PITCH_LOWER_REPLACEMENT_BITS }
        } else {
            pitch_deg
        }
    }

    /// Where the camera looks after an update.
    pub open spec fn look(step: FreeLookStep) -> Look {
        if (Scalar { bits: PITCH_UPPER_BITS }).lt(step.pitch_deg) {
            step.look_at_upper
        } else if step.pitch_deg.lt(Scalar { bits: PITCH_LOWER_BITS }) {
            step.look_at_lower
        } else {
            step.look_free
        }
    }

    /// The field of view that is kept, in degrees: `fov_deg` brought into
    /// the range from 1 to 60.
    pub open spec fn kept_fov(fov_deg: Scalar) -> Scalar {
        if fov_deg.lt(Scalar { bits: FOV_MIN_BITS }) {
            Scalar { bits: FOV_MIN_BITS }
        } else if (Scalar { bits: FOV_MAX_BITS }).lt(fov_deg) {
            Scalar { bits: FOV_MAX_BITS }
        } else {
            fov_deg
        }
    }

    /// The field of view that is kept, in radians.
    pub open spec fn kept_fov_radians(step: FreeLookStep) -> Scalar {
        if step.fov_deg.lt(Scalar { bits: FOV_MIN_BITS }) {
            Scalar { bits: FOV_MIN_RADIANS_BITS }
        } else if (Scalar { bits: FOV_MAX_BITS }).lt(step.fov_deg) {
            Scalar { bits: FOV_MAX_RADIANS_BITS }
        } else {
            step.fov_radians
        }
    }

    /// A pitch that is a number is kept between -90 and 89 degrees.
    pub proof fn lemma_kept_pitch_in_range(pitch_deg: Scalar)
        requires
            !pitch_deg.is_nan(),
        ensures
            (Scalar { bits: PITCH_LOWER_BITS }).le(Self::kept_pitch(pitch_deg)),
            Self::kept_pitch(pitch_deg).le(Scalar { bits: PITCH_UPPER_BITS }),
    {
    }

    /// A field of view that is a number is kept between 1 and 60 degrees.
    pub proof fn lemma_kept_fov_in_range(fov_deg: Scalar)
        requires
            !fov_deg.is_nan(),
        ensures
            (Scalar { bits: FOV_MIN_BITS }).le(Self::kept_fov(fov_deg)),
            Self::kept_fov(fov_deg).le(Scalar { bits: FOV_MAX_BITS }),
    {
    }
}

impl FreeLookCameraController {
    /// A controller with speeds of 4, no key held, a yaw of -90 degrees, a
    /// pitch of zero and a field of view of 45 degrees.
    pub fn new() -> (controller: Self)
        ensures
            controller@ == FreeLookView::initial(),
    {
        FreeLookCameraController {
            move_speed: Scalar::from_bits(0x4080_0000),
            look_speed: Scalar::from_bits(0x4080_0000),
            move_forward: false,
            move_backward: false,
            move_left: false,
            move_right: false,
            mouse_delta: Vec::new(),
            pitch_deg: Scalar::zero(),
            yaw_deg: Scalar::from_bits(0xc2b4_0000),
            scroll_wheel_delta: Vec::new(),
            fov_y: Scalar::from_bits(0x4234_0000),
        }
    }

    /// What a key event makes of a controller: the arrow keys and W, A, S
    /// and D each hold one direction for as long as they are down.
    pub open spec fn after_key(
        before: FreeLookView,
        physical_key: KeyCode,
        is_pressed: bool,
    ) -> FreeLookView {
        match physical_key {
            KeyCode::ArrowUp | KeyCode::KeyW => FreeLookView { move_forward: is_pressed, ..before },
            KeyCode::ArrowDown | KeyCode::KeyS => FreeLookView {
                move_backward: is_pressed,
                ..before
            },
            KeyCode::ArrowLeft | KeyCode::KeyA => FreeLookView { move_left: is_pressed, ..before },
            KeyCode::ArrowRight | KeyCode::KeyD => FreeLookView { move_right: is_pressed, ..before },
            _ => before,
        }
    }

    /// Whether a key moves the camera.
    pub open spec fn is_move_key(physical_key: KeyCode) -> bool {
        physical_key is ArrowUp || physical_key is KeyW || physical_key is ArrowDown
            || physical_key is KeyS || physical_key is ArrowLeft || physical_key is KeyA
            || physical_key is ArrowRight || physical_key is KeyD
    }

    /// Updates the camera controller state with the given input event.
    /// Returns `true` if `event` was used, otherwise false.
    pub fn process_input(&mut self, event: &WindowEvent) -> (used: bool)
        ensures
            used == (match *event {
                WindowEvent::KeyboardInput { physical_key, is_escape, state } => Self::is_move_key(
                    physical_key,
                ),
                _ => false,
            }),
            final(self)@ == (match *event {
                WindowEvent::KeyboardInput { physical_key, is_escape, state } => Self::after_key(
                    old(self)@,
                    physical_key,
                    state == ElementState::Pressed,
                ),
                _ => old(self)@,
            }),
    {
        match *event {
            // Keyboard input.
            WindowEvent::KeyboardInput { physical_key, is_escape, state } => {
                // Is the button pushed down or no longer down?
                let is_pressed = state == ElementState::Pressed;
                match physical_key {
                    KeyCode::ArrowUp | KeyCode::KeyW => {
                        self.move_forward = is_pressed;
                        true
                    },
                    KeyCode::ArrowDown | KeyCode::KeyS => {
                        self.move_backward = is_pressed;
                        true
                    },
                    KeyCode::ArrowLeft | KeyCode::KeyA => {
                        self.move_left = is_pressed;
                        true
                    },
                    KeyCode::ArrowRight | KeyCode::KeyD => {
                        self.move_right = is_pressed;
                        true
                    },
                    _ => false,
                }
            },
            _ => false,
        }
    }

    /// Collects mouse motion until `update_camera` applies it.
    pub fn process_mouse_motion(&mut self, delta: Vec2)
        ensures
            final(self)@ == (FreeLookView {
                mouse_delta: old(self)@.mouse_delta.push(delta),
                ..old(self)@
            }),
    {
        self.mouse_delta.push(delta);
    }

    /// Collects mouse scroll wheel steps until `update_camera` applies
    /// them. Only the first lane of a step counts.
    pub fn process_mouse_wheel(&mut self, delta: Vec2)
        ensures
            final(self)@ == (FreeLookView {
                scroll_wheel_delta: old(self)@.scroll_wheel_delta.push(delta.x),
                ..old(self)@
            }),
    {
        self.scroll_wheel_delta.push(delta.x);
    }

    /// The mouse motion collected since the last update, oldest first.
    pub fn mouse_delta(&self) -> (steps: &Vec<Vec2>)
        ensures
            steps@ == self@.mouse_delta,
    {
        &self.mouse_delta
    }

    /// The scroll wheel steps collected since the last update, oldest
    /// first.
    pub fn scroll_wheel_delta(&self) -> (steps: &Vec<Scalar>)
        ensures
            steps@ == self@.scroll_wheel_delta,
    {
        &self.scroll_wheel_delta
    }

    pub fn move_speed(&self) -> (s: Scalar)
        ensures
            s == self@.move_speed,
    {
        self.move_speed
    }

    pub fn look_speed(&self) -> (s: Scalar)
        ensures
            s == self@.look_speed,
    {
        self.look_speed
    }

    pub fn move_forward(&self) -> (held: bool)
        ensures
            held == self@.move_forward,
    {
        self.move_forward
    }

    pub fn move_backward(&self) -> (held: bool)
        ensures
            held == self@.move_backward,
    {
        self.move_backward
    }

    pub fn move_left(&self) -> (held: bool)
        ensures
            held == self@.move_left,
    {
        self.move_left
    }

    pub fn move_right(&self) -> (held: bool)
        ensures
            held == self@.move_right,
    {
        self.move_right
    }

    pub fn pitch_deg(&self) -> (s: Scalar)
        ensures
            s == self@.pitch_deg,
    {
        self.pitch_deg
    }

    pub fn yaw_deg(&self) -> (s: Scalar)
        ensures
            s == self@.yaw_deg,
    {
        self.yaw_deg
    }

    pub fn fov_y(&self) -> (s: Scalar)
        ensures
            s == self@.fov_y,
    {
        self.fov_y
    }

    /// Applies the held keys and the collected input to the camera and
    /// forgets the collected input. The keys stay held.
    ///
    /// `step` holds what the host has computed from the controller. The
    /// pitch is kept between -90 and 89 degrees and the field of view
    /// between 1 and 60 degrees.
    pub fn update_camera(&mut self, camera: &mut Camera, step: &FreeLookStep)
        ensures
            final(camera)@ == (CameraState {
                eye: step.eye,
                target: FreeLookView::look(*step).target,
                up: FreeLookView::look(*step).up,
                fov_y: FreeLookView::kept_fov_radians(*step),
                ..old(camera)@
            }),
            final(self)@ == (FreeLookView {
                yaw_deg: step.yaw_deg,
                pitch_deg: FreeLookView::kept_pitch(step.pitch_deg),
                fov_y: FreeLookView::kept_fov(step.fov_deg),
                mouse_delta: Seq::empty(),
                scroll_wheel_delta: Seq::empty(),
                ..old(self)@
            }),
    {
        // Handle mouse look.
        self.yaw_deg = step.yaw_deg;
        let upper = Scalar::from_bits(PITCH_UPPER_BITS);
        let look = if upper.less_than(step.pitch_deg) {
            self.pitch_deg = upper;
            step.look_at_upper
        } else if step.pitch_deg.less_than(Scalar::from_bits(PITCH_LOWER_BITS)) {
            self.pitch_deg = Scalar::from_bits(PITCH_LOWER_REPLACEMENT_BITS);
            step.look_at_lower
        } else {
            self.pitch_deg = step.pitch_deg;
            step.look_free
        };
        camera.reorient(step.eye, look.target, look.up);

        // Handle zoom in/out by adjusting the field of view.
        let fov_min = Scalar::from_bits(FOV_MIN_BITS);
        let fov_max = Scalar::from_bits(FOV_MAX_BITS);
        let fov_radians = if step.fov_deg.less_than(fov_min) {
            self.fov_y = fov_min;
            Scalar::from_bits(FOV_MIN_RADIANS_BITS)
        } else if fov_max.less_than(step.fov_deg) {
            self.fov_y = fov_max;
            Scalar::from_bits(FOV_MAX_RADIANS_BITS)
        } else {
            self.fov_y = step.fov_deg;
            step.fov_radians
        };
        camera.set_fov_y(fov_radians);

        // Reset mouse state.
        self.mouse_delta.clear();
        self.scroll_wheel_delta.clear();
    }
}

impl CameraController for FreeLookCameraController {
    type Step = FreeLookStep;

    open spec fn pending(&self) -> nat {
        self@.mouse_delta.len() + self@.scroll_wheel_delta.len()
    }

    fn process_input(&mut self, event: &WindowEvent) -> (used: bool)
        ensures
            used == (match *event {
                WindowEvent::KeyboardInput {
                    physical_key,
                    is_escape,
                    state,
                } => FreeLookCameraController::is_move_key(physical_key),
                _ => false,
            }),
            final(self)@ == (match *event {
                WindowEvent::KeyboardInput {
                    physical_key,
                    is_escape,
                    state,
                } => FreeLookCameraController::after_key(
                    old(self)@,
                    physical_key,
                    state == ElementState::Pressed,
                ),
                _ => old(self)@,
            }),
    {
        FreeLookCameraController::process_input(self, event)
    }

    fn process_mouse_motion(&mut self, delta: Vec2)
        ensures
            final(self)@ == (FreeLookView {
                mouse_delta: old(self)@.mouse_delta.push(delta),
                ..old(self)@
            }),
    {
        FreeLookCameraController::process_mouse_motion(self, delta)
    }

    fn process_mouse_wheel(&mut self, delta: Vec2)
        ensures
            final(self)@ == (FreeLookView {
                scroll_wheel_delta: old(self)@.scroll_wheel_delta.push(delta.x),
                ..old(self)@
            }),
    {
        FreeLookCameraController::process_mouse_wheel(self, delta)
    }

    fn update_camera(&mut self, camera: &mut Camera, step: &FreeLookStep)
        ensures
            final(camera)@ == (CameraState {
                eye: step.eye,
                target: FreeLookView::look(*step).target,
                up: FreeLookView::look(*step).up,
                fov_y: FreeLookView::kept_fov_radians(*step),
                ..old(camera)@
            }),
            final(self)@ == (FreeLookView {
                yaw_deg: step.yaw_deg,
                pitch_deg: FreeLookView::kept_pitch(step.pitch_deg),
                fov_y: FreeLookView::kept_fov(step.fov_deg),
                mouse_delta: Seq::empty(),
                scroll_wheel_delta: Seq::empty(),
                ..old(self)@
            }),
    {
        FreeLookCameraController::update_camera(self, camera, step)
    }
}

} // verus!
