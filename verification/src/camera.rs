//! The camera through which a scene is viewed.
use vstd::prelude::*;
use crate::math::Scalar;
use crate::math::Vec3;

verus! {

/// What a camera holds.
#[derive(Clone, Copy, Debug, PartialEq, Eq, Structural)]
pub struct CameraState {
    /// The position of the camera in world space.
    pub eye: Vec3,
    /// The target position the camera should look at.
    pub target: Vec3,
    /// The camera's up direction.
    pub up: Vec3,
    /// A world space direction vector indicating which direction is
    /// considered straight up.
    pub world_up: Vec3,
    /// The vertical field of view for the camera, in radians.
    pub fov_y: Scalar,
    /// The minimum camera view distance.
    pub z_near: Scalar,
    /// The maximum camera view distance.
    pub z_far: Scalar,
    /// The viewport width in pixels.
    pub viewport_width: u32,
    /// The viewport height in pixels.
    pub viewport_height: u32,
}

impl CameraState {
    /// The ratio of the viewport width to its height, as numerator and
    /// denominator; none while either is zero.
    pub open spec fn aspect(self) -> Option<(u32, u32)> {
        if self.viewport_width > 0 && self.viewport_height > 0 {
            Some((self.viewport_width, self.viewport_height))
        } else {
            None
        }
    }
}

/// Camera assumes a right-handed system with the +Z axis going _out_ of the
/// screen rather than in.
///
/// The camera keeps its pose, its lens and the size of its viewport. The
/// matrices that follow from them are the host's to compute.
pub struct Camera {
    state: CameraState,
}

/// A viewport size that a camera does not take: the width and the height
/// that were asked for, one of them zero.
#[derive(Clone, Copy, Debug, PartialEq, Eq, Structural)]
pub struct InvalidCameraSize(pub u32, pub u32);

impl View for Camera {
    type V = CameraState;

    closed spec fn view(&self) -> CameraState {
        self.state
    }
}

impl Camera {
    /// The lens and the pose that `new` takes: a field of view above zero,
    /// a near plane at zero or beyond, a far plane beyond the near plane,
    /// and an eye that is not at the target.
    pub open spec fn accepts(
        eye: Vec3,
        target: Vec3,
        fov_y: Scalar,
        z_near: Scalar,
        z_far: Scalar,
    ) -> bool {
        &&& (Scalar { bits: 0 }).lt(fov_y)
        &&& (Scalar { bits: 0 }).le(z_near)
        &&& z_near.lt(z_far)
        &&& !eye.same_value(target)
    }

    /// Computes `accepts`.
    pub fn is_accepted(
        eye: Vec3,
        target: Vec3,
        fov_y: Scalar,
        z_near: Scalar,
        z_far: Scalar,
    ) -> (r: bool)
        ensures
            r == Self::accepts(eye, target, fov_y, z_near, z_far),
    {
        Scalar::zero().less_than(fov_y) && Scalar::zero().less_or_equal(z_near) && z_near.less_than(
            z_far,
        ) && !eye.equals_value(target)
    }

    /// Create a new camera centered at `eye` with the center of the view
    /// aiming at `target` and `unit_up`, a vector of unit length, as both
    /// the camera's and the world's upward direction.
    pub fn new(
        eye: Vec3,
        target: Vec3,
        unit_up: Vec3,
        fov_y: Scalar,
        z_near: Scalar,
        z_far: Scalar,
        viewport_width: u32,
        viewport_height: u32,
    ) -> (camera: Self)
        requires
            Self::accepts(eye, target, fov_y, z_near, z_far),
        ensures
            camera@ == (CameraState {
                eye,
                target,
                up: unit_up,
                world_up: unit_up,
                fov_y,
                z_near,
                z_far,
                viewport_width,
                viewport_height,
            }),
    {
        Camera {
            state: CameraState {
                eye,
                target,
                up: unit_up,
                world_up: unit_up,
                fov_y,
                z_near,
                z_far,
                viewport_width,
                viewport_height,
            },
        }
    }

    /// Reorient the camera to be located at `new_eye` and look at
    /// `new_target`, with `new_up` as its up direction. Both points are in
    /// world space.
    pub fn reorient(&mut self, new_eye: Vec3, new_target: Vec3, new_up: Vec3)
        ensures
            final(self)@ == (CameraState {
                eye: new_eye,
                target: new_target,
                up: new_up,
                ..old(self)@
            }),
    {
        self.state.eye = new_eye;
        self.state.target = new_target;
        self.state.up = new_up;
    }

    /// Set the vertical field of view, in radians.
    pub fn set_fov_y(&mut self, fov_y: Scalar)
        ensures
            final(self)@ == (CameraState { fov_y, ..old(self)@ }),
    {
        self.state.fov_y = fov_y;
    }

    /// Resize the camera's viewport. A size with a zero in it is refused
    /// and leaves the camera as it was.
    pub fn set_viewport_size(&mut self, new_width: u32, new_height: u32) -> (r: Result<
        (),
        InvalidCameraSize,
    >)
        ensures
            r is Ok <==> new_width > 0 && new_height > 0,
            r is Ok ==> final(self)@ == (CameraState {
                viewport_width: new_width,
                viewport_height: new_height,
                ..old(self)@
            }),
            r is Ok ==> final(self)@.aspect() == Some((new_width, new_height)),
            r is Err ==> final(self)@ == old(self)@,
            r is Err ==> r->Err_0 == InvalidCameraSize(new_width, new_height),
    {
        if new_width > 0 && new_height > 0 {
            self.state.viewport_width = new_width;
            self.state.viewport_height = new_height;
            Ok(())
        } else {
            Err(InvalidCameraSize(new_width, new_height))
        }
    }

    /// The ratio of the viewport width to its height, as numerator and
    /// denominator; none while either is zero.
    pub fn aspect_ratio(&self) -> (r: Option<(u32, u32)>)
        ensures
            r == self@.aspect(),
    {
        if self.state.viewport_width > 0 && self.state.viewport_height > 0 {
            Some((self.state.viewport_width, self.state.viewport_height))
        } else {
            None
        }
    }

    /// Get the position of the camera in world space.
    pub fn eye(&self) -> (v: Vec3)
        ensures
            v == self@.eye,
    {
        self.state.eye
    }

    /// Get the point at which the camera is focused on.
    pub fn target(&self) -> (v: Vec3)
        ensures
            v == self@.target,
    {
        self.state.target
    }

    /// Get the camera's up axis.
    pub fn up(&self) -> (v: Vec3)
        ensures
            v == self@.up,
    {
        self.state.up
    }

    /// Get the world up axis (not the camera's up axis).
    pub fn world_up(&self) -> (v: Vec3)
        ensures
            v == self@.world_up,
    {
        self.state.world_up
    }

    /// Get the vertical field of view, in radians.
    pub fn fov_y(&self) -> (s: Scalar)
        ensures
            s == self@.fov_y,
    {
        self.state.fov_y
    }

    /// Get the near plane distance.
    pub fn z_near(&self) -> (s: Scalar)
        ensures
            s == self@.z_near,
    {
        self.state.z_near
    }

    /// Get the far plane distance.
    pub fn z_far(&self) -> (s: Scalar)
        ensures
            s == self@.z_far,
    {
        self.state.z_far
    }

    /// Get the camera viewport width in pixels.
    pub fn viewport_width(&self) -> (w: u32)
        ensures
            w == self@.viewport_width,
    {
        self.state.viewport_width
    }

    /// Get the camera viewport height in pixels.
    pub fn viewport_height(&self) -> (h: u32)
        ensures
            h == self@.viewport_height,
    {
        self.state.viewport_height
    }
}

} // verus!
