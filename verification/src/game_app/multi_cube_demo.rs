//! A demo: ten crates, lit by a handful of lights, seen through a camera
//! that the mouse moves.
use vstd::prelude::*;
use std::rc::Rc;
use crate::camera::Camera;
use crate::camera::CameraState;
use crate::gameplay::ArcballCameraController;
use crate::gameplay::ArcballStep;
use crate::gameplay::ArcballView;
use crate::gameplay::FreeLookCameraController;
use crate::gameplay::FreeLookStep;
use crate::gameplay::FreeLookView;
use crate::input::KeyCode;
use crate::input::WindowEvent;
use crate::math::Quat;
use crate::math::Scalar;
use crate::math::Vec2;
use crate::math::Vec3;
use crate::renderer::lighting::DirectionalLight;
use crate::renderer::lighting::LightAttenuation;
use crate::renderer::lighting::PointLight;
use crate::renderer::lighting::SpotLight;
use crate::renderer::models::share_mesh;
use crate::renderer::models::Mesh;
use crate::renderer::models::ModelView;
use crate::renderer::scene::Scene;
use crate::renderer::Renderer;
use crate::renderer::MAX_MODELS;

verus! {

/// The camera controller that has the input.
#[derive(Clone, Copy, Debug, PartialEq, Eq, Structural)]
pub enum CameraControllerType {
    Arcball,
    Freelook,
}

/// What the host has computed for the controller that has the input.
#[derive(Clone, Copy, Debug, PartialEq, Eq, Structural)]
pub enum ControllerStep {
    Arcball { arcball: ArcballStep },
    Freelook { freelook: FreeLookStep },
}

/// The number of crates.
pub const CUBE_COUNT: usize = 10;

/// Where the crates start out, by the bit patterns of x, y and z:
/// `(0, 0, 0)`, `(2, 5, -15)`, `(-1.5, -2.2, -2.5)`, `(-3.8, -2, -12.3)`,
/// `(2.4, -0.4, -3.5)`, `(-1.7, 3, 7.5)`, `(1.3, -2, -2.5)`,
/// `(1.5, 2, -2.5)`, `(1.5, 0.2, -1.5)` and `(-1.3, 1, -1.5)`.
pub const INITIAL_CUBE_POS: [[u32; 3]; 10] = [
    [0, 0, 0],
    [0x4000_0000, 0x40a0_0000, 0xc170_0000],
    [0xbfc0_0000, 0xc00c_cccd, 0xc020_0000],
    [0xc073_3333, 0xc000_0000, 0xc144_cccd],
    [0x4019_999a, 0xbecc_cccd, 0xc060_0000],
    [0xbfd9_999a, 0x4040_0000, 0x40f0_0000],
    [0x3fa6_6666, 0xc000_0000, 0xc020_0000],
    [0x3fc0_0000, 0x4000_0000, 0xc020_0000],
    [0x3fc0_0000, 0x3e4c_cccd, 0xbfc0_0000],
    [0xbfa6_6666, 0x3f80_0000, 0xbfc0_0000],
];

/// The point lights, by the bit patterns of position, colour, attenuation
/// (constant, linear, quadratic), ambient and specular modifier. The
/// first is a dim white light at `(1.2, 1, 2)`; the others are red,
/// orange and blue.
pub const POINT_LIGHTS: [[u32; 11]; 4] = [
    [
        0x3f99_999a, 0x3f80_0000, 0x4000_0000, 0x3f4c_cccd, 0x3f4c_cccd, 0x3f4c_cccd, 0x3f80_0000,
        0x3e4c_cccd, 0x3c23_d70a, 0x3d2e_147b, 0x3f80_0000,
    ],
    [
        0xc080_0000, 0x4000_0000, 0xc140_0000, 0x3f80_0000, 0, 0, 0x3f80_0000, 0x3e4c_cccd,
        0x3cf5_c28f, 0, 0x3f80_0000,
    ],
    [
        0x3f33_3333, 0x3e4c_cccd, 0x4000_0000, 0x3f80_0000, 0x3f00_0000, 0, 0x3f80_0000,
        0x3e4c_cccd, 0x3cf5_c28f, 0, 0x3f80_0000,
    ],
    [
        0x4013_3333, 0xc053_3333, 0xc080_0000, 0, 0, 0x3f80_0000, 0x3f80_0000, 0x3e4c_cccd,
        0x3cf5_c28f, 0, 0x3f80_0000,
    ],
];

/// The directional light, by the bit patterns of direction `(0, -1, 0)`,
/// colour `(0.3, 0.3, 0.3)`, ambient modifier 0.01 and specular modifier
/// 0.2.
pub const DIRECTIONAL_LIGHT: [u32; 8] = [
    0, 0xbf80_0000, 0, 0x3e99_999a, 0x3e99_999a, 0x3e99_999a, 0x3c23_d70a, 0x3e4c_cccd,
];

/// The spot light, by the bit patterns of position and direction (both
/// zero until the light follows the camera), the cut off angles of 12.5
/// and 17.5 degrees in radians, colour `(0.8, 0.8, 0.8)`, attenuation
/// `(1, 0.09, 0.032)`, ambient modifier 0.01 and specular modifier 1.
pub const SPOT_LIGHT: [u32; 16] = [
    0, 0, 0, 0, 0, 0, 0x3e5f_66f6, 0x3e9c_61a9, 0x3f4c_cccd, 0x3f4c_cccd, 0x3f4c_cccd,
    0x3f80_0000, 0x3db8_51ec, 0x3d03_126f, 0x3c23_d70a, 0x3f80_0000,
];

/// The vector whose lanes have the bit patterns `x`, `y` and `z`.
pub open spec fn vec3_of(x: u32, y: u32, z: u32) -> Vec3 {
    Vec3 { x: Scalar { bits: x }, y: Scalar { bits: y }, z: Scalar { bits: z } }
}

fn vec3_from_bits(x: u32, y: u32, z: u32) -> (v: Vec3)
    ensures
        v == vec3_of(x, y, z),
{
    Vec3::new(Scalar::from_bits(x), Scalar::from_bits(y), Scalar::from_bits(z))
}

/// Where the crate with the number `i` starts out.
pub open spec fn cube_position(i: int) -> Vec3 {
    vec3_of(INITIAL_CUBE_POS[i][0], INITIAL_CUBE_POS[i][1], INITIAL_CUBE_POS[i][2])
}

/// The point light that a row of `POINT_LIGHTS` holds.
pub open spec fn point_light_of(row: [u32; 11]) -> PointLight {
    PointLight {
        position: vec3_of(row[0], row[1], row[2]),
        color: vec3_of(row[3], row[4], row[5]),
        attenuation: LightAttenuation {
            constant: Scalar { bits: row[6] },
            linear: Scalar { bits: row[7] },
            quadratic: Scalar { bits: row[8] },
        },
        ambient: Scalar { bits: row[9] },
        specular: Scalar { bits: row[10] },
    }
}

/// The point lights of the demo.
pub open spec fn demo_point_lights() -> Seq<PointLight> {
    Seq::new(4, |i: int| point_light_of(POINT_LIGHTS[i]))
}

/// The directional light of the demo.
pub open spec fn demo_directional_light() -> DirectionalLight {
    DirectionalLight {
        direction: vec3_of(DIRECTIONAL_LIGHT[0], DIRECTIONAL_LIGHT[1], DIRECTIONAL_LIGHT[2]),
        color: vec3_of(DIRECTIONAL_LIGHT[3], DIRECTIONAL_LIGHT[4], DIRECTIONAL_LIGHT[5]),
        ambient: Scalar { bits: DIRECTIONAL_LIGHT[6] },
        specular: Scalar { bits: DIRECTIONAL_LIGHT[7] },
    }
}

/// The spot light of the demo.
pub open spec fn demo_spot_light() -> SpotLight {
    SpotLight {
        position: vec3_of(SPOT_LIGHT[0], SPOT_LIGHT[1], SPOT_LIGHT[2]),
        direction: vec3_of(SPOT_LIGHT[3], SPOT_LIGHT[4], SPOT_LIGHT[5]),
        cutoff_radians: Scalar { bits: SPOT_LIGHT[6] },
        outer_cutoff_radians: Scalar { bits: SPOT_LIGHT[7] },
        color: vec3_of(SPOT_LIGHT[8], SPOT_LIGHT[9], SPOT_LIGHT[10]),
        attenuation: LightAttenuation {
            constant: Scalar { bits: SPOT_LIGHT[11] },
            linear: Scalar { bits: SPOT_LIGHT[12] },
            quadratic: Scalar { bits: SPOT_LIGHT[13] },
        },
        ambient: Scalar { bits: SPOT_LIGHT[14] },
        specular: Scalar { bits: SPOT_LIGHT[15] },
    }
}

/// Every point light of the demo keeps its modifiers between zero and
/// one.
pub proof fn lemma_demo_point_lights_in_range()
    ensures
        forall|i: int| 0 <= i < 4 ==> (#[trigger] demo_point_lights()[i]).in_range(),
{
    assert forall|i: int| 0 <= i < 4 implies (#[trigger] demo_point_lights()[i]).in_range() by {
        if i == 0 {
            assert(point_light_of(POINT_LIGHTS[0]).in_range());
        }
        if i == 1 {
            assert(point_light_of(POINT_LIGHTS[1]).in_range());
        }
        if i == 2 {
            assert(point_light_of(POINT_LIGHTS[2]).in_range());
        }
        if i == 3 {
            assert(point_light_of(POINT_LIGHTS[3]).in_range());
        }
    }
}

/// The demo: two camera controllers, one of which has the input, and the
/// scene.
pub struct MultiCubeDemo {
    arcball: ArcballCameraController,
    freelook: FreeLookCameraController,
    camera_type: CameraControllerType,
    scene: Scene,
}

impl MultiCubeDemo {
    /// The arcball controller.
    pub closed spec fn arcball_view(&self) -> ArcballView {
        self.arcball@
    }

    /// The free look controller.
    pub closed spec fn freelook_view(&self) -> FreeLookView {
        self.freelook@
    }

    /// The controller that has the input.
    pub closed spec fn controller(&self) -> CameraControllerType {
        self.camera_type
    }

    /// The scene.
    pub closed spec fn scene_spec(&self) -> Scene {
        self.scene
    }

    /// The other controller.
    pub open spec fn other(camera_type: CameraControllerType) -> CameraControllerType {
        match camera_type {
            CameraControllerType::Arcball => CameraControllerType::Freelook,
            CameraControllerType::Freelook => CameraControllerType::Arcball,
        }
    }

    /// A demo with an empty scene; the arcball controller has the input.
    pub fn new() -> (demo: Self)
        ensures
            demo.controller() == CameraControllerType::Arcball,
            demo.scene_spec().models@.len() == 0,
            demo.scene_spec().point_lights@.len() == 0,
            demo.scene_spec().directional_lights@.len() == 0,
            demo.scene_spec().spot_lights@.len() == 0,
            demo.arcball_view() == ArcballView::initial(),
            demo.freelook_view() == FreeLookView::initial(),
    {
        MultiCubeDemo {
            arcball: ArcballCameraController::new(),
            freelook: FreeLookCameraController::new(),
            camera_type: CameraControllerType::Arcball,
            scene: Scene {
                point_lights: Vec::new(),
                directional_lights: Vec::new(),
                spot_lights: Vec::new(),
                models: Vec::new(),
            },
        }
    }

    /// The controller that has the input.
    pub fn camera_type(&self) -> (camera_type: CameraControllerType)
        ensures
            camera_type == self.controller(),
    {
        self.camera_type
    }

    /// The arcball controller.
    pub fn arcball(&self) -> (controller: &ArcballCameraController)
        ensures
            controller@ == self.arcball_view(),
    {
        &self.arcball
    }

    /// The free look controller.
    pub fn freelook(&self) -> (controller: &FreeLookCameraController)
        ensures
            controller@ == self.freelook_view(),
    {
        &self.freelook
    }

    /// Returns the render scene for the game app.
    pub fn render_scene(&self) -> (scene: &Scene)
        ensures
            *scene == self.scene_spec(),
    {
        &self.scene
    }

    /// The render scene, to draw it or to change it. Nothing else in the
    /// demo changes.
    pub fn render_scene_mut(&mut self) -> (scene: &mut Scene)
        ensures
            *scene == old(self).scene_spec(),
            final(self).scene_spec() == *final(scene),
            final(self).controller() == old(self).controller(),
            final(self).arcball_view() == old(self).arcball_view(),
            final(self).freelook_view() == old(self).freelook_view(),
    {
        &mut self.scene
    }

    /// Called anytime there is a new input event from the host. Releasing
    /// the C key hands the input to the other controller. The event then
    /// goes to the controller that has the input; returns whether that
    /// controller used it.
    pub fn input(&mut self, event: &WindowEvent) -> (used: bool)
        ensures
            final(self).controller() == if event.is_release_of(KeyCode::KeyC) {
                Self::other(old(self).controller())
            } else {
                old(self).controller()
            },
            final(self).scene_spec() == old(self).scene_spec(),
            final(self).controller() is Arcball ==> {
                &&& used == (*event matches WindowEvent::MouseInput {
                    button: crate::input::MouseButton::Left,
                    ..
                })
                &&& final(self).arcball_view() == (match *event {
                    WindowEvent::MouseInput {
                        button: crate::input::MouseButton::Left,
                        state,
                    } => ArcballView {
                        allow_mouse_look: state == crate::input::ElementState::Pressed,
                        ..old(self).arcball_view()
                    },
                    _ => old(self).arcball_view(),
                })
                &&& final(self).freelook_view() == old(self).freelook_view()
            },
            final(self).controller() is Freelook ==> {
                &&& used == (match *event {
                    WindowEvent::KeyboardInput {
                        physical_key,
                        is_escape,
                        state,
                    } => FreeLookCameraController::is_move_key(physical_key),
                    _ => false,
                })
                &&& final(self).freelook_view() == (match *event {
                    WindowEvent::KeyboardInput {
                        physical_key,
                        is_escape,
                        state,
                    } => FreeLookCameraController::after_key(
                        old(self).freelook_view(),
                        physical_key,
                        state == crate::input::ElementState::Pressed,
                    ),
                    _ => old(self).freelook_view(),
                })
                &&& final(self).arcball_view() == old(self).arcball_view()
            },
    {
        if event.releases(KeyCode::KeyC) {
            self.camera_type = match self.camera_type {
                CameraControllerType::Arcball => CameraControllerType::Freelook,
                CameraControllerType::Freelook => CameraControllerType::Arcball,
            };
        }
        match self.camera_type {
            CameraControllerType::Arcball => self.arcball.process_input(event),
            CameraControllerType::Freelook => self.freelook.process_input(event),
        }
    }

    /// Called by the host when the user's mouse moves.
    pub fn mouse_motion(&mut self, delta_x: Scalar, delta_y: Scalar)
        ensures
            final(self).controller() == old(self).controller(),
            final(self).scene_spec() == old(self).scene_spec(),
            old(self).controller() is Arcball ==> {
                &&& final(self).arcball_view() == (ArcballView {
                    mouse_motion: if old(self).arcball_view().allow_mouse_look {
                        old(self).arcball_view().mouse_motion.push(Vec2 { x: delta_x, y: delta_y })
                    } else {
                        old(self).arcball_view().mouse_motion
                    },
                    ..old(self).arcball_view()
                })
                &&& final(self).freelook_view() == old(self).freelook_view()
            },
            old(self).controller() is Freelook ==> {
                &&& final(self).freelook_view() == (FreeLookView {
                    mouse_delta: old(self).freelook_view().mouse_delta.push(
                        Vec2 { x: delta_x, y: delta_y },
                    ),
                    ..old(self).freelook_view()
                })
                &&& final(self).arcball_view() == old(self).arcball_view()
            },
    {
        match self.camera_type {
            CameraControllerType::Arcball => self.arcball.process_mouse_motion(
                Vec2::new(delta_x, delta_y),
            ),
            CameraControllerType::Freelook => self.freelook.process_mouse_motion(
                Vec2::new(delta_x, delta_y),
            ),
        }
    }

    /// Called by the host when the user moves the scroll wheel. The
    /// controllers take the vertical step in the first lane and the
    /// horizontal step in the second.
    pub fn mouse_scroll_wheel(&mut self, delta_x: Scalar, delta_y: Scalar)
        ensures
            final(self).controller() == old(self).controller(),
            final(self).scene_spec() == old(self).scene_spec(),
            old(self).controller() is Arcball ==> {
                &&& final(self).arcball_view() == (ArcballView {
                    mouse_scroll: old(self).arcball_view().mouse_scroll.push(
                        Vec2 { x: delta_y, y: delta_x },
                    ),
                    ..old(self).arcball_view()
                })
                &&& final(self).freelook_view() == old(self).freelook_view()
            },
            old(self).controller() is Freelook ==> {
                &&& final(self).freelook_view() == (FreeLookView {
                    scroll_wheel_delta: old(self).freelook_view().scroll_wheel_delta.push(delta_y),
                    ..old(self).freelook_view()
                })
                &&& final(self).arcball_view() == old(self).arcball_view()
            },
    {
        match self.camera_type {
            CameraControllerType::Arcball => self.arcball.process_mouse_wheel(
                Vec2::new(delta_y, delta_x),
            ),
            CameraControllerType::Freelook => self.freelook.process_mouse_wheel(
                Vec2::new(delta_y, delta_x),
            ),
        }
    }

    /// Lets the controller that has the input move the camera. `step` must
    /// be for that controller; returns false, and changes nothing, where
    /// it is for the other one.
    pub fn update_camera(&mut self, camera: &mut Camera, step: &ControllerStep) -> (applied: bool)
        ensures
            final(self).controller() == old(self).controller(),
            final(self).scene_spec() == old(self).scene_spec(),
            applied == (match *step {
                ControllerStep::Arcball { arcball } => old(self).controller() is Arcball,
                ControllerStep::Freelook { freelook } => old(self).controller() is Freelook,
            }),
            !applied ==> {
                &&& final(camera)@ == old(camera)@
                &&& final(self).arcball_view() == old(self).arcball_view()
                &&& final(self).freelook_view() == old(self).freelook_view()
            },
            applied && step is Arcball ==> {
                &&& final(camera)@ == (CameraState {
                    eye: old(self).arcball_view().pose(step->arcball).eye,
                    up: old(self).arcball_view().pose(step->arcball).up,
                    ..old(camera)@
                })
                &&& final(self).arcball_view() == (ArcballView {
                    mouse_motion: Seq::empty(),
                    mouse_scroll: Seq::empty(),
                    ..old(self).arcball_view()
                })
                &&& final(self).freelook_view() == old(self).freelook_view()
            },
            applied && step is Freelook ==> {
                &&& final(camera)@ == (CameraState {
                    eye: step->freelook.eye,
                    target: FreeLookView::look(step->freelook).target,
                    up: FreeLookView::look(step->freelook).up,
                    fov_y: FreeLookView::kept_fov_radians(step->freelook),
                    ..old(camera)@
                })
                &&& final(self).freelook_view() == (FreeLookView {
                    yaw_deg: step->freelook.yaw_deg,
                    pitch_deg: FreeLookView::kept_pitch(step->freelook.pitch_deg),
                    fov_y: FreeLookView::kept_fov(step->freelook.fov_deg),
                    mouse_delta: Seq::empty(),
                    scroll_wheel_delta: Seq::empty(),
                    ..old(self).freelook_view()
                })
                &&& final(self).arcball_view() == old(self).arcball_view()
            },
    {
        match (self.camera_type, *step) {
            (CameraControllerType::Arcball, ControllerStep::Arcball { arcball }) => {
                self.arcball.update_camera(camera, &arcball);
                true
            },
            (CameraControllerType::Freelook, ControllerStep::Freelook { freelook }) => {
                self.freelook.update_camera(camera, &freelook);
                true
            },
            _ => false,
        }
    }

    /// Loads the content of the demo into the scene: a crate, drawn with
    /// `cube_mesh`, at each of the ten starting positions, neither rotated
    /// nor scaled, and behind them the directional light, the spot light
    /// and the four point lights.
    pub fn load_content(&mut self, renderer: &mut Renderer, cube_mesh: Rc<Mesh>)
        requires
            old(renderer).wf(),
            old(renderer).model_count() + CUBE_COUNT <= MAX_MODELS,
        ensures
            final(renderer).wf(),
            final(renderer).model_count() == old(renderer).model_count() + CUBE_COUNT,
            Renderer::same_sizes(old(renderer), final(renderer)),
            final(renderer).per_frame() == old(renderer).per_frame(),
            final(renderer).light_debug() == old(renderer).light_debug(),
            final(renderer).debug() == old(renderer).debug(),
            final(renderer).textures() == old(renderer).textures(),
            forall|id: u64|
                #![trigger old(renderer).model_vals().contains_key(id)]
                old(renderer).model_vals().contains_key(id) ==> final(
                    renderer
                ).model_vals().contains_key(id) && final(renderer).model_vals()[id] == old(
                    renderer
                ).model_vals()[id],
            final(self).controller() == old(self).controller(),
            final(self).arcball_view() == old(self).arcball_view(),
            final(self).freelook_view() == old(self).freelook_view(),
            final(self).scene_spec().models@.len() == old(self).scene_spec().models@.len()
                + CUBE_COUNT,
            forall|i: int|
                0 <= i < old(self).scene_spec().models@.len() ==> (#[trigger] final(
                    self
                ).scene_spec().models@[i]) == old(self).scene_spec().models@[i],
            forall|k: int|
                #![trigger final(self).scene_spec().models@[old(self).scene_spec().models@.len() + k]]
                0 <= k < CUBE_COUNT ==> {
                    let model = final(self).scene_spec().models@[old(self).scene_spec().models@.len() + k];
                    &&& model@ == (ModelView {
                        translation: cube_position(k),
                        rotation: Quat::identity_spec(),
                        scale: Vec3::splat_spec(0x3f80_0000),
                        model_sv_key: model@.model_sv_key,
                        dirty: true,
                        mesh: (*cube_mesh)@,
                    })
                    &&& !old(renderer).model_vals().contains_key(model@.model_sv_key.id())
                    &&& final(renderer).model_vals().contains_key(model@.model_sv_key.id())
                },
            final(self).scene_spec().directional_lights@ == old(
                self
            ).scene_spec().directional_lights@.push(demo_directional_light()),
            final(self).scene_spec().spot_lights@ == old(self).scene_spec().spot_lights@.push(
                demo_spot_light(),
            ),
            final(self).scene_spec().point_lights@ == old(self).scene_spec().point_lights@
                + demo_point_lights(),
            old(renderer).owns(&old(self).scene_spec()) ==> final(renderer).owns(
                &final(self).scene_spec(),
            ),
            old(renderer).owns(&old(self).scene_spec()) && old(self).scene_spec().keys_distinct()
                ==> final(self).scene_spec().keys_distinct(),
            old(self).scene_spec().point_lights_in_range() ==> final(
                self
            ).scene_spec().point_lights_in_range(),
    {
        let ghost models_before = self.scene.models@;
        let ghost first = self.scene.models@.len();
        let mut k: usize = 0;
        while k < CUBE_COUNT
            invariant
                0 <= k <= CUBE_COUNT,
                first == models_before.len(),
                models_before == old(self).scene_spec().models@,
                renderer.wf(),
                renderer.model_count() == old(renderer).model_count() + k,
                old(renderer).model_count() + CUBE_COUNT <= MAX_MODELS,
                Renderer::same_sizes(old(renderer), renderer),
                renderer.per_frame() == old(renderer).per_frame(),
                renderer.light_debug() == old(renderer).light_debug(),
                renderer.debug() == old(renderer).debug(),
                renderer.textures() == old(renderer).textures(),
                forall|id: u64|
                    #![trigger old(renderer).model_vals().contains_key(id)]
                    old(renderer).model_vals().contains_key(id) ==> renderer.model_vals().contains_key(
                        id,
                    ) && renderer.model_vals()[id] == old(renderer).model_vals()[id],
                self.camera_type == old(self).camera_type,
                self.arcball@ == old(self).arcball@,
                self.freelook@ == old(self).freelook@,
                self.scene.point_lights == old(self).scene.point_lights,
                self.scene.directional_lights == old(self).scene.directional_lights,
                self.scene.spot_lights == old(self).scene.spot_lights,
                self.scene.models@.len() == first + k,
                forall|i: int|
                    0 <= i < first ==> (#[trigger] self.scene.models@[i]) == models_before[i],
                forall|j: int|
                    #![trigger self.scene.models@[first + j]]
                    0 <= j < k ==> {
                        let model = self.scene.models@[first + j];
                        &&& model@ == (ModelView {
                            translation: cube_position(j),
                            rotation: Quat::identity_spec(),
                            scale: Vec3::splat_spec(0x3f80_0000),
                            model_sv_key: model@.model_sv_key,
                            dirty: true,
                            mesh: (*cube_mesh)@,
                        })
                        &&& !old(renderer).model_vals().contains_key(model@.model_sv_key.id())
                        &&& renderer.model_vals().contains_key(model@.model_sv_key.id())
                    },
                forall|a: int, b: int|
                    #![trigger self.scene.models@[first + a], self.scene.models@[first + b]]
                    0 <= a < b < k ==> self.scene.models@[first + a]@.model_sv_key.id()
                        != self.scene.models@[first + b]@.model_sv_key.id(),
            decreases CUBE_COUNT - k,
        {
            let row = &INITIAL_CUBE_POS[k];
            let ghost models_so_far = self.scene.models@;
            let ghost vals_so_far = renderer.model_vals();
            let model = renderer.create_model(
                share_mesh(&cube_mesh),
                vec3_from_bits(row[0], row[1], row[2]),
                Quat::identity(),
                Vec3::splat(Scalar::one()),
            );
            let ghost new_id = model@.model_sv_key.id();
            self.scene.models.push(model);
            proof {
                assert(renderer.model_vals().dom() == vals_so_far.dom().insert(new_id));
                assert forall|id: u64|
                    #![trigger old(renderer).model_vals().contains_key(id)]
                    old(renderer).model_vals().contains_key(id) implies renderer.model_vals().contains_key(
                    id,
                ) && renderer.model_vals()[id] == old(renderer).model_vals()[id] by {
                    assert(vals_so_far.contains_key(id));
                    assert(vals_so_far.dom().insert(new_id).contains(id));
                }
                if old(renderer).model_vals().contains_key(new_id) {
                    assert(vals_so_far.contains_key(new_id));
                }
                assert(self.scene.models@[first + k] == model);
                assert forall|i: int| 0 <= i < first implies (#[trigger] self.scene.models@[i])
                    == models_before[i] by {
                    assert(self.scene.models@[i] == models_so_far[i]);
                }
                assert forall|j: int|
                    #![trigger self.scene.models@[first + j]]
                    0 <= j < k + 1 implies {
                    let m = self.scene.models@[first + j];
                    &&& m@ == (ModelView {
                        translation: cube_position(j),
                        rotation: Quat::identity_spec(),
                        scale: Vec3::splat_spec(0x3f80_0000),
                        model_sv_key: m@.model_sv_key,
                        dirty: true,
                        mesh: (*cube_mesh)@,
                    })
                    &&& !old(renderer).model_vals().contains_key(m@.model_sv_key.id())
                    &&& renderer.model_vals().contains_key(m@.model_sv_key.id())
                } by {
                    if j < k {
                        assert(self.scene.models@[first + j] == models_so_far[first + j]);
                        assert(vals_so_far.contains_key(
                            models_so_far[first + j]@.model_sv_key.id(),
                        ));
                        assert(vals_so_far.dom().insert(new_id).contains(
                            models_so_far[first + j]@.model_sv_key.id(),
                        ));
                    } else {
                        assert(vals_so_far.dom().insert(new_id).contains(new_id));
                    }
                }
                assert forall|a: int, b: int|
                    #![trigger self.scene.models@[first + a], self.scene.models@[first + b]]
                    0 <= a < b < k + 1 implies self.scene.models@[first + a]@.model_sv_key.id()
                    != self.scene.models@[first + b]@.model_sv_key.id() by {
                    assert(self.scene.models@[first + a] == models_so_far[first + a]);
                    if b < k {
                        assert(self.scene.models@[first + b] == models_so_far[first + b]);
                    } else {
                        assert(vals_so_far.contains_key(
                            models_so_far[first + a]@.model_sv_key.id(),
                        ));
                    }
                }
            }
            k += 1;
        }

        let directional = &DIRECTIONAL_LIGHT;
        self.scene.directional_lights.push(
            DirectionalLight {
                direction: vec3_from_bits(directional[0], directional[1], directional[2]),
                color: vec3_from_bits(directional[3], directional[4], directional[5]),
                ambient: Scalar::from_bits(directional[6]),
                specular: Scalar::from_bits(directional[7]),
            },
        );
        let spot = &SPOT_LIGHT;
        self.scene.spot_lights.push(
            SpotLight {
                position: vec3_from_bits(spot[0], spot[1], spot[2]),
                direction: vec3_from_bits(spot[3], spot[4], spot[5]),
                cutoff_radians: Scalar::from_bits(spot[6]),
                outer_cutoff_radians: Scalar::from_bits(spot[7]),
                color: vec3_from_bits(spot[8], spot[9], spot[10]),
                attenuation: LightAttenuation {
                    constant: Scalar::from_bits(spot[11]),
                    linear: Scalar::from_bits(spot[12]),
                    quadratic: Scalar::from_bits(spot[13]),
                },
                ambient: Scalar::from_bits(spot[14]),
                specular: Scalar::from_bits(spot[15]),
            },
        );

        let ghost lights_before = self.scene.point_lights@;
        let mut n: usize = 0;
        while n < 4
            invariant
                0 <= n <= 4,
                first == models_before.len(),
                lights_before == old(self).scene.point_lights@,
                self.scene.point_lights@ == lights_before + demo_point_lights().take(n as int),
                self.scene.models@.len() == first + CUBE_COUNT,
                self.camera_type == old(self).camera_type,
                self.arcball@ == old(self).arcball@,
                self.freelook@ == old(self).freelook@,
                self.scene.directional_lights@ == old(self).scene.directional_lights@.push(
                    demo_directional_light(),
                ),
                self.scene.spot_lights@ == old(self).scene.spot_lights@.push(demo_spot_light()),
                forall|i: int|
                    0 <= i < first ==> (#[trigger] self.scene.models@[i]) == models_before[i],
                forall|j: int|
                    #![trigger self.scene.models@[first + j]]
                    0 <= j < CUBE_COUNT ==> {
                        let model = self.scene.models@[first + j];
                        &&& model@ == (ModelView {
                            translation: cube_position(j),
                            rotation: Quat::identity_spec(),
                            scale: Vec3::splat_spec(0x3f80_0000),
                            model_sv_key: model@.model_sv_key,
                            dirty: true,
                            mesh: (*cube_mesh)@,
                        })
                        &&& !old(renderer).model_vals().contains_key(model@.model_sv_key.id())
                        &&& renderer.model_vals().contains_key(model@.model_sv_key.id())
                    },
                forall|a: int, b: int|
                    #![trigger self.scene.models@[first + a], self.scene.models@[first + b]]
                    0 <= a < b < CUBE_COUNT ==> self.scene.models@[first + a]@.model_sv_key.id()
                        != self.scene.models@[first + b]@.model_sv_key.id(),
            decreases 4 - n,
        {
            let row = &POINT_LIGHTS[n];
            let light = PointLight {
                position: vec3_from_bits(row[0], row[1], row[2]),
                color: vec3_from_bits(row[3], row[4], row[5]),
                attenuation: LightAttenuation {
                    constant: Scalar::from_bits(row[6]),
                    linear: Scalar::from_bits(row[7]),
                    quadratic: Scalar::from_bits(row[8]),
                },
                ambient: Scalar::from_bits(row[9]),
                specular: Scalar::from_bits(row[10]),
            };
            assert(light == demo_point_lights()[n as int]);
            self.scene.point_lights.push(light);
            assert(self.scene.point_lights@ =~= lights_before + demo_point_lights().take(n + 1));
            n += 1;
        }
        proof {
            assert(demo_point_lights().take(4) =~= demo_point_lights());
            lemma_demo_point_lights_in_range();
            let after = final(self).scene_spec();
            let before = old(self).scene_spec();
            if old(renderer).owns(&before) {
                assert forall|i: int| 0 <= i < after.models@.len() implies final(
                    renderer
                ).model_vals().contains_key((#[trigger] after.models@[i])@.model_sv_key.id()) by {
                    if i < first {
                        assert(after.models@[i] == before.models@[i]);
                    } else {
                        assert(after.models@[first + (i - first)] == after.models@[i]);
                    }
                }
                if before.keys_distinct() {
                    assert forall|i: int, j: int| 0 <= i < j < after.models@.len() implies (
                    #[trigger] after.models@[i])@.model_sv_key.id() != (
                    #[trigger] after.models@[j])@.model_sv_key.id() by {
                        if j < first {
                            assert(after.models@[i] == before.models@[i]);
                            assert(after.models@[j] == before.models@[j]);
                        } else if i < first {
                            assert(after.models@[i] == before.models@[i]);
                            assert(after.models@[first + (j - first)] == after.models@[j]);
                        } else {
                            assert(after.models@[first + (i - first)] == after.models@[i]);
                            assert(after.models@[first + (j - first)] == after.models@[j]);
                        }
                    }
                }
            }
            if before.point_lights_in_range() {
                assert forall|i: int| 0 <= i < after.point_lights@.len() implies (
                #[trigger] after.point_lights@[i]).in_range() by {
                    if i < before.point_lights@.len() {
                        assert(after.point_lights@[i] == before.point_lights@[i]);
                    } else {
                        assert(after.point_lights@[i] == demo_point_lights()[i
                            - before.point_lights@.len()]);
                    }
                }
            }
        }
    }

    /// Whether the scene has the lights that follow the camera and the
    /// clock: a spot light and a point light.
    pub open spec fn has_moving_lights(&self) -> bool {
        self.scene_spec().spot_lights@.len() > 0 && self.scene_spec().point_lights@.len() > 0
    }

    /// Computes `has_moving_lights`.
    pub fn is_loaded(&self) -> (r: bool)
        ensures
            r == self.has_moving_lights(),
    {
        self.scene.spot_lights.len() > 0 && self.scene.point_lights.len() > 0
    }

    /// Moves the lights that move: the first spot light sits at the
    /// camera's `eye` and points along `forward`, and the first point
    /// light goes to `light_position`.
    pub fn move_lights(&mut self, eye: Vec3, forward: Vec3, light_position: Vec3)
        requires
            old(self).has_moving_lights(),
        ensures
            final(self).controller() == old(self).controller(),
            final(self).arcball_view() == old(self).arcball_view(),
            final(self).freelook_view() == old(self).freelook_view(),
            final(self).scene_spec().models == old(self).scene_spec().models,
            final(self).scene_spec().directional_lights == old(self).scene_spec().directional_lights,
            final(self).scene_spec().spot_lights@ == old(self).scene_spec().spot_lights@.update(
                0,
                SpotLight { position: eye, direction: forward, ..old(self).scene_spec().spot_lights@[0] },
            ),
            final(self).scene_spec().point_lights@ == old(self).scene_spec().point_lights@.update(
                0,
                PointLight { position: light_position, ..old(self).scene_spec().point_lights@[0] },
            ),
    {
        let mut spot = self.scene.spot_lights[0];
        spot.position = eye;
        spot.direction = forward;
        self.scene.spot_lights[0] = spot;
        let mut point = self.scene.point_lights[0];
        point.position = light_position;
        self.scene.point_lights[0] = point;
    }
}

} // verus!
