//! The renderer: its per-frame resources and the order in which a frame is
//! prepared and drawn.
//!
//! A frame goes through four steps: resize where the window changed, input,
//! `prepare_render`, which brings every uniform block up to date and says
//! what has to be written to the GPU, and `render`, which says what is
//! drawn, pass by pass.
pub mod debug;
pub mod gpu_buffers;
pub mod instancing;
pub mod layout;
pub mod lighting;
pub mod materials;
pub mod meshes;
pub mod model_slots;
pub mod models;
pub mod passes;
pub mod scene;
pub mod shaders;
pub mod textures;

use vstd::prelude::*;
use std::rc::Rc;
use crate::camera::Camera;
use crate::camera::CameraState;
use crate::input::WindowEvent;
use crate::math::Mat4;
use crate::math::Quat;
use crate::math::Scalar;
use crate::math::Vec3;
use crate::renderer::debug::DebugState;
use crate::math::Vec4;
use crate::renderer::lighting::PointLight;
use crate::renderer::lighting::SpotCone;
use crate::renderer::materials::DefaultTextures;
use crate::renderer::model_slots::slot_contents;
use crate::renderer::model_slots::slot_span;
use crate::renderer::model_slots::slots_get;
use crate::renderer::model_slots::slots_get_mut;
use crate::renderer::model_slots::slots_insert;
use crate::renderer::model_slots::slots_new;
use crate::renderer::model_slots::ModelShaderValsKey;
use crate::renderer::model_slots::ModelShaderValsMap;
use crate::renderer::models::Mesh;
use crate::renderer::models::Model;
use crate::renderer::models::DrawModel;
use crate::renderer::models::ModelView;
use crate::renderer::passes::depth_pass::DepthPass;
use crate::renderer::passes::depth_pass::Extent;
use crate::renderer::passes::light_debug_pass::DebugMeshPackedInstance;
use crate::renderer::passes::light_debug_pass::LightDebugPass;
use crate::renderer::passes::light_debug_pass::LAMP_CAPACITY;
use crate::renderer::passes::BindGroupRef;
use crate::renderer::passes::DrawCommand;
use crate::renderer::passes::LoadOp;
use crate::renderer::passes::PassKind;
use crate::renderer::passes::RenderPass;
use crate::renderer::passes::SurfaceConfiguration;
use crate::renderer::scene::Scene;
use crate::renderer::shaders::PerFrameBlock;
use crate::renderer::shaders::PerFrameShaderVals;
use crate::renderer::shaders::PerModelBlock;
use crate::renderer::shaders::PerModelShaderVals;
use crate::renderer::shaders::PER_FRAME_GROUP;

verus! {

/// A size in physical pixels.
#[derive(Clone, Copy, Debug, PartialEq, Eq, Structural)]
pub struct PhysicalSize {
    pub width: u32,
    pub height: u32,
}

/// The two matrices that a model's uniforms hold.
#[derive(Clone, Copy, Debug, PartialEq, Eq, Structural)]
pub struct ModelMatrices {
    /// Scale, then rotation, then translation of the model.
    pub local_to_world: Mat4,
    /// The inverse of `local_to_world`.
    pub world_to_local: Mat4,
}

/// What arithmetic gives for one frame. The core does no arithmetic on
/// scalars: the host computes these values from the camera, the clock and
/// the scene and hands them over when it prepares a frame.
pub struct FrameMath {
    /// The time since the renderer started, in seconds.
    pub time_elapsed_seconds: Scalar,
    /// The camera's projection matrix times its view matrix.
    pub view_projection: Mat4,
    /// For each directional light of the scene, its direction scaled to
    /// unit length.
    pub directional_units: Vec<Vec3>,
    /// For each spot light of the scene, its cone.
    pub spot_cones: Vec<SpotCone>,
    /// For each model of the scene, its matrices. The entry of a model
    /// that is not dirty is not read.
    pub model_matrices: Vec<ModelMatrices>,
    /// For each point light of the scene, the matrix that places its
    /// marker: a fifth of unit scale, no rotation, the light's position.
    pub lamp_matrices: Vec<Mat4>,
}

impl FrameMath {
    /// There is one entry for each light and each model of `scene`.
    pub open spec fn fits(&self, scene: &Scene) -> bool {
        &&& self.directional_units@.len() == scene.directional_lights@.len()
        &&& self.spot_cones@.len() == scene.spot_lights@.len()
        &&& self.model_matrices@.len() == scene.models@.len()
        &&& self.lamp_matrices@.len() == scene.point_lights@.len()
    }

    /// Computes `fits`.
    pub fn is_fit(&self, scene: &Scene) -> (r: bool)
        ensures
            r == self.fits(scene),
    {
        self.directional_units.len() == scene.directional_lights.len() && self.spot_cones.len()
            == scene.spot_lights.len() && self.model_matrices.len() == scene.models.len()
            && self.lamp_matrices.len() == scene.point_lights.len()
    }
}

/// One write to a GPU buffer, at offset zero, of what the renderer holds
/// for that buffer on the CPU.
#[derive(Clone, Copy, Debug, PartialEq, Eq)]
pub enum Upload {
    /// The uniform block of the model whose shader values live under `key`.
    PerModel { key: ModelShaderValsKey },
    /// The instance records of the light markers.
    LampInstances,
    /// The per-frame uniform block.
    PerFrame,
}

/// The per-model block after a frame was prepared: the matrices of a
/// model that was dirty are replaced, and so are the point lights.
pub open spec fn prepared_model_block(
    before: PerModelBlock,
    was_dirty: bool,
    matrices: ModelMatrices,
    point_lights: Seq<PointLight>,
) -> PerModelBlock {
    let placed = if was_dirty {
        PerModelBlock {
            local_to_world: matrices.local_to_world,
            world_to_local: matrices.world_to_local,
            ..before
        }
    } else {
        before
    };
    placed.with_point_lights(point_lights)
}

/// The per-frame block after a frame was prepared for a camera at `eye`.
pub open spec fn prepared_frame_block(
    before: PerFrameBlock,
    eye: Vec3,
    scene: &Scene,
    math: &FrameMath,
) -> PerFrameBlock {
    (PerFrameBlock {
        time_elapsed_seconds: math.time_elapsed_seconds,
        view_projection: math.view_projection,
        view_pos: Vec4 { x: eye.x, y: eye.y, z: eye.z, w: Scalar { bits: 0x3f80_0000 } },
        ..before
    }).with_directional_lights(
        scene.directional_lights@,
        math.directional_units@,
    ).with_spot_lights(scene.spot_lights@, math.spot_cones@)
}

/// The writes that bring the GPU up to date for a frame, in order: one for
/// each model, one for the light markers where their records changed, and
/// last the one for the per-frame block.
pub open spec fn uploads_for(models: Seq<Model>, lamps_written: bool) -> Seq<Upload> {
    Seq::new(models.len(), |i: int| Upload::PerModel { key: models[i]@.model_sv_key }) + (
    if lamps_written {
        seq![Upload::LampInstances]
    } else {
        Seq::<Upload>::empty()
    }) + seq![Upload::PerFrame]
}

/// Whatever the scene, the per-frame block is written once, and that write
/// is the last one: every write before it is for a model or for the light
/// markers.
pub proof fn lemma_per_frame_written_once_and_last(models: Seq<Model>, lamps_written: bool)
    ensures
        uploads_for(models, lamps_written).len() == models.len() + if lamps_written {
            2int
        } else {
            1int
        },
        uploads_for(models, lamps_written).last() == Upload::PerFrame,
        forall|i: int|
            0 <= i < uploads_for(models, lamps_written).len() - 1 ==> (#[trigger] uploads_for(
                models,
                lamps_written,
            )[i]) != Upload::PerFrame,
        forall|i: int|
            0 <= i < models.len() ==> (#[trigger] uploads_for(models, lamps_written)[i])
                == (Upload::PerModel { key: models[i]@.model_sv_key }),
{
}

/// Why a surface did not hand out its next frame.
#[derive(Clone, Copy, Debug, PartialEq, Eq, Structural)]
pub enum SurfaceError {
    /// Acquiring the frame took too long.
    Timeout,
    /// The surface has changed and must be configured anew.
    Outdated,
    /// The surface was lost and must be made anew.
    Lost,
    /// There is no memory left.
    OutOfMemory,
}

/// What the host does for one frame: the buffer writes, and after them the
/// passes of the one command buffer that it submits and presents. Where
/// the surface did not hand out a frame, no pass is drawn and the error is
/// handed back.
pub struct Frame {
    pub uploads: Vec<Upload>,
    pub passes: Result<Vec<RenderPass>, SurfaceError>,
}

/// The commands of the main pass for the first `n` of `models`: bind the
/// per-frame uniforms in slot `PER_FRAME_GROUP`, then draw each model in
/// order.
pub open spec fn scene_commands(models: Seq<Model>, n: int) -> Seq<DrawCommand>
    decreases n,
{
    if n <= 0 {
        seq![DrawCommand::SetBindGroup { index: PER_FRAME_GROUP, bind_group: BindGroupRef::PerFrame }]
    } else {
        scene_commands(models, n - 1) + models[n - 1]@.commands()
    }
}

/// The most models that a renderer can make shader values for.
pub const MAX_MODELS: u32 = 0xffff_fffe;

/// What the host does after a resize that was taken: configure the surface
/// with the new size and make the depth texture anew.
#[derive(Clone, Copy, Debug, PartialEq, Eq, Structural)]
pub struct SurfaceUpdate {
    pub surface_config: SurfaceConfiguration,
    pub depth_extent: Extent,
}

/// The renderer's state between frames.
pub struct Renderer {
    default_textures: DefaultTextures,
    surface_config: SurfaceConfiguration,
    window_size: PhysicalSize,
    per_frame_uniforms: PerFrameShaderVals,
    depth_pass: DepthPass,
    light_debug_pass: LightDebugPass,
    debug_state: DebugState,
    camera: Camera,
    model_shader_vals: ModelShaderValsMap,
    models_created: u32,
}

/// The index of the surface format that the renderer asks for: the first
/// sRGB format, or the first format where none is sRGB. `formats_srgb`
/// says of each format that the surface offers whether it is sRGB.
pub fn preferred_surface_format(formats_srgb: &Vec<bool>) -> (index: usize)
    requires
        formats_srgb@.len() > 0,
    ensures
        index < formats_srgb@.len(),
        forall|i: int| 0 <= i < index ==> !formats_srgb@[i],
        formats_srgb@[index as int] || (index == 0 && forall|i: int|
            0 <= i < formats_srgb@.len() ==> !formats_srgb@[i]),
{
    let mut i: usize = 0;
    while i < formats_srgb.len()
        invariant
            0 <= i <= formats_srgb@.len(),
            forall|k: int| 0 <= k < i ==> !formats_srgb@[k],
        decreases formats_srgb@.len() - i,
    {
        if formats_srgb[i] {
            return i;
        }
        i += 1;
    }
    0
}

impl Renderer {
    /// The surface configuration.
    pub closed spec fn surface(&self) -> SurfaceConfiguration {
        self.surface_config
    }

    /// The size of the window.
    pub closed spec fn window(&self) -> PhysicalSize {
        self.window_size
    }

    /// The per-frame shader values.
    pub closed spec fn per_frame(&self) -> PerFrameShaderVals {
        self.per_frame_uniforms
    }

    /// The depth pass.
    pub closed spec fn depth(&self) -> DepthPass {
        self.depth_pass
    }

    /// The light debug pass.
    pub closed spec fn light_debug(&self) -> LightDebugPass {
        self.light_debug_pass
    }

    /// The debug state.
    pub closed spec fn debug(&self) -> DebugState {
        self.debug_state
    }

    /// The camera.
    pub closed spec fn camera_view(&self) -> CameraState {
        self.camera@
    }

    /// The textures that stand in for the maps that a material leaves out.
    pub closed spec fn textures(&self) -> DefaultTextures {
        self.default_textures
    }

    /// The shader values of the models, each under the number of its key.
    pub closed spec fn model_vals(&self) -> Map<u64, PerModelShaderVals> {
        slot_contents(self.model_shader_vals)
    }

    /// The number of models that the renderer has made shader values for.
    pub closed spec fn model_count(&self) -> nat {
        self.models_created as nat
    }

    /// The light debug pass is well formed and the slot map has room as
    /// long as fewer than `MAX_MODELS` models were created.
    pub closed spec fn wf(&self) -> bool {
        &&& self.light_debug_pass.wf()
        &&& slot_span(self.model_shader_vals) <= self.models_created + 1
    }

    /// Window, surface and camera agree on the size, and the depth texture
    /// has the size that goes with it.
    pub open spec fn sizes_agree(&self) -> bool {
        &&& self.surface().width == self.window().width
        &&& self.surface().height == self.window().height
        &&& self.camera_view().viewport_width == self.window().width
        &&& self.camera_view().viewport_height == self.window().height
        &&& self.depth().extent() == DepthPass::extent_for(self.surface())
    }

    /// The two renderers hold the same uniform blocks, light markers,
    /// default textures and models.
    pub open spec fn same_resources(pre: &Renderer, post: &Renderer) -> bool {
        &&& post.wf() == pre.wf()
        &&& post.per_frame() == pre.per_frame()
        &&& post.light_debug() == pre.light_debug()
        &&& post.textures() == pre.textures()
        &&& post.model_vals() == pre.model_vals()
        &&& post.model_count() == pre.model_count()
    }

    /// The two renderers have the same window, surface, camera and depth
    /// pass.
    pub open spec fn same_sizes(pre: &Renderer, post: &Renderer) -> bool {
        &&& post.surface() == pre.surface()
        &&& post.window() == pre.window()
        &&& post.camera_view() == pre.camera_view()
        &&& post.depth() == pre.depth()
    }

    /// What a resize that was taken does: window, surface, depth texture
    /// and camera all have the new size, and `update` tells the host how
    /// to follow.
    pub open spec fn resize_taken(
        pre: &Renderer,
        post: &Renderer,
        new_width: u32,
        new_height: u32,
        update: SurfaceUpdate,
    ) -> bool {
        &&& post.sizes_agree()
        &&& post.window() == (PhysicalSize { width: new_width, height: new_height })
        &&& post.surface() == (SurfaceConfiguration {
            width: new_width,
            height: new_height,
            ..pre.surface()
        })
        &&& post.camera_view() == (CameraState {
            viewport_width: new_width,
            viewport_height: new_height,
            ..pre.camera_view()
        })
        &&& update.surface_config == post.surface()
        &&& update.depth_extent == post.depth().extent()
    }

    /// The camera that a new renderer starts with: at `(1.5, 1, 5)`,
    /// looking at the origin, `+y` up, 45 degrees of vertical field of
    /// view, from 0.1 to 100.
    pub open spec fn initial_camera(window_size: PhysicalSize) -> CameraState {
        let up = Vec3 { x: Scalar { bits: 0 }, y: Scalar { bits: 0x3f80_0000 }, z: Scalar { bits: 0 } };
        CameraState {
            eye: Vec3 {
                x: Scalar { bits: 0x3fc0_0000 },
                y: Scalar { bits: 0x3f80_0000 },
                z: Scalar { bits: 0x40a0_0000 },
            },
            target: Vec3::splat_spec(0),
            up,
            world_up: up,
            fov_y: Scalar { bits: 0x3f49_0fdb },
            z_near: Scalar { bits: 0x3dcc_cccd },
            z_far: Scalar { bits: 0x42c8_0000 },
            viewport_width: window_size.width,
            viewport_height: window_size.height,
        }
    }

    /// A renderer for a window of size `window_size` whose surface takes
    /// an sRGB format or not, as `surface_is_srgb` says.
    pub fn new(
        window_size: PhysicalSize,
        surface_is_srgb: bool,
        default_textures: DefaultTextures,
    ) -> (renderer: Self)
        ensures
            renderer.wf(),
            renderer.sizes_agree(),
            renderer.window() == window_size,
            renderer.surface().format_is_srgb == surface_is_srgb,
            renderer.camera_view() == Self::initial_camera(window_size),
            renderer.per_frame().values() == (PerFrameBlock {
                output_is_srgb: if surface_is_srgb {
                    1u32
                } else {
                    0u32
                },
                ..PerFrameBlock::initial()
            }),
            renderer.per_frame().dirty(),
            renderer.per_frame().gpu_values() == PerFrameBlock::initial(),
            renderer.light_debug().lamps() == 0,
            renderer.light_debug().instances() == Seq::new(
                LAMP_CAPACITY as nat,
                |i: int| DebugMeshPackedInstance::initial(),
            ),
            renderer.light_debug().gpu_instances() == renderer.light_debug().instances(),
            !renderer.light_debug().dirty(),
            !renderer.debug().visualize_depth_pass,
            renderer.textures() == default_textures,
            renderer.model_count() == 0,
            forall|id: u64| !renderer.model_vals().contains_key(id),
    {
        let surface_config = SurfaceConfiguration {
            width: window_size.width,
            height: window_size.height,
            format_is_srgb: surface_is_srgb,
        };
        let o: Scalar = Scalar::zero();
        let i: Scalar = Scalar::one();
        let camera = Camera::new(
            Vec3::new(Scalar::from_bits(0x3fc0_0000), i, Scalar::from_bits(0x40a0_0000)),
            Vec3::zero(),
            Vec3::new(o, i, o),
            Scalar::from_bits(0x3f49_0fdb),
            Scalar::from_bits(0x3dcc_cccd),
            Scalar::from_bits(0x42c8_0000),
            surface_config.width,
            surface_config.height,
        );
        let mut per_frame_uniforms = PerFrameShaderVals::new();
        per_frame_uniforms.set_output_is_srgb(surface_is_srgb);
        Renderer {
            default_textures,
            surface_config,
            window_size,
            per_frame_uniforms,
            depth_pass: DepthPass::new(&surface_config),
            light_debug_pass: LightDebugPass::new(),
            debug_state: DebugState { visualize_depth_pass: false },
            camera,
            model_shader_vals: slots_new(),
            models_created: 0,
        }
    }

    /// The size of the window.
    pub fn window_size(&self) -> (size: PhysicalSize)
        ensures
            size == self.window(),
    {
        self.window_size
    }

    /// The surface configuration.
    pub fn surface_config(&self) -> (config: SurfaceConfiguration)
        ensures
            config == self.surface(),
    {
        self.surface_config
    }

    /// The textures that stand in for the maps that a material leaves out.
    pub fn default_textures(&self) -> (t: &DefaultTextures)
        ensures
            *t == self.textures(),
    {
        &self.default_textures
    }

    /// The camera.
    pub fn camera(&self) -> (camera: &Camera)
        ensures
            camera@ == self.camera_view(),
    {
        &self.camera
    }

    /// The camera, to move it. Nothing else in the renderer changes.
    pub fn camera_mut(&mut self) -> (camera: &mut Camera)
        ensures
            camera@ == old(self).camera_view(),
            final(self).camera_view() == final(camera)@,
            final(self).wf() == old(self).wf(),
            final(self).surface() == old(self).surface(),
            final(self).window() == old(self).window(),
            final(self).per_frame() == old(self).per_frame(),
            final(self).depth() == old(self).depth(),
            final(self).light_debug() == old(self).light_debug(),
            final(self).debug() == old(self).debug(),
            final(self).textures() == old(self).textures(),
            final(self).model_vals() == old(self).model_vals(),
            final(self).model_count() == old(self).model_count(),
    {
        &mut self.camera
    }

    /// The per-frame shader values.
    pub fn per_frame_uniforms(&self) -> (vals: &PerFrameShaderVals)
        ensures
            *vals == self.per_frame(),
    {
        &self.per_frame_uniforms
    }

    /// The light debug pass.
    pub fn light_debug_pass(&self) -> (pass: &LightDebugPass)
        ensures
            *pass == self.light_debug(),
    {
        &self.light_debug_pass
    }

    /// The depth pass.
    pub fn depth_pass(&self) -> (pass: &DepthPass)
        ensures
            *pass == self.depth(),
    {
        &self.depth_pass
    }

    /// The debug state.
    pub fn debug_state(&self) -> (state: DebugState)
        ensures
            state == self.debug(),
    {
        self.debug_state
    }

    /// The shader values under `key`, if the renderer holds that key.
    pub fn model_shader_vals(&self, key: ModelShaderValsKey) -> (vals: Option<&PerModelShaderVals>)
        ensures
            vals is Some <==> self.model_vals().contains_key(key.id()),
            vals is Some ==> *vals->Some_0 == self.model_vals()[key.id()],
    {
        slots_get(&self.model_shader_vals, key.slot_key())
    }

    /// The number of models that the renderer has made shader values for.
    pub fn models_created(&self) -> (n: u32)
        ensures
            n == self.model_count(),
    {
        self.models_created
    }

    /// Takes a new window size. A size with a zero in it is refused: the
    /// renderer stays as it was and the host has nothing to do but warn.
    /// Otherwise window, surface, depth texture and camera all take the
    /// new size, and the host is told how to configure the surface and
    /// how large to make the depth texture.
    pub fn resize(&mut self, new_width: u32, new_height: u32) -> (update: Option<SurfaceUpdate>)
        ensures
            update is Some <==> new_width != 0 && new_height != 0,
            update is None ==> *final(self) == *old(self),
            update is Some ==> Self::resize_taken(
                old(self),
                final(self),
                new_width,
                new_height,
                update->Some_0,
            ),
            Self::same_resources(old(self), final(self)),
            final(self).debug() == old(self).debug(),
    {
        if new_width == 0 || new_height == 0 {
            None
        } else {
            self.window_size = PhysicalSize { width: new_width, height: new_height };
            self.surface_config.width = new_width;
            self.surface_config.height = new_height;
            // Recreate the depth buffer to match the new window size.
            let depth_extent = self.depth_pass.resize(&self.surface_config);
            // Recreate the camera viewport to match the new window size.
            let _ = self.camera.set_viewport_size(new_width, new_height);
            Some(SurfaceUpdate { surface_config: self.surface_config, depth_extent })
        }
    }

    /// Hands a window event to the debug state.
    pub fn input(&mut self, event: &WindowEvent)
        ensures
            final(self).debug().visualize_depth_pass == (old(self).debug().visualize_depth_pass
                != event.is_release_of(crate::input::KeyCode::KeyZ)),
            Self::same_resources(old(self), final(self)),
            Self::same_sizes(old(self), final(self)),
    {
        self.debug_state.process_input(event);
    }

    /// Returns a new model that can be added to a scene and rendered. The
    /// model gets shader values of its own, under a key that no other
    /// model has.
    pub fn create_model(
        &mut self,
        mesh: Rc<Mesh>,
        translation: Vec3,
        rotation: Quat,
        scale: Vec3,
    ) -> (model: Model)
        requires
            old(self).wf(),
            old(self).model_count() < MAX_MODELS,
        ensures
            final(self).wf(),
            final(self).model_count() == old(self).model_count() + 1,
            !old(self).model_vals().contains_key(model@.model_sv_key.id()),
            final(self).model_vals().dom() == old(self).model_vals().dom().insert(
                model@.model_sv_key.id(),
            ),
            forall|id: u64|
                #![trigger old(self).model_vals().contains_key(id)]
                #![trigger final(self).model_vals()[id]]
                old(self).model_vals().contains_key(id) ==> final(self).model_vals()[id] == old(
                    self
                ).model_vals()[id],
            final(self).model_vals()[model@.model_sv_key.id()].values() == PerModelBlock::initial(),
            !final(self).model_vals()[model@.model_sv_key.id()].dirty(),
            model@ == (ModelView {
                translation,
                rotation,
                scale,
                model_sv_key: model@.model_sv_key,
                dirty: true,
                mesh: (*mesh)@,
            }),
            final(self).surface() == old(self).surface(),
            final(self).window() == old(self).window(),
            final(self).camera_view() == old(self).camera_view(),
            final(self).per_frame() == old(self).per_frame(),
            final(self).depth() == old(self).depth(),
            final(self).light_debug() == old(self).light_debug(),
            final(self).debug() == old(self).debug(),
            final(self).textures() == old(self).textures(),
    {
        let key = slots_insert(&mut self.model_shader_vals, PerModelShaderVals::new());
        self.models_created += 1;
        Model::new(ModelShaderValsKey::from_key(key), mesh, translation, rotation, scale)
    }

    /// Whether the renderer holds the shader values of every model of
    /// `scene`.
    pub open spec fn owns(&self, scene: &Scene) -> bool {
        forall|i: int|
            0 <= i < scene.models@.len() ==> self.model_vals().contains_key(
                (#[trigger] scene.models@[i])@.model_sv_key.id(),
            )
    }

    /// Computes `owns`.
    pub fn owns_models(&self, scene: &Scene) -> (r: bool)
        ensures
            r == self.owns(scene),
    {
        let mut i: usize = 0;
        while i < scene.models.len()
            invariant
                0 <= i <= scene.models@.len(),
                forall|k: int|
                    0 <= k < i ==> self.model_vals().contains_key(
                        (#[trigger] scene.models@[k])@.model_sv_key.id(),
                    ),
            decreases scene.models@.len() - i,
        {
            if slots_get(&self.model_shader_vals, scene.models[i].model_sv_key().slot_key()).is_none() {
                return false;
            }
            i += 1;
        }
        true
    }

    /// What `prepare_render` asks of a scene and of the values computed
    /// for it: an entry in `math` for each light and model; models that
    /// this renderer made, no two of them sharing their shader values;
    /// point lights with modifiers between zero and one; and room for a
    /// marker for each point light.
    pub open spec fn can_prepare(&self, scene: &Scene, math: &FrameMath) -> bool {
        &&& math.fits(scene)
        &&& self.owns(scene)
        &&& scene.keys_distinct()
        &&& scene.point_lights_in_range()
        &&& scene.point_lights@.len() <= LAMP_CAPACITY
    }

    /// Computes `can_prepare`.
    pub fn is_ready_for(&self, scene: &Scene, math: &FrameMath) -> (r: bool)
        ensures
            r == self.can_prepare(scene, math),
    {
        math.is_fit(scene) && self.owns_models(scene) && scene.has_distinct_keys()
            && scene.has_point_lights_in_range() && scene.point_lights.len() <= LAMP_CAPACITY
    }

    /// A well-formed renderer has `LAMP_CAPACITY` marker records and no
    /// more markers than records.
    pub proof fn lemma_wf(&self)
        requires
            self.wf(),
        ensures
            self.light_debug().wf(),
            self.light_debug().instances().len() == LAMP_CAPACITY,
            self.light_debug().lamps() <= LAMP_CAPACITY,
    {
        self.light_debug_pass.lemma_wf();
    }

    /// A renderer that was ready for a scene is ready for it again after
    /// the frame, drawn or not: no number of frames, and no frame that the
    /// surface refused, makes a scene unfit that was fit.
    pub proof fn lemma_stays_ready(
        pre: &Renderer,
        post: &Renderer,
        before: &Scene,
        after: &Scene,
        math: &FrameMath,
        lamps: nat,
    )
        requires
            pre.can_prepare(before, math),
            Self::resources_prepared(pre, post, before, after, math, lamps),
        ensures
            post.can_prepare(after, math),
    {
        assert forall|i: int| 0 <= i < after.models@.len() implies post.model_vals().contains_key(
            (#[trigger] after.models@[i])@.model_sv_key.id(),
        ) by {
            assert(after.models@[i]@ == before.models@[i]@.updated());
            assert(pre.model_vals().contains_key(before.models@[i]@.model_sv_key.id()));
            assert(post.model_vals().dom().contains(before.models@[i]@.model_sv_key.id()));
        }
        assert forall|i: int, j: int| 0 <= i < j < after.models@.len() implies (
        #[trigger] after.models@[i])@.model_sv_key.id() != (
        #[trigger] after.models@[j])@.model_sv_key.id() by {
            assert(after.models@[i]@ == before.models@[i]@.updated());
            assert(after.models@[j]@ == before.models@[j]@.updated());
        }
    }

    /// Once the resources are prepared for a scene whose models the
    /// renderer holds, every model of the scene is clean, and so are its
    /// shader values, which the GPU holds as the CPU does; the per-frame
    /// block is clean as well. After that the scene can be drawn.
    pub proof fn lemma_prepared_is_clean(
        pre: &Renderer,
        post: &Renderer,
        before: &Scene,
        after: &Scene,
        math: &FrameMath,
        lamps: nat,
    )
        requires
            pre.owns(before),
            Self::resources_prepared(pre, post, before, after, math, lamps),
        ensures
            forall|i: int|
                #![trigger after.models@[i]]
                0 <= i < after.models@.len() ==> {
                    let id = after.models@[i]@.model_sv_key.id();
                    &&& !after.models@[i]@.dirty
                    &&& post.model_vals().contains_key(id)
                    &&& !post.model_vals()[id].dirty()
                    &&& post.model_vals()[id].gpu_values() == post.model_vals()[id].values()
                },
            !post.per_frame().dirty(),
            post.per_frame().gpu_values() == post.per_frame().values(),
            post.can_draw(after),
    {
        assert forall|i: int|
            #![trigger after.models@[i]]
            0 <= i < after.models@.len() implies {
            let id = after.models@[i]@.model_sv_key.id();
            &&& !after.models@[i]@.dirty
            &&& post.model_vals().contains_key(id)
            &&& !post.model_vals()[id].dirty()
            &&& post.model_vals()[id].gpu_values() == post.model_vals()[id].values()
        } by {
            assert(after.models@[i]@ == before.models@[i]@.updated());
            assert(pre.model_vals().contains_key(before.models@[i]@.model_sv_key.id()));
            assert(post.model_vals().dom().contains(before.models@[i]@.model_sv_key.id()));
        }
    }

    /// Brings the shader values of every model of `scene` up to date and
    /// hands them out for upload: the matrices of a model that is dirty
    /// are replaced, the point lights of every model are replaced, and
    /// every model is marked as updated.
    fn prepare_models(&mut self, scene: &mut Scene, math: &FrameMath, uploads: &mut Vec<Upload>)
        requires
            old(self).can_prepare(old(scene), math),
            old(uploads)@.len() == 0,
        ensures
            final(scene).point_lights == old(scene).point_lights,
            final(scene).directional_lights == old(scene).directional_lights,
            final(scene).spot_lights == old(scene).spot_lights,
            final(scene).models@.len() == old(scene).models@.len(),
            forall|i: int|
                0 <= i < old(scene).models@.len() ==> (#[trigger] final(scene).models@[i])@ == (
                ModelView { dirty: false, ..old(scene).models@[i]@ }),
            final(self).model_vals().dom() == old(self).model_vals().dom(),
            forall|i: int|
                #![trigger old(scene).models@[i]]
                0 <= i < old(scene).models@.len() ==> {
                    let id = old(scene).models@[i]@.model_sv_key.id();
                    &&& final(self).model_vals()[id].values() == prepared_model_block(
                        old(self).model_vals()[id].values(),
                        old(scene).models@[i]@.dirty,
                        math.model_matrices@[i],
                        old(scene).point_lights@,
                    )
                    &&& !final(self).model_vals()[id].dirty()
                    &&& final(self).model_vals()[id].gpu_values() == final(self).model_vals()[id].values()
                },
            forall|id: u64|
                !old(scene).has_key(id) ==> final(self).model_vals()[id] == old(self).model_vals()[id],
            final(uploads)@ == Seq::new(
                old(scene).models@.len(),
                |i: int| Upload::PerModel { key: old(scene).models@[i]@.model_sv_key },
            ),
            final(self).wf() == old(self).wf(),
            final(self).surface() == old(self).surface(),
            final(self).window() == old(self).window(),
            final(self).camera_view() == old(self).camera_view(),
            final(self).per_frame() == old(self).per_frame(),
            final(self).depth() == old(self).depth(),
            final(self).light_debug() == old(self).light_debug(),
            final(self).debug() == old(self).debug(),
            final(self).textures() == old(self).textures(),
            final(self).model_count() == old(self).model_count(),
    {
        let n: usize = scene.models.len();
        let mut i: usize = 0;
        while i < n
            invariant
                0 <= i <= n,
                n == old(scene).models@.len(),
                old(self).can_prepare(old(scene), math),
                scene.point_lights == old(scene).point_lights,
                scene.directional_lights == old(scene).directional_lights,
                scene.spot_lights == old(scene).spot_lights,
                scene.models@.len() == n,
                forall|k: int|
                    0 <= k < i ==> (#[trigger] scene.models@[k])@ == (ModelView {
                        dirty: false,
                        ..old(scene).models@[k]@
                    }),
                forall|k: int| i <= k < n ==> (#[trigger] scene.models@[k]) == old(scene).models@[k],
                self.model_vals().dom() == old(self).model_vals().dom(),
                forall|k: int|
                    #![trigger old(scene).models@[k]]
                    0 <= k < i ==> {
                        let id = old(scene).models@[k]@.model_sv_key.id();
                        &&& self.model_vals()[id].values() == prepared_model_block(
                            old(self).model_vals()[id].values(),
                            old(scene).models@[k]@.dirty,
                            math.model_matrices@[k],
                            old(scene).point_lights@,
                        )
                        &&& !self.model_vals()[id].dirty()
                        &&& self.model_vals()[id].gpu_values() == self.model_vals()[id].values()
                    },
                forall|k: int|
                    #![trigger old(scene).models@[k]]
                    i <= k < n ==> self.model_vals()[old(scene).models@[k]@.model_sv_key.id()]
                        == old(self).model_vals()[old(scene).models@[k]@.model_sv_key.id()],
                forall|id: u64|
                    !old(scene).has_key(id) ==> self.model_vals()[id] == old(self).model_vals()[id],
                uploads@ == Seq::new(
                    i as nat,
                    |k: int| Upload::PerModel { key: old(scene).models@[k]@.model_sv_key },
                ),
                self.wf() == old(self).wf(),
                self.surface() == old(self).surface(),
                self.window() == old(self).window(),
                self.camera_view() == old(self).camera_view(),
                self.per_frame() == old(self).per_frame(),
                self.depth() == old(self).depth(),
                self.light_debug() == old(self).light_debug(),
                self.debug() == old(self).debug(),
                self.textures() == old(self).textures(),
                self.model_count() == old(self).model_count(),
            decreases n - i,
        {
            let key = scene.models[i].model_sv_key();
            let was_dirty = scene.models[i].is_model_sv_dirty();
            let matrices = math.model_matrices[i];
            let ghost id = key.id();
            let ghost vals_before = self.model_vals();
            assert(old(scene).models@[i as int]@.model_sv_key.id() == id);
            assert(old(scene).has_key(id));
            match slots_get_mut(&mut self.model_shader_vals, key.slot_key()) {
                Some(model_sv) => {
                    // Does the transform matrix need to be updated?
                    if was_dirty {
                        model_sv.set_local_to_world(
                            matrices.local_to_world,
                            matrices.world_to_local,
                        );
                    }
                    // Add lights closest to the model.
                    model_sv.set_point_lights(&scene.point_lights);
                    // Hand the model's shader values out for upload and then
                    // mark the model as having been updated.
                    let _ = model_sv.update_gpu();
                },
                None => {},
            }
            scene.models[i].mark_model_sv_updated();
            uploads.push(Upload::PerModel { key });
            proof {
                assert(self.model_vals().dom() =~= old(self).model_vals().dom());
                assert forall|k: int|
                    #![trigger old(scene).models@[k]]
                    0 <= k < i + 1 implies {
                    let idk = old(scene).models@[k]@.model_sv_key.id();
                    &&& self.model_vals()[idk].values() == prepared_model_block(
                        old(self).model_vals()[idk].values(),
                        old(scene).models@[k]@.dirty,
                        math.model_matrices@[k],
                        old(scene).point_lights@,
                    )
                    &&& !self.model_vals()[idk].dirty()
                    &&& self.model_vals()[idk].gpu_values() == self.model_vals()[idk].values()
                } by {
                    if k < i {
                        assert(old(scene).models@[k]@.model_sv_key.id() != id);
                    }
                }
                assert forall|k: int|
                    #![trigger old(scene).models@[k]]
                    i + 1 <= k < n implies self.model_vals()[old(
                    scene
                ).models@[k]@.model_sv_key.id()] == old(self).model_vals()[old(
                    scene
                ).models@[k]@.model_sv_key.id()] by {
                    assert(old(scene).models@[k]@.model_sv_key.id() != id);
                }
                assert(uploads@ =~= Seq::new(
                    (i + 1) as nat,
                    |k: int| Upload::PerModel { key: old(scene).models@[k]@.model_sv_key },
                ));
            }
            i += 1;
        }
    }

    /// What preparing a frame does to the resources of a renderer and to a
    /// scene, `lamps` being the number of light markers afterwards: every
    /// uniform block holds what the frame needs and is in sync with the
    /// GPU, every model is marked as updated, and there is a marker for
    /// each point light.
    pub open spec fn resources_prepared(
        pre: &Renderer,
        post: &Renderer,
        before: &Scene,
        after: &Scene,
        math: &FrameMath,
        lamps: nat,
    ) -> bool {
        &&& post.wf()
        &&& after.point_lights == before.point_lights
        &&& after.directional_lights == before.directional_lights
        &&& after.spot_lights == before.spot_lights
        &&& after.models@.len() == before.models@.len()
        &&& forall|i: int|
            0 <= i < before.models@.len() ==> (#[trigger] after.models@[i])@
                == before.models@[i]@.updated()
        &&& post.per_frame().values() == prepared_frame_block(
            pre.per_frame().values(),
            pre.camera_view().eye,
            before,
            math,
        )
        &&& !post.per_frame().dirty()
        &&& post.per_frame().gpu_values() == post.per_frame().values()
        &&& post.model_vals().dom() == pre.model_vals().dom()
        &&& forall|i: int|
            #![trigger before.models@[i]]
            0 <= i < before.models@.len() ==> {
                let id = before.models@[i]@.model_sv_key.id();
                &&& post.model_vals()[id].values() == prepared_model_block(
                    pre.model_vals()[id].values(),
                    before.models@[i]@.dirty,
                    math.model_matrices@[i],
                    before.point_lights@,
                )
                &&& !post.model_vals()[id].dirty()
                &&& post.model_vals()[id].gpu_values() == post.model_vals()[id].values()
            }
        &&& forall|id: u64| !before.has_key(id) ==> post.model_vals()[id] == pre.model_vals()[id]
        &&& post.light_debug().lamps() == lamps
        &&& post.light_debug().instances() == LightDebugPass::with_markers(
            pre.light_debug().instances(),
            0,
            before.point_lights@,
            math.lamp_matrices@,
        )
        &&& !post.light_debug().dirty()
        &&& post.light_debug().gpu_instances() == if pre.light_debug().dirty()
            || before.point_lights@.len() > 0 {
            post.light_debug().instances()
        } else {
            pre.light_debug().gpu_instances()
        }
        &&& post.textures() == pre.textures()
        &&& post.model_count() == pre.model_count()
    }

    /// What preparing a frame does to a renderer and a scene: it prepares
    /// the resources and leaves window, surface, camera, depth pass and
    /// debug state alone.
    pub open spec fn frame_prepared(
        pre: &Renderer,
        post: &Renderer,
        before: &Scene,
        after: &Scene,
        math: &FrameMath,
        lamps: nat,
    ) -> bool {
        &&& Self::resources_prepared(pre, post, before, after, math, lamps)
        &&& Self::same_sizes(pre, post)
        &&& post.debug() == pre.debug()
    }

    /// Nothing that drawing `scene` reads is out of sync with the GPU: not
    /// the per-frame block, no model and no model's shader values.
    pub open spec fn can_draw(&self, scene: &Scene) -> bool {
        &&& self.wf()
        &&& !self.per_frame().dirty()
        &&& forall|i: int|
            #![trigger scene.models@[i]]
            0 <= i < scene.models@.len() ==> {
                let id = scene.models@[i]@.model_sv_key.id();
                &&& !scene.models@[i]@.dirty
                &&& self.model_vals().contains_key(id)
                &&& !self.model_vals()[id].dirty()
            }
    }

    /// Prepares GPU resources for rendering `scene`: updates the per-frame
    /// uniforms (elapsed time, view projection, view position, directional
    /// and spot lights), then the uniforms of every model, then the light
    /// markers, and hands the per-frame uniforms out last, once.
    ///
    /// Returns the writes that the host has to perform before it draws, in
    /// order.
    pub fn prepare_render(&mut self, scene: &mut Scene, math: &FrameMath) -> (uploads: Vec<Upload>)
        requires
            old(self).wf(),
            old(self).can_prepare(old(scene), math),
        ensures
            Self::frame_prepared(
                old(self),
                final(self),
                old(scene),
                final(scene),
                math,
                old(scene).point_lights@.len(),
            ),
            final(self).can_draw(final(scene)),
            uploads@ == uploads_for(
                old(scene).models@,
                old(self).light_debug().dirty() || old(scene).point_lights@.len() > 0,
            ),
    {
        // Update renderer per-frame shader uniforms.
        self.per_frame_uniforms.set_time_elapsed_seconds(math.time_elapsed_seconds);
        self.per_frame_uniforms.set_view_projection(math.view_projection);
        self.per_frame_uniforms.set_view_pos(self.camera.eye());

        // Update renderer per-scene shader uniforms.
        self.per_frame_uniforms.set_lights(
            &scene.directional_lights,
            &math.directional_units,
            &scene.spot_lights,
            &math.spot_cones,
        );

        // Update uniforms for each model that will be rendered.
        let mut uploads: Vec<Upload> = Vec::new();
        self.prepare_models(scene, math, &mut uploads);

        // Let render overlays update resources.
        let lamps_written = self.light_debug_pass.prepare(&scene.point_lights, &math.lamp_matrices);
        if lamps_written {
            uploads.push(Upload::LampInstances);
        }

        // Hand the updated per frame uniform values out for upload.
        let _ = self.per_frame_uniforms.update_gpu();
        uploads.push(Upload::PerFrame);
        proof {
            assert(uploads@ =~= uploads_for(
                old(scene).models@,
                old(self).light_debug().dirty() || old(scene).point_lights@.len() > 0,
            ));
            assert forall|i: int|
                #![trigger final(scene).models@[i]]
                0 <= i < final(scene).models@.len() implies {
                let id = final(scene).models@[i]@.model_sv_key.id();
                &&& !final(scene).models@[i]@.dirty
                &&& final(self).model_vals().contains_key(id)
                &&& !final(self).model_vals()[id].dirty()
            } by {
                assert(final(scene).models@[i]@.model_sv_key == old(scene).models@[i]@.model_sv_key);
            }
        }
        uploads
    }

    /// Records the passes of a frame, in the order in which they must run:
    /// the main pass, which clears colour and depth and draws every model;
    /// the light debug pass, which draws over it; and, where the debug
    /// state asks for it, the depth visualization. Then the light markers
    /// of the frame are forgotten.
    pub fn record_passes(&mut self, scene: &Scene) -> (passes: Vec<RenderPass>)
        requires
            old(self).can_draw(scene),
        ensures
            Self::frame_passes(
                passes@,
                scene,
                old(self).light_debug().lamps(),
                old(self).debug().visualize_depth_pass,
            ),
            final(self).wf(),
            final(self).light_debug().lamps() == 0,
            final(self).light_debug().instances() == old(self).light_debug().instances(),
            final(self).light_debug().gpu_instances() == old(self).light_debug().gpu_instances(),
            final(self).light_debug().dirty() == old(self).light_debug().dirty(),
            final(self).per_frame() == old(self).per_frame(),
            final(self).model_vals() == old(self).model_vals(),
            final(self).surface() == old(self).surface(),
            final(self).window() == old(self).window(),
            final(self).camera_view() == old(self).camera_view(),
            final(self).depth() == old(self).depth(),
            final(self).debug() == old(self).debug(),
            final(self).textures() == old(self).textures(),
            final(self).model_count() == old(self).model_count(),
    {
        let mut passes: Vec<RenderPass> = Vec::new();

        // Draw all models in the scene.
        let mut render_pass = RenderPass::main();
        render_pass.commands.push(
            DrawCommand::SetBindGroup { index: PER_FRAME_GROUP, bind_group: BindGroupRef::PerFrame },
        );
        assert(render_pass.commands@ =~= scene_commands(scene.models@, 0));
        let mut i: usize = 0;
        while i < scene.models.len()
            invariant
                0 <= i <= scene.models@.len(),
                self.can_draw(scene),
                render_pass.kind == PassKind::Main,
                render_pass.color_load == LoadOp::Clear,
                render_pass.depth_load == Some(LoadOp::Clear),
                render_pass.commands@ == scene_commands(scene.models@, i as int),
                forall|k: int| 0 <= k < i ==> (#[trigger] scene.models@[k])@.mesh.within_bounds(),
            decreases scene.models@.len() - i,
        {
            let model = &scene.models[i];
            match slots_get(&self.model_shader_vals, model.model_sv_key().slot_key()) {
                Some(model_sv) => {
                    render_pass.draw_model(model, model_sv);
                },
                None => {},
            }
            i += 1;
        }
        passes.push(render_pass);

        // Debug pass visualization.
        passes.push(self.light_debug_pass.draw());

        // Depth pass visualization.
        if self.debug_state.visualize_depth_pass {
            passes.push(self.depth_pass.draw());
        }
        self.light_debug_pass.finish_frame();
        passes
    }

    /// One frame: prepares the GPU resources, then, where the surface
    /// handed out its next frame, records the passes. `surface` says how
    /// acquiring the next frame of the surface went.
    pub fn render(
        &mut self,
        scene: &mut Scene,
        math: &FrameMath,
        surface: Result<(), SurfaceError>,
    ) -> (frame: Frame)
        requires
            old(self).wf(),
            old(self).can_prepare(old(scene), math),
        ensures
            Self::frame_prepared(
                old(self),
                final(self),
                old(scene),
                final(scene),
                math,
                if surface is Ok {
                    0nat
                } else {
                    old(scene).point_lights@.len()
                },
            ),
            frame.uploads@ == uploads_for(
                old(scene).models@,
                old(self).light_debug().dirty() || old(scene).point_lights@.len() > 0,
            ),
            surface is Err ==> frame.passes == Err::<Vec<RenderPass>, SurfaceError>(surface->Err_0),
            surface is Ok ==> frame.passes is Ok && Self::frame_passes(
                frame.passes->Ok_0@,
                final(scene),
                old(scene).point_lights@.len(),
                old(self).debug().visualize_depth_pass,
            ),
    {
        // Prepare GPU resources for rendering.
        let uploads = self.prepare_render(scene, math);
        match surface {
            Err(e) => Frame { uploads, passes: Err(e) },
            Ok(_) => {
                let passes = self.record_passes(scene);
                Frame { uploads, passes: Ok(passes) }
            },
        }
    }

    /// One frame, where the renderer is ready for the scene: tests what
    /// `render` asks of the scene and of `math`, and renders only where
    /// it holds. Otherwise there is no frame, and renderer and scene stay
    /// as they were.
    pub fn render_if_ready(
        &mut self,
        scene: &mut Scene,
        math: &FrameMath,
        surface: Result<(), SurfaceError>,
    ) -> (frame: Option<Frame>)
        requires
            old(self).wf(),
        ensures
            frame is Some <==> old(self).can_prepare(old(scene), math),
            frame is None ==> *final(self) == *old(self) && *final(scene) == *old(scene),
            frame is Some ==> {
                &&& Self::frame_prepared(
                    old(self),
                    final(self),
                    old(scene),
                    final(scene),
                    math,
                    if surface is Ok {
                        0nat
                    } else {
                        old(scene).point_lights@.len()
                    },
                )
                &&& frame->Some_0.uploads@ == uploads_for(
                    old(scene).models@,
                    old(self).light_debug().dirty() || old(scene).point_lights@.len() > 0,
                )
                &&& surface is Err ==> frame->Some_0.passes == Err::<Vec<RenderPass>, SurfaceError>(
                    surface->Err_0,
                )
                &&& surface is Ok ==> frame->Some_0.passes is Ok && Self::frame_passes(
                    frame->Some_0.passes->Ok_0@,
                    final(scene),
                    old(scene).point_lights@.len(),
                    old(self).debug().visualize_depth_pass,
                )
            },
    {
        if self.is_ready_for(scene, math) {
            Some(self.render(scene, math, surface))
        } else {
            None
        }
    }

    /// The passes of a frame that draws `scene` with `lamps` light
    /// markers, with or without the depth visualization.
    pub open spec fn frame_passes(
        passes: Seq<RenderPass>,
        scene: &Scene,
        lamps: nat,
        visualize_depth_pass: bool,
    ) -> bool {
        &&& passes.len() == if visualize_depth_pass {
            3int
        } else {
            2int
        }
        &&& passes[0].kind == PassKind::Main
        &&& passes[0].color_load == LoadOp::Clear
        &&& passes[0].depth_load == Some(LoadOp::Clear)
        &&& passes[0].commands@ == scene_commands(scene.models@, scene.models@.len() as int)
        &&& passes[1].kind == PassKind::LightDebug
        &&& passes[1].color_load == LoadOp::Load
        &&& passes[1].depth_load == Some(LoadOp::Load)
        &&& passes[1].commands@ == LightDebugPass::commands(lamps)
        &&& visualize_depth_pass ==> {
            &&& passes[2].kind == PassKind::DepthVisualization
            &&& passes[2].color_load == LoadOp::Load
            &&& passes[2].depth_load == None::<LoadOp>
            &&& passes[2].commands@ == DepthPass::commands()
        }
        &&& forall|i: int|
            0 <= i < scene.models@.len() ==> (#[trigger] scene.models@[i])@.mesh.within_bounds()
    }
}

} // verus!
