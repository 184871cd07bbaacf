//! How values lie in GPU buffers.
//!
//! A buffer is a run of 32-bit words. `GpuWords` says, for each type that
//! goes into a buffer, which words it becomes; the descriptions of vertex
//! buffers say where in a vertex or an instance record each shader input
//! starts. The two must agree with each other and with the structs that
//! the shaders declare.
use vstd::prelude::*;
use crate::math::Mat4;
use crate::math::Scalar;
use crate::math::Vec2;
use crate::math::Vec3;
use crate::math::Vec4;
use crate::renderer::debug::DebugVertex;
use crate::renderer::models::Vertex;
use crate::renderer::passes::light_debug_pass::DebugMeshPackedInstance;
use crate::renderer::shaders::lit_shader::MAX_DIRECTIONAL_LIGHTS;
use crate::renderer::shaders::lit_shader::MAX_POINT_LIGHTS;
use crate::renderer::shaders::lit_shader::MAX_SPOT_LIGHTS;
use crate::renderer::shaders::packed_structs::PackedDirectionalLight;
use crate::renderer::shaders::packed_structs::PackedMaterialConstants;
use crate::renderer::shaders::packed_structs::PackedPointLight;
use crate::renderer::shaders::packed_structs::PackedSpotLight;
use crate::renderer::passes::depth_pass::DepthPass;
use crate::renderer::shaders::PerFrameBlock;
use crate::renderer::shaders::PerFramePackedUniforms;
use crate::renderer::shaders::PerModelBlock;
use crate::renderer::shaders::PerModelPackedUniforms;
use crate::renderer::shaders::PerFrameShaderVals;
use crate::renderer::shaders::PerModelShaderVals;
use crate::renderer::shaders::PerSubmeshPackedUniforms;
use crate::renderer::shaders::PerSubmeshShaderVals;
use crate::renderer::shaders::DIFFUSE_VIEW_BINDING_SLOT;
use crate::renderer::shaders::EMISSIVE_VIEW_BINDING_SLOT;
use crate::renderer::shaders::SAMPLER_BINDING_SLOT;
use crate::renderer::shaders::SPECULAR_VIEW_BINDING_SLOT;
use crate::renderer::shaders::UNIFORMS_BINDING_SLOT;

verus! {

/// A value that can be written to a GPU buffer.
pub trait GpuWords {
    /// The words of the value, in the order in which a buffer holds them.
    spec fn words(&self) -> Seq<u32>;

    /// Writes the words of the value behind what `out` holds.
    fn write_words(&self, out: &mut Vec<u32>)
        ensures
            final(out)@ == old(out)@ + self.words(),
    ;
}

impl GpuWords for Scalar {
    open spec fn words(&self) -> Seq<u32> {
        seq![self.bits]
    }

    fn write_words(&self, out: &mut Vec<u32>) {
        out.push(self.bits);
        assert(out@ =~= old(out)@ + self.words());
    }
}

impl GpuWords for Vec2 {
    open spec fn words(&self) -> Seq<u32> {
        seq![self.x.bits, self.y.bits]
    }

    fn write_words(&self, out: &mut Vec<u32>) {
        out.push(self.x.bits);
        out.push(self.y.bits);
        assert(out@ =~= old(out)@ + self.words());
    }
}

impl GpuWords for Vec3 {
    open spec fn words(&self) -> Seq<u32> {
        seq![self.x.bits, self.y.bits, self.z.bits]
    }

    fn write_words(&self, out: &mut Vec<u32>) {
        out.push(self.x.bits);
        out.push(self.y.bits);
        out.push(self.z.bits);
        assert(out@ =~= old(out)@ + self.words());
    }
}

impl GpuWords for Vec4 {
    open spec fn words(&self) -> Seq<u32> {
        seq![self.x.bits, self.y.bits, self.z.bits, self.w.bits]
    }

    fn write_words(&self, out: &mut Vec<u32>) {
        out.push(self.x.bits);
        out.push(self.y.bits);
        out.push(self.z.bits);
        out.push(self.w.bits);
        assert(out@ =~= old(out)@ + self.words());
    }
}

impl GpuWords for Mat4 {
    /// Column after column.
    open spec fn words(&self) -> Seq<u32> {
        self.x_axis.words() + self.y_axis.words() + self.z_axis.words() + self.w_axis.words()
    }

    fn write_words(&self, out: &mut Vec<u32>) {
        self.x_axis.write_words(out);
        self.y_axis.write_words(out);
        self.z_axis.write_words(out);
        self.w_axis.write_words(out);
        assert(out@ =~= old(out)@ + self.words());
    }
}

impl GpuWords for Vertex {
    /// Position, normal, texture coordinates.
    open spec fn words(&self) -> Seq<u32> {
        self.position.words() + self.normal.words() + self.tex_coords.words()
    }

    fn write_words(&self, out: &mut Vec<u32>) {
        self.position.write_words(out);
        self.normal.write_words(out);
        self.tex_coords.write_words(out);
        assert(out@ =~= old(out)@ + self.words());
    }
}

impl GpuWords for DebugVertex {
    /// Position, texture coordinates.
    open spec fn words(&self) -> Seq<u32> {
        self.position.words() + self.tex_coords.words()
    }

    fn write_words(&self, out: &mut Vec<u32>) {
        self.position.write_words(out);
        self.tex_coords.write_words(out);
        assert(out@ =~= old(out)@ + self.words());
    }
}

impl GpuWords for DebugMeshPackedInstance {
    /// The matrix, the tint, one word of padding.
    open spec fn words(&self) -> Seq<u32> {
        self.local_to_world.words() + self.color_tint.words() + self._padding_1.words()
    }

    fn write_words(&self, out: &mut Vec<u32>) {
        self.local_to_world.write_words(out);
        self.color_tint.write_words(out);
        self._padding_1.write_words(out);
        assert(out@ =~= old(out)@ + self.words());
    }
}

impl GpuWords for PackedMaterialConstants {
    open spec fn words(&self) -> Seq<u32> {
        self.ambient_color.words() + self.diffuse_color.words() + self.specular_color.words()
    }

    fn write_words(&self, out: &mut Vec<u32>) {
        self.ambient_color.write_words(out);
        self.diffuse_color.write_words(out);
        self.specular_color.write_words(out);
        assert(out@ =~= old(out)@ + self.words());
    }
}

impl GpuWords for PackedDirectionalLight {
    open spec fn words(&self) -> Seq<u32> {
        self.direction.words() + self.color.words()
    }

    fn write_words(&self, out: &mut Vec<u32>) {
        self.direction.write_words(out);
        self.color.write_words(out);
        assert(out@ =~= old(out)@ + self.words());
    }
}

impl GpuWords for PackedPointLight {
    open spec fn words(&self) -> Seq<u32> {
        self.position.words() + self.color.words() + self.attenuation.words()
            + self.padding.words()
    }

    fn write_words(&self, out: &mut Vec<u32>) {
        self.position.write_words(out);
        self.color.write_words(out);
        self.attenuation.write_words(out);
        self.padding.write_words(out);
        assert(out@ =~= old(out)@ + self.words());
    }
}

impl GpuWords for PackedSpotLight {
    open spec fn words(&self) -> Seq<u32> {
        self.position.words() + self.direction.words() + self.color.words()
            + self.attenuation.words()
    }

    fn write_words(&self, out: &mut Vec<u32>) {
        self.position.write_words(out);
        self.direction.write_words(out);
        self.color.write_words(out);
        self.attenuation.write_words(out);
        assert(out@ =~= old(out)@ + self.words());
    }
}

impl GpuWords for PerSubmeshPackedUniforms {
    open spec fn words(&self) -> Seq<u32> {
        self.material.words()
    }

    fn write_words(&self, out: &mut Vec<u32>) {
        self.material.write_words(out);
    }
}

/// The words of the first `n` of `items`, one item after the other.
pub open spec fn words_of<T: GpuWords>(items: Seq<T>, n: int) -> Seq<u32>
    decreases n,
{
    if n <= 0 {
        Seq::empty()
    } else {
        words_of(items, n - 1) + items[n - 1].words()
    }
}

/// Writes the words of every item of `items`, in order, behind what `out`
/// holds.
pub fn write_all<T: GpuWords>(items: &[T], out: &mut Vec<u32>)
    ensures
        final(out)@ == old(out)@ + words_of(items@, items@.len() as int),
{
    let mut i: usize = 0;
    while i < items.len()
        invariant
            0 <= i <= items@.len(),
            out@ == old(out)@ + words_of(items@, i as int),
        decreases items@.len() - i,
    {
        items[i].write_words(out);
        assert(out@ =~= old(out)@ + words_of(items@, i + 1));
        i += 1;
    }
}

impl PerModelBlock {
    /// The words of the block: the two matrices, the point lights, the
    /// number of point lights, and padding up to 16 bytes.
    pub open spec fn words(self) -> Seq<u32> {
        self.local_to_world.words() + self.world_to_local.words() + words_of(
            self.point_light,
            self.point_light.len() as int,
        ) + seq![self.point_light_count] + self.padding
    }
}

impl GpuWords for PerModelPackedUniforms {
    open spec fn words(&self) -> Seq<u32> {
        self@.words()
    }

    fn write_words(&self, out: &mut Vec<u32>) {
        self.local_to_world.write_words(out);
        self.world_to_local.write_words(out);
        write_all(self.point_light.as_slice(), out);
        out.push(self.point_light_count);
        out.push(self._padding[0]);
        out.push(self._padding[1]);
        out.push(self._padding[2]);
        assert(self._padding@ =~= seq![self._padding[0], self._padding[1], self._padding[2]]);
        assert(out@ =~= old(out)@ + self.words());
    }
}

impl PerFrameBlock {
    /// The words of the block: the view projection, the view position, the
    /// directional lights, the spot lights, the two light counts, the sRGB
    /// flag and the elapsed time.
    pub open spec fn words(self) -> Seq<u32> {
        self.view_projection.words() + self.view_pos.words() + words_of(
            self.directional_lights,
            self.directional_lights.len() as int,
        ) + words_of(self.spot_lights, self.spot_lights.len() as int) + seq![
            self.directional_light_count,
            self.spot_light_count,
            self.output_is_srgb,
            self.time_elapsed_seconds.bits,
        ]
    }
}

impl GpuWords for PerFramePackedUniforms {
    open spec fn words(&self) -> Seq<u32> {
        self@.words()
    }

    fn write_words(&self, out: &mut Vec<u32>) {
        self.view_projection.write_words(out);
        self.view_pos.write_words(out);
        write_all(self.directional_lights.as_slice(), out);
        write_all(self.spot_lights.as_slice(), out);
        out.push(self.directional_light_count);
        out.push(self.spot_light_count);
        out.push(self.output_is_srgb);
        out.push(self.time_elapsed_seconds.bits);
        assert(out@ =~= old(out)@ + self.words());
    }
}

/// Where every item has `k` words, the first `n` items have `n * k`.
pub proof fn lemma_words_of_len<T: GpuWords>(items: Seq<T>, n: int, k: int)
    requires
        0 <= n <= items.len(),
        forall|i: int| 0 <= i < items.len() ==> (#[trigger] items[i]).words().len() == k,
    ensures
        words_of(items, n).len() == n * k,
    decreases n,
{
    if n > 0 {
        lemma_words_of_len(items, n - 1, k);
        assert(words_of(items, n).len() == (n - 1) * k + k);
        assert((n - 1) * k + k == n * k) by (nonlinear_arith);
    } else {
        assert(n * k == 0) by (nonlinear_arith)
            requires
                n == 0,
        ;
    }
}

/// The number of words of a per-model uniform block.
pub const PER_MODEL_WORDS: usize = 100;

/// The number of words of a per-frame uniform block.
pub const PER_FRAME_WORDS: usize = 80;

/// The number of words of a per-submesh uniform block.
pub const PER_SUBMESH_WORDS: usize = 12;

/// A per-model uniform block has `PER_MODEL_WORDS` words, which is a
/// whole number of 16 byte slots.
pub proof fn lemma_per_model_size(block: PerModelPackedUniforms)
    ensures
        block.words().len() == PER_MODEL_WORDS,
        PER_MODEL_WORDS % 4 == 0,
{
    lemma_words_of_len(block@.point_light, MAX_POINT_LIGHTS as int, 16);
}

/// A per-frame uniform block has `PER_FRAME_WORDS` words, which is a
/// whole number of 16 byte slots.
pub proof fn lemma_per_frame_size(block: PerFramePackedUniforms)
    ensures
        block.words().len() == PER_FRAME_WORDS,
        PER_FRAME_WORDS % 4 == 0,
{
    lemma_words_of_len(block@.directional_lights, MAX_DIRECTIONAL_LIGHTS as int, 8);
    lemma_words_of_len(block@.spot_lights, MAX_SPOT_LIGHTS as int, 16);
}

/// A per-submesh uniform block has `PER_SUBMESH_WORDS` words, which is a
/// whole number of 16 byte slots.
pub proof fn lemma_per_submesh_size(block: PerSubmeshPackedUniforms)
    ensures
        block.words().len() == PER_SUBMESH_WORDS,
        PER_SUBMESH_WORDS % 4 == 0,
{
}

/// The type of a shader input.
#[derive(Clone, Copy, Debug, PartialEq, Eq, Structural)]
pub enum VertexFormat {
    /// Two scalars.
    Float32x2,
    /// Three scalars.
    Float32x3,
    /// Four scalars.
    Float32x4,
}

impl VertexFormat {
    /// The number of bytes of an input of this format.
    pub open spec fn size(self) -> int {
        match self {
            VertexFormat::Float32x2 => 8,
            VertexFormat::Float32x3 => 12,
            VertexFormat::Float32x4 => 16,
        }
    }

    /// Computes `size`.
    pub fn byte_size(self) -> (n: u64)
        ensures
            n == self.size(),
    {
        match self {
            VertexFormat::Float32x2 => 8,
            VertexFormat::Float32x3 => 12,
            VertexFormat::Float32x4 => 16,
        }
    }
}

/// Whether a buffer advances with each vertex or with each instance.
#[derive(Clone, Copy, Debug, PartialEq, Eq, Structural)]
pub enum VertexStepMode {
    Vertex,
    Instance,
}

/// One shader input: where it starts in a record, under which location
/// the shader declares it, and its format.
#[derive(Clone, Copy, Debug, PartialEq, Eq, Structural)]
pub struct VertexAttribute {
    pub offset: u64,
    pub shader_location: u32,
    pub format: VertexFormat,
}

/// The layout of the records of a vertex buffer.
pub struct VertexBufferLayout {
    /// The number of bytes from one record to the next.
    pub array_stride: u64,
    pub step_mode: VertexStepMode,
    pub attributes: Vec<VertexAttribute>,
}

impl VertexBufferLayout {
    /// The attributes lie one behind the other from the start of the
    /// record and end within it, and their locations count up by one.
    pub open spec fn is_tight(&self) -> bool {
        &&& self.attributes@.len() > 0
        &&& self.attributes@[0].offset == 0
        &&& forall|i: int|
            #![trigger self.attributes@[i]]
            0 <= i < self.attributes@.len() - 1 ==> {
                &&& self.attributes@[i + 1].offset == self.attributes@[i].offset
                    + self.attributes@[i].format.size()
                &&& self.attributes@[i + 1].shader_location == self.attributes@[i].shader_location
                    + 1
            }
        &&& self.attributes@.last().offset + self.attributes@.last().format.size()
            <= self.array_stride
    }

    /// The location of the first attribute.
    pub open spec fn first_location(&self) -> int {
        self.attributes@[0].shader_location as int
    }
}

/// A vertex type that can describe its layout in a vertex buffer.
pub trait VertexLayout {
    /// The layout of the vertex type: attributes that lie one behind the
    /// other, within the record.
    fn vertex_buffer_layout() -> (layout: VertexBufferLayout)
        ensures
            layout.is_tight(),
    ;
}

impl VertexLayout for Vertex {
    fn vertex_buffer_layout() -> (layout: VertexBufferLayout)
        ensures
            layout.array_stride == 32,
            layout.step_mode == VertexStepMode::Vertex,
            layout.attributes@ == Vertex::attributes(),
    {
        Vertex::vertex_buffer_layout()
    }
}

impl Vertex {
    /// The attributes of a mesh vertex: position at location 0, normal at
    /// location 1, texture coordinates at location 2.
    pub open spec fn attributes() -> Seq<VertexAttribute> {
        seq![
            VertexAttribute { offset: 0, shader_location: 0, format: VertexFormat::Float32x3 },
            VertexAttribute { offset: 12, shader_location: 1, format: VertexFormat::Float32x3 },
            VertexAttribute { offset: 24, shader_location: 2, format: VertexFormat::Float32x2 },
        ]
    }

    /// Get a description of the vertex layout: records of 32 bytes, one
    /// for each vertex.
    pub fn vertex_buffer_layout() -> (layout: VertexBufferLayout)
        ensures
            layout.array_stride == 32,
            layout.step_mode == VertexStepMode::Vertex,
            layout.attributes@ == Self::attributes(),
            layout.is_tight(),
    {
        let mut attributes: Vec<VertexAttribute> = Vec::new();
        attributes.push(
            VertexAttribute { offset: 0, shader_location: 0, format: VertexFormat::Float32x3 },
        );
        attributes.push(
            VertexAttribute { offset: 12, shader_location: 1, format: VertexFormat::Float32x3 },
        );
        attributes.push(
            VertexAttribute { offset: 24, shader_location: 2, format: VertexFormat::Float32x2 },
        );
        assert(attributes@ =~= Self::attributes());
        VertexBufferLayout { array_stride: 32, step_mode: VertexStepMode::Vertex, attributes }
    }

    /// The stride of the vertex layout is the size of a vertex.
    pub proof fn lemma_stride_is_size(v: Vertex)
        ensures
            4 * v.words().len() == 32,
    {
    }
}

impl DebugVertex {
    /// The attributes of a debug vertex: position at location 0, texture
    /// coordinates at location 1.
    pub open spec fn attributes() -> Seq<VertexAttribute> {
        seq![
            VertexAttribute { offset: 0, shader_location: 0, format: VertexFormat::Float32x3 },
            VertexAttribute { offset: 12, shader_location: 1, format: VertexFormat::Float32x2 },
        ]
    }

    /// Vertex buffer format for `DebugVertex`: records of 20 bytes, one
    /// for each vertex.
    pub fn desc() -> (layout: VertexBufferLayout)
        ensures
            layout.array_stride == 20,
            layout.step_mode == VertexStepMode::Vertex,
            layout.attributes@ == Self::attributes(),
            layout.is_tight(),
    {
        let mut attributes: Vec<VertexAttribute> = Vec::new();
        attributes.push(
            VertexAttribute { offset: 0, shader_location: 0, format: VertexFormat::Float32x3 },
        );
        attributes.push(
            VertexAttribute { offset: 12, shader_location: 1, format: VertexFormat::Float32x2 },
        );
        assert(attributes@ =~= Self::attributes());
        VertexBufferLayout { array_stride: 20, step_mode: VertexStepMode::Vertex, attributes }
    }

    /// The stride of the vertex layout is the size of a vertex.
    pub proof fn lemma_stride_is_size(v: DebugVertex)
        ensures
            4 * v.words().len() == 20,
    {
    }
}

impl DebugMeshPackedInstance {
    /// The attributes of a light marker: the four columns of the matrix at
    /// locations 2 to 5 and the tint, with its padding, at location 6.
    pub open spec fn attributes() -> Seq<VertexAttribute> {
        seq![
            VertexAttribute { offset: 0, shader_location: 2, format: VertexFormat::Float32x4 },
            VertexAttribute { offset: 16, shader_location: 3, format: VertexFormat::Float32x4 },
            VertexAttribute { offset: 32, shader_location: 4, format: VertexFormat::Float32x4 },
            VertexAttribute { offset: 48, shader_location: 5, format: VertexFormat::Float32x4 },
            VertexAttribute { offset: 64, shader_location: 6, format: VertexFormat::Float32x4 },
        ]
    }

    /// The layout of the instance buffer of the light markers: records of
    /// 80 bytes, one for each instance. Its locations start behind those
    /// of a debug vertex.
    pub fn vertex_layout() -> (layout: VertexBufferLayout)
        ensures
            layout.array_stride == 80,
            layout.step_mode == VertexStepMode::Instance,
            layout.attributes@ == Self::attributes(),
            layout.is_tight(),
            layout.first_location() == DebugVertex::attributes().last().shader_location + 1,
    {
        let mut attributes: Vec<VertexAttribute> = Vec::new();
        let mut i: u32 = 0;
        while i < 5
            invariant
                0 <= i <= 5,
                attributes@ == Self::attributes().take(i as int),
            decreases 5 - i,
        {
            attributes.push(
                VertexAttribute {
                    offset: 16 * (i as u64),
                    shader_location: 2 + i,
                    format: VertexFormat::Float32x4,
                },
            );
            assert(attributes@ =~= Self::attributes().take(i + 1));
            i += 1;
        }
        assert(Self::attributes().take(5) =~= Self::attributes());
        VertexBufferLayout { array_stride: 80, step_mode: VertexStepMode::Instance, attributes }
    }

    /// The stride of the instance layout is the size of an instance.
    pub proof fn lemma_stride_is_size(v: DebugMeshPackedInstance)
        ensures
            4 * v.words().len() == 80,
    {
    }
}

/// The shader stages that see a binding.
#[derive(Clone, Copy, Debug, PartialEq, Eq, Structural)]
pub enum ShaderStages {
    Vertex,
    Fragment,
    VertexFragment,
}

/// What a binding binds.
#[derive(Clone, Copy, Debug, PartialEq, Eq, Structural)]
pub enum BindingType {
    /// A uniform buffer, bound whole.
    UniformBuffer,
    /// A sampler.
    Sampler { filtering: bool },
    /// A two-dimensional texture with scalar samples.
    Texture { filterable: bool },
}

/// One binding of a bind group layout.
#[derive(Clone, Copy, Debug, PartialEq, Eq, Structural)]
pub struct BindGroupLayoutEntry {
    pub binding: u32,
    pub visibility: ShaderStages,
    pub ty: BindingType,
}

/// The bindings of a bind group.
pub struct BindGroupLayoutDescriptor {
    pub entries: Vec<BindGroupLayoutEntry>,
}

impl BindGroupLayoutDescriptor {
    /// The entry with the number `i` has the binding `i`.
    pub open spec fn bindings_count_up(&self) -> bool {
        forall|i: int|
            0 <= i < self.entries@.len() ==> (#[trigger] self.entries@[i]).binding == i
    }
}

/// The one binding of a bind group that holds a uniform block for both
/// shader stages.
pub open spec fn uniform_block_entries() -> Seq<BindGroupLayoutEntry> {
    seq![
        BindGroupLayoutEntry {
            binding: 0,
            visibility: ShaderStages::VertexFragment,
            ty: BindingType::UniformBuffer,
        },
    ]
}

fn uniform_block_layout_desc() -> (desc: BindGroupLayoutDescriptor)
    ensures
        desc.entries@ == uniform_block_entries(),
        desc.bindings_count_up(),
{
    let mut entries: Vec<BindGroupLayoutEntry> = Vec::new();
    entries.push(
        BindGroupLayoutEntry {
            binding: 0,
            visibility: ShaderStages::VertexFragment,
            ty: BindingType::UniformBuffer,
        },
    );
    assert(entries@ =~= uniform_block_entries());
    BindGroupLayoutDescriptor { entries }
}

impl PerFrameShaderVals {
    /// Gets the bind group layout describing any instance of the
    /// per-frame uniforms.
    pub fn bind_group_layout_desc() -> (desc: BindGroupLayoutDescriptor)
        ensures
            desc.entries@ == uniform_block_entries(),
            desc.bindings_count_up(),
    {
        uniform_block_layout_desc()
    }
}

impl PerModelShaderVals {
    /// Gets the bind group layout describing any instance of the
    /// per-model uniforms.
    pub fn bind_group_layout_desc() -> (desc: BindGroupLayoutDescriptor)
        ensures
            desc.entries@ == uniform_block_entries(),
            desc.bindings_count_up(),
    {
        uniform_block_layout_desc()
    }
}

impl PerSubmeshShaderVals {
    /// The bindings of a per-submesh bind group: the uniform block, the
    /// texture sampler, and the diffuse, the specular and the emissive
    /// texture, all for the fragment stage.
    pub open spec fn layout_entries() -> Seq<BindGroupLayoutEntry> {
        seq![
            BindGroupLayoutEntry {
                binding: UNIFORMS_BINDING_SLOT,
                visibility: ShaderStages::Fragment,
                ty: BindingType::UniformBuffer,
            },
            BindGroupLayoutEntry {
                binding: SAMPLER_BINDING_SLOT,
                visibility: ShaderStages::Fragment,
                ty: BindingType::Sampler { filtering: true },
            },
            BindGroupLayoutEntry {
                binding: DIFFUSE_VIEW_BINDING_SLOT,
                visibility: ShaderStages::Fragment,
                ty: BindingType::Texture { filterable: true },
            },
            BindGroupLayoutEntry {
                binding: SPECULAR_VIEW_BINDING_SLOT,
                visibility: ShaderStages::Fragment,
                ty: BindingType::Texture { filterable: true },
            },
            BindGroupLayoutEntry {
                binding: EMISSIVE_VIEW_BINDING_SLOT,
                visibility: ShaderStages::Fragment,
                ty: BindingType::Texture { filterable: true },
            },
        ]
    }

    /// Gets the bind group layout describing any instance of the
    /// per-submesh shader values.
    ///
    /// Expected bind group inputs:
    ///  0 - uniforms
    ///  1 - texture map sampler
    ///  2 - diffuse texture
    ///  3 - specular texture
    ///  4 - emissive texture
    pub fn bind_group_layout_desc() -> (desc: BindGroupLayoutDescriptor)
        ensures
            desc.entries@ == Self::layout_entries(),
            desc.bindings_count_up(),
    {
        let mut entries: Vec<BindGroupLayoutEntry> = Vec::new();
        entries.push(
            BindGroupLayoutEntry {
                binding: UNIFORMS_BINDING_SLOT,
                visibility: ShaderStages::Fragment,
                ty: BindingType::UniformBuffer,
            },
        );
        entries.push(
            BindGroupLayoutEntry {
                binding: SAMPLER_BINDING_SLOT,
                visibility: ShaderStages::Fragment,
                ty: BindingType::Sampler { filtering: true },
            },
        );
        entries.push(
            BindGroupLayoutEntry {
                binding: DIFFUSE_VIEW_BINDING_SLOT,
                visibility: ShaderStages::Fragment,
                ty: BindingType::Texture { filterable: true },
            },
        );
        entries.push(
            BindGroupLayoutEntry {
                binding: SPECULAR_VIEW_BINDING_SLOT,
                visibility: ShaderStages::Fragment,
                ty: BindingType::Texture { filterable: true },
            },
        );
        entries.push(
            BindGroupLayoutEntry {
                binding: EMISSIVE_VIEW_BINDING_SLOT,
                visibility: ShaderStages::Fragment,
                ty: BindingType::Texture { filterable: true },
            },
        );
        assert(entries@ =~= Self::layout_entries());
        BindGroupLayoutDescriptor { entries }
    }
}

impl DepthPass {
    /// The bindings of the bind group of the depth visualization: the
    /// depth texture, which cannot be filtered, and a sampler that does
    /// not filter, both for the fragment stage.
    pub open spec fn layout_entries() -> Seq<BindGroupLayoutEntry> {
        seq![
            BindGroupLayoutEntry {
                binding: 0,
                visibility: ShaderStages::Fragment,
                ty: BindingType::Texture { filterable: false },
            },
            BindGroupLayoutEntry {
                binding: 1,
                visibility: ShaderStages::Fragment,
                ty: BindingType::Sampler { filtering: false },
            },
        ]
    }

    /// Gets the bind group layout of the depth visualization.
    pub fn bind_group_layout_desc() -> (desc: BindGroupLayoutDescriptor)
        ensures
            desc.entries@ == Self::layout_entries(),
            desc.bindings_count_up(),
    {
        let mut entries: Vec<BindGroupLayoutEntry> = Vec::new();
        entries.push(
            BindGroupLayoutEntry {
                binding: 0,
                visibility: ShaderStages::Fragment,
                ty: BindingType::Texture { filterable: false },
            },
        );
        entries.push(
            BindGroupLayoutEntry {
                binding: 1,
                visibility: ShaderStages::Fragment,
                ty: BindingType::Sampler { filtering: false },
            },
        );
        assert(entries@ =~= Self::layout_entries());
        BindGroupLayoutDescriptor { entries }
    }
}

} // verus!
