use vstd::prelude::*;
use crate::device::DeviceFeatures;
use crate::manifest::StaticMaterialDescriptor;
use crate::render_state::{
    BlendMode, BlendState, CullMode, DynamicRenderState, FrontFace, RenderState, blend_equation,
    spec_blend_equation, spec_cull_mode, spec_front_face,
};

verus! {

/// Shader kinds, as the numbers that shader tables carry.
pub struct ShaderType {}

impl ShaderType {
    pub const UNKNOWN: u32 = 0x0;
    pub const VERTEX_SHADER: u32 = 0x1;
    pub const FRAGMENT_SHADER: u32 = 0x2;
}

/// The pipeline stage a shader runs in.
#[derive(Clone, Copy, Debug, PartialEq, Eq, Structural)]
pub enum ShaderStage {
    Vertex,
    Fragment,
}

pub open spec fn spec_shader_stage(shader_type: u32) -> ShaderStage {
    if shader_type == ShaderType::FRAGMENT_SHADER { ShaderStage::Fragment } else { ShaderStage::Vertex }
}

/// A shader module, named by a handle that the caller owns, and its kind.
#[derive(Clone, Copy, Debug, PartialEq, Eq, Structural)]
pub struct ShaderBinding {
    pub shader: u64,
    pub shader_type: u32,
}

/// A shader stage of a compiled pipeline.
#[derive(Clone, Copy, Debug, PartialEq, Eq, Structural)]
pub struct StageDesc {
    pub shader: u64,
    pub stage: ShaderStage,
}

/// A uniform buffer bound to a material.
#[derive(Clone, Copy, Debug, PartialEq, Eq, Structural)]
pub struct UniformBinding {
    pub binding: u32,
    pub dynamic: bool,
}

/// A texture bound to a material, with its sampler filtering.
#[derive(Clone, Copy, Debug, PartialEq, Eq, Structural)]
pub struct TextureBinding {
    pub texture: u64,
    pub binding: u32,
    pub filtering: bool,
}

/// A push-constant range, visible to all graphics stages.
#[derive(Clone, Copy, Debug, PartialEq, Eq, Structural)]
pub struct PushConstantRange {
    pub offset: u32,
    pub size: u32,
}

/// Descriptor kinds a material's layout uses.
#[derive(Clone, Copy, Debug, PartialEq, Eq, Structural)]
pub enum DescriptorKind {
    UniformBuffer,
    UniformBufferDynamic,
    CombinedImageSampler,
}

/// One binding of a descriptor-set layout.
#[derive(Clone, Copy, Debug, PartialEq, Eq, Structural)]
pub struct LayoutBinding {
    pub binding: u32,
    pub kind: DescriptorKind,
}

/// How many descriptors of a kind a descriptor pool holds.
#[derive(Clone, Copy, Debug, PartialEq, Eq, Structural)]
pub struct PoolSize {
    pub kind: DescriptorKind,
    pub count: u32,
}

/// Pipeline state that is set per draw instead of baked into the pipeline.
#[derive(Clone, Copy, Debug, PartialEq, Eq, Structural)]
pub enum DynamicState {
    Viewport,
    Scissor,
    DepthTestEnable,
    DepthWriteEnable,
    CullMode,
    FrontFace,
    ColorBlendEnable,
    ColorBlendEquation,
}

/// Where a material stands in its compile cycle.
#[derive(Clone, Copy, Debug, PartialEq, Eq, Structural)]
pub enum MaterialState {
    Uncompiled,
    Compiled,
    Invalidated,
}

/// The state after a builder call: a compiled material becomes invalidated.
pub open spec fn spec_after_mutation(s: MaterialState) -> MaterialState {
    match s {
        MaterialState::Uncompiled => MaterialState::Uncompiled,
        _ => MaterialState::Invalidated,
    }
}

/// Whether validation has to build the pipeline.
pub open spec fn spec_needs_build(s: MaterialState) -> bool {
    s != MaterialState::Compiled
}

pub open spec fn spec_layout_binding_of_uniform(u: UniformBinding) -> LayoutBinding {
    LayoutBinding {
        binding: u.binding,
        kind: if u.dynamic { DescriptorKind::UniformBufferDynamic } else { DescriptorKind::UniformBuffer },
    }
}

pub open spec fn spec_layout_binding_of_texture(t: TextureBinding) -> LayoutBinding {
    LayoutBinding { binding: t.binding, kind: DescriptorKind::CombinedImageSampler }
}

/// Uniform bindings in declaration order, then texture bindings in declaration order.
pub open spec fn spec_layout_bindings(uniforms: Seq<UniformBinding>, textures: Seq<TextureBinding>) -> Seq<LayoutBinding> {
    uniforms.map_values(|u: UniformBinding| spec_layout_binding_of_uniform(u))
        + textures.map_values(|t: TextureBinding| spec_layout_binding_of_texture(t))
}

pub open spec fn spec_stage_desc(s: ShaderBinding) -> StageDesc {
    StageDesc { shader: s.shader, stage: spec_shader_stage(s.shader_type) }
}

/// The state kept dynamic: always viewport, scissor, depth test and write, cull
/// mode and front face; blend enable and equation too where the device allows.
pub open spec fn spec_dynamic_states(features: DeviceFeatures) -> Seq<DynamicState> {
    seq![
        DynamicState::Viewport,
        DynamicState::Scissor,
        DynamicState::DepthTestEnable,
        DynamicState::DepthWriteEnable,
        DynamicState::CullMode,
        DynamicState::FrontFace,
    ] + if features.dynamic_state_3 {
        seq![DynamicState::ColorBlendEnable, DynamicState::ColorBlendEquation]
    } else {
        Seq::<DynamicState>::empty()
    }
}

/// Number of dynamic uniforms.
pub open spec fn spec_count_dynamic(uniforms: Seq<UniformBinding>) -> nat
    decreases uniforms.len(),
{
    if uniforms.len() == 0 {
        0
    } else {
        spec_count_dynamic(uniforms.drop_last()) + if uniforms.last().dynamic { 1nat } else { 0nat }
    }
}

/// The offsets of the dynamic uniforms, in declaration order.
pub open spec fn spec_dynamic_offsets(uniforms: Seq<UniformBinding>, offsets: Seq<u32>) -> Seq<u32>
    decreases uniforms.len(),
{
    if uniforms.len() == 0 {
        Seq::<u32>::empty()
    } else {
        let rest = spec_dynamic_offsets(uniforms.drop_last(), offsets);
        if uniforms.last().dynamic {
            rest.push(offsets[uniforms.len() - 1])
        } else {
            rest
        }
    }
}

pub open spec fn spec_pool_entry(kind: DescriptorKind, n: nat, frame_count: nat) -> Seq<PoolSize> {
    if n > 0 {
        seq![PoolSize { kind, count: (n * frame_count) as u32 }]
    } else {
        Seq::<PoolSize>::empty()
    }
}

/// Static uniforms, dynamic uniforms and textures, each times the frame slots;
/// a kind with no binding gets no entry.
pub open spec fn spec_pool_sizes(uniforms: Seq<UniformBinding>, texture_count: nat, frame_count: nat) -> Seq<PoolSize> {
    let n_dynamic = spec_count_dynamic(uniforms);
    let n_static = (uniforms.len() - n_dynamic) as nat;
    spec_pool_entry(DescriptorKind::UniformBuffer, n_static, frame_count)
        + spec_pool_entry(DescriptorKind::UniformBufferDynamic, n_dynamic, frame_count)
        + spec_pool_entry(DescriptorKind::CombinedImageSampler, texture_count, frame_count)
}

/// Everything that is needed to build a material's pipeline-state object,
/// its layout, its descriptor pool and one descriptor set per frame slot.
pub struct PipelineBuild {
    /// The descriptor pool and sets, then the pipeline and its layout, that
    /// an earlier build made are to be freed first.
    pub release_previous: bool,
    pub stages: Vec<StageDesc>,
    pub push_constant_ranges: Vec<PushConstantRange>,
    pub dynamic_states: Vec<DynamicState>,
    pub cull_mode: CullMode,
    pub front_face: FrontFace,
    pub depth_test: bool,
    pub depth_write: bool,
    pub blend: BlendState,
    pub layout_bindings: Vec<LayoutBinding>,
    pub pool_sizes: Vec<PoolSize>,
    /// Descriptor sets to allocate: one per frame slot, none without bindings.
    pub descriptor_sets: usize,
    /// The writes that populate each of those sets.
    pub descriptor_writes: Vec<DescriptorWrite>,
}

/// What a bind records into the current command buffer.
pub struct BindPlan {
    /// A build to run first, where the material was not compiled.
    pub build: Option<PipelineBuild>,
    pub render_state: DynamicRenderState,
    /// The descriptor set to bind, by frame slot.
    pub descriptor_set: Option<usize>,
    /// Offsets of the dynamic uniforms, in declaration order.
    pub dynamic_offsets: Vec<u32>,
}

/// The model of a material: its lifecycle state and what was added to it.
pub struct MaterialModel {
    pub state: MaterialState,
    pub render_state: RenderState,
    pub shaders: Seq<ShaderBinding>,
    pub uniforms: Seq<UniformBinding>,
    pub textures: Seq<TextureBinding>,
    pub push_constant_ranges: Seq<PushConstantRange>,
    pub font: Option<u64>,
}

impl MaterialModel {
    /// The model after a successful validation.
    pub open spec fn after_validate(self) -> MaterialModel {
        MaterialModel { state: MaterialState::Compiled, ..self }
    }

    /// The model after a bind: validated, and render state pushed.
    pub open spec fn after_bind(self) -> MaterialModel {
        MaterialModel {
            state: MaterialState::Compiled,
            render_state: self.render_state.with_modified(false),
            ..self
        }
    }

    /// The model after a builder call.
    pub open spec fn mutated(self) -> MaterialModel {
        MaterialModel { state: spec_after_mutation(self.state), ..self }
    }

    /// Whether the descriptor counts of a build for `frame_count` slots fit the
    /// 32-bit counts that the driver takes.
    pub open spec fn counts_fit(self, frame_count: nat) -> bool {
        (self.uniforms.len() + self.textures.len()) * frame_count <= u32::MAX
    }

    pub open spec fn spec_build(self, features: DeviceFeatures, frame_count: nat) -> PipelineBuildModel {
        let bindings = spec_layout_bindings(self.uniforms, self.textures);
        PipelineBuildModel {
            release_previous: self.state == MaterialState::Invalidated,
            stages: self.shaders.map_values(|s: ShaderBinding| spec_stage_desc(s)),
            push_constant_ranges: self.push_constant_ranges,
            dynamic_states: spec_dynamic_states(features),
            cull_mode: spec_cull_mode(self.render_state.backface_culling),
            front_face: spec_front_face(self.render_state.frontface_clockwise),
            depth_test: self.render_state.depth_testing,
            depth_write: self.render_state.depth_writing,
            blend: BlendState {
                enable: self.render_state.enable_blending,
                equation: spec_blend_equation(self.render_state.blend_mode),
            },
            layout_bindings: bindings,
            pool_sizes: if bindings.len() > 0 {
                spec_pool_sizes(self.uniforms, self.textures.len(), frame_count)
            } else {
                Seq::<PoolSize>::empty()
            },
            descriptor_sets: if bindings.len() > 0 { frame_count } else { 0 },
            descriptor_writes: if bindings.len() > 0 {
                spec_descriptor_writes(self.uniforms, self.textures)
            } else {
                Seq::<DescriptorWrite>::empty()
            },
        }
    }
}

/// The model of a `PipelineBuild`.
pub struct PipelineBuildModel {
    pub release_previous: bool,
    pub stages: Seq<StageDesc>,
    pub push_constant_ranges: Seq<PushConstantRange>,
    pub dynamic_states: Seq<DynamicState>,
    pub cull_mode: CullMode,
    pub front_face: FrontFace,
    pub depth_test: bool,
    pub depth_write: bool,
    pub blend: BlendState,
    pub layout_bindings: Seq<LayoutBinding>,
    pub pool_sizes: Seq<PoolSize>,
    pub descriptor_sets: nat,
    pub descriptor_writes: Seq<DescriptorWrite>,
}

impl View for PipelineBuild {
    type V = PipelineBuildModel;

    open spec fn view(&self) -> PipelineBuildModel {
        PipelineBuildModel {
            release_previous: self.release_previous,
            stages: self.stages@,
            push_constant_ranges: self.push_constant_ranges@,
            dynamic_states: self.dynamic_states@,
            cull_mode: self.cull_mode,
            front_face: self.front_face,
            depth_test: self.depth_test,
            depth_write: self.depth_write,
            blend: self.blend,
            layout_bindings: self.layout_bindings@,
            pool_sizes: self.pool_sizes@,
            descriptor_sets: self.descriptor_sets as nat,
            descriptor_writes: self.descriptor_writes@,
        }
    }
}

/// A material: render state, shader stages, uniform and texture bindings and
/// push-constant ranges, compiled lazily into a pipeline on the next bind.
pub struct Material {
    state: MaterialState,
    render_state: RenderState,
    shaders: Vec<ShaderBinding>,
    uniforms: Vec<UniformBinding>,
    textures: Vec<TextureBinding>,
    push_constant_ranges: Vec<PushConstantRange>,
    font: Option<u64>,
}

impl View for Material {
    type V = MaterialModel;

    closed spec fn view(&self) -> MaterialModel {
        MaterialModel {
            state: self.state,
            render_state: self.render_state,
            shaders: self.shaders@,
            uniforms: self.uniforms@,
            textures: self.textures@,
            push_constant_ranges: self.push_constant_ranges@,
            font: self.font,
        }
    }
}

/// What a descriptor write takes its resource from.
#[derive(Clone, Copy, Debug, PartialEq, Eq, Structural)]
pub enum WriteSource {
    /// The uniform at this position of the material's uniforms.
    Uniform(usize),
    /// The texture at this position of the material's textures.
    Texture(usize),
}

/// One write that populates a descriptor set.
#[derive(Clone, Copy, Debug, PartialEq, Eq, Structural)]
pub struct DescriptorWrite {
    pub binding: u32,
    pub kind: DescriptorKind,
    pub source: WriteSource,
}

/// A texture binding of `u32::MAX` is unassigned and gets no write.
pub open spec fn spec_texture_writes(textures: Seq<TextureBinding>) -> Seq<DescriptorWrite>
    decreases textures.len(),
{
    if textures.len() == 0 {
        Seq::<DescriptorWrite>::empty()
    } else {
        let rest = spec_texture_writes(textures.drop_last());
        let t = textures.last();
        if t.binding == u32::MAX {
            rest
        } else {
            rest.push(DescriptorWrite {
                binding: t.binding,
                kind: DescriptorKind::CombinedImageSampler,
                source: WriteSource::Texture((textures.len() - 1) as usize),
            })
        }
    }
}

/// The writes that populate each frame slot's descriptor set: every uniform
/// in order, then every texture with an assigned binding, in order.
pub open spec fn spec_descriptor_writes(uniforms: Seq<UniformBinding>, textures: Seq<TextureBinding>) -> Seq<DescriptorWrite> {
    Seq::new(
        uniforms.len(),
        |i: int|
            DescriptorWrite {
                binding: uniforms[i].binding,
                kind: spec_layout_binding_of_uniform(uniforms[i]).kind,
                source: WriteSource::Uniform(i as usize),
            },
    ) + spec_texture_writes(textures)
}

pub fn descriptor_writes(uniforms: &Vec<UniformBinding>, textures: &Vec<TextureBinding>) -> (r: Vec<DescriptorWrite>)
    ensures
        r@ == spec_descriptor_writes(uniforms@, textures@),
{
    let mut r: Vec<DescriptorWrite> = Vec::new();
    let mut i: usize = 0;
    while i < uniforms.len()
        invariant
            i <= uniforms.len(),
            r@ == Seq::new(
                i as nat,
                |k: int|
                    DescriptorWrite {
                        binding: uniforms@[k].binding,
                        kind: spec_layout_binding_of_uniform(uniforms@[k]).kind,
                        source: WriteSource::Uniform(k as usize),
                    },
            ),
        decreases uniforms.len() - i,
    {
        let u = uniforms[i];
        let kind = if u.dynamic { DescriptorKind::UniformBufferDynamic } else { DescriptorKind::UniformBuffer };
        r.push(DescriptorWrite { binding: u.binding, kind, source: WriteSource::Uniform(i) });
        i = i + 1;
        assert(r@ =~= Seq::new(
            i as nat,
            |k: int|
                DescriptorWrite {
                    binding: uniforms@[k].binding,
                    kind: spec_layout_binding_of_uniform(uniforms@[k]).kind,
                    source: WriteSource::Uniform(k as usize),
                },
        ));
    }
    let ghost head = r@;
    let mut j: usize = 0;
    while j < textures.len()
        invariant
            j <= textures.len(),
            r@ == head + spec_texture_writes(textures@.subrange(0, j as int)),
        decreases textures.len() - j,
    {
        let t = textures[j];
        let ghost prefix = textures@.subrange(0, j + 1);
        assert(prefix.drop_last() == textures@.subrange(0, j as int));
        if t.binding != u32::MAX {
            r.push(DescriptorWrite { binding: t.binding, kind: DescriptorKind::CombinedImageSampler, source: WriteSource::Texture(j) });
        }
        j = j + 1;
    }
    assert(textures@.subrange(0, textures.len() as int) == textures@);
    r
}

/// Layout bindings of the uniforms and then the textures.
pub fn layout_bindings(uniforms: &Vec<UniformBinding>, textures: &Vec<TextureBinding>) -> (r: Vec<LayoutBinding>)
    ensures
        r@ == spec_layout_bindings(uniforms@, textures@),
{
    let mut r: Vec<LayoutBinding> = Vec::new();
    let mut i: usize = 0;
    while i < uniforms.len()
        invariant
            i <= uniforms.len(),
            r@ == uniforms@.subrange(0, i as int).map_values(|u: UniformBinding| spec_layout_binding_of_uniform(u)),
        decreases uniforms.len() - i,
    {
        let u = uniforms[i];
        let kind = if u.dynamic { DescriptorKind::UniformBufferDynamic } else { DescriptorKind::UniformBuffer };
        r.push(LayoutBinding { binding: u.binding, kind });
        assert(uniforms@.subrange(0, i + 1) == uniforms@.subrange(0, i as int).push(u));
        i = i + 1;
    }
    assert(uniforms@.subrange(0, uniforms.len() as int) == uniforms@);
    let ghost head = r@;
    let mut j: usize = 0;
    while j < textures.len()
        invariant
            j <= textures.len(),
            r@ == head + textures@.subrange(0, j as int).map_values(|t: TextureBinding| spec_layout_binding_of_texture(t)),
        decreases textures.len() - j,
    {
        let t = textures[j];
        r.push(LayoutBinding { binding: t.binding, kind: DescriptorKind::CombinedImageSampler });
        assert(textures@.subrange(0, j + 1) == textures@.subrange(0, j as int).push(t));
        j = j + 1;
    }
    assert(textures@.subrange(0, textures.len() as int) == textures@);
    r
}

/// Number of dynamic uniforms in `uniforms`.
pub fn count_dynamic(uniforms: &Vec<UniformBinding>) -> (r: usize)
    ensures
        r == spec_count_dynamic(uniforms@),
        r <= uniforms.len(),
{
    let mut n: usize = 0;
    let mut i: usize = 0;
    while i < uniforms.len()
        invariant
            i <= uniforms.len(),
            n == spec_count_dynamic(uniforms@.subrange(0, i as int)),
            n <= i,
        decreases uniforms.len() - i,
    {
        assert(uniforms@.subrange(0, i + 1).drop_last() == uniforms@.subrange(0, i as int));
        if uniforms[i].dynamic {
            n = n + 1;
        }
        i = i + 1;
    }
    assert(uniforms@.subrange(0, uniforms.len() as int) == uniforms@);
    n
}

/// The offsets of the dynamic uniforms, in declaration order, taken from the
/// current offsets of all uniforms.
pub fn dynamic_offsets(uniforms: &Vec<UniformBinding>, offsets: &Vec<u32>) -> (r: Vec<u32>)
    requires
        offsets.len() == uniforms.len(),
    ensures
        r@ == spec_dynamic_offsets(uniforms@, offsets@),
{
    let mut r: Vec<u32> = Vec::new();
    let mut i: usize = 0;
    while i < uniforms.len()
        invariant
            i <= uniforms.len(),
            offsets.len() == uniforms.len(),
            r@ == spec_dynamic_offsets(uniforms@.subrange(0, i as int), offsets@),
        decreases uniforms.len() - i,
    {
        assert(uniforms@.subrange(0, i + 1).drop_last() == uniforms@.subrange(0, i as int));
        if uniforms[i].dynamic {
            r.push(offsets[i]);
        }
        i = i + 1;
    }
    assert(uniforms@.subrange(0, uniforms.len() as int) == uniforms@);
    r
}

/// The per-draw dynamic state of a pipeline on a device with `features`.
pub fn dynamic_states(features: &DeviceFeatures) -> (r: Vec<DynamicState>)
    ensures
        r@ == spec_dynamic_states(*features),
{
    let mut r: Vec<DynamicState> = Vec::new();
    r.push(DynamicState::Viewport);
    r.push(DynamicState::Scissor);
    r.push(DynamicState::DepthTestEnable);
    r.push(DynamicState::DepthWriteEnable);
    r.push(DynamicState::CullMode);
    r.push(DynamicState::FrontFace);
    if features.has_dynamic_state_3() {
        r.push(DynamicState::ColorBlendEnable);
        r.push(DynamicState::ColorBlendEquation);
    }
    assert(r@ == spec_dynamic_states(*features));
    r
}

/// Descriptor pool sizes for `frame_count` slots.
pub fn pool_sizes(uniforms: &Vec<UniformBinding>, texture_count: usize, frame_count: usize) -> (r: Vec<PoolSize>)
    requires
        (uniforms.len() + texture_count) * frame_count <= u32::MAX,
    ensures
        r@ == spec_pool_sizes(uniforms@, texture_count as nat, frame_count as nat),
{
    let n_dynamic = count_dynamic(uniforms);
    let n_static = uniforms.len() - n_dynamic;
    proof {
        assert(n_static * frame_count <= (uniforms.len() + texture_count) * frame_count) by (nonlinear_arith)
            requires n_static <= uniforms.len();
        assert(n_dynamic * frame_count <= (uniforms.len() + texture_count) * frame_count) by (nonlinear_arith)
            requires n_dynamic <= uniforms.len();
        assert(texture_count * frame_count <= (uniforms.len() + texture_count) * frame_count) by (nonlinear_arith);
    }
    let mut r: Vec<PoolSize> = Vec::new();
    if n_static > 0 {
        r.push(PoolSize { kind: DescriptorKind::UniformBuffer, count: (n_static * frame_count) as u32 });
    }
    let ghost a = r@;
    if n_dynamic > 0 {
        r.push(PoolSize { kind: DescriptorKind::UniformBufferDynamic, count: (n_dynamic * frame_count) as u32 });
    }
    let ghost b = r@;
    if texture_count > 0 {
        r.push(PoolSize { kind: DescriptorKind::CombinedImageSampler, count: (texture_count * frame_count) as u32 });
    }
    proof {
        let n_d = spec_count_dynamic(uniforms@);
        let n_s = (uniforms@.len() - n_d) as nat;
        assert(a == spec_pool_entry(DescriptorKind::UniformBuffer, n_s, frame_count as nat));
        assert(b == a + spec_pool_entry(DescriptorKind::UniformBufferDynamic, n_d, frame_count as nat));
        assert(r@ == b + spec_pool_entry(DescriptorKind::CombinedImageSampler, texture_count as nat, frame_count as nat));
    }
    r
}

/// The pipeline stages of the shaders, in the order they were added.
pub fn stage_descs(shaders: &Vec<ShaderBinding>) -> (r: Vec<StageDesc>)
    ensures
        r@ == shaders@.map_values(|s: ShaderBinding| spec_stage_desc(s)),
{
    let mut r: Vec<StageDesc> = Vec::new();
    let mut i: usize = 0;
    while i < shaders.len()
        invariant
            i <= shaders.len(),
            r@ == shaders@.subrange(0, i as int).map_values(|s: ShaderBinding| spec_stage_desc(s)),
        decreases shaders.len() - i,
    {
        let s = shaders[i];
        let stage = if s.shader_type == ShaderType::FRAGMENT_SHADER { ShaderStage::Fragment } else { ShaderStage::Vertex };
        r.push(StageDesc { shader: s.shader, stage });
        assert(shaders@.subrange(0, i + 1) == shaders@.subrange(0, i as int).push(s));
        i = i + 1;
    }
    assert(shaders@.subrange(0, shaders.len() as int) == shaders@);
    r
}

impl Material {
    pub fn new() -> (r: Material)
        ensures
            r@.state == MaterialState::Uncompiled,
            r@.render_state == (RenderState {
                modified: true,
                enable_blending: true,
                blend_mode: crate::render_state::BlendMode::NORMAL,
                backface_culling: true,
                frontface_clockwise: false,
                depth_testing: false,
                depth_writing: false,
            }),
            r@.shaders.len() == 0,
            r@.uniforms.len() == 0,
            r@.textures.len() == 0,
            r@.push_constant_ranges.len() == 0,
            r@.font.is_none(),
    {
        Material {
            state: MaterialState::Uncompiled,
            render_state: RenderState::default(),
            shaders: Vec::new(),
            uniforms: Vec::new(),
            textures: Vec::new(),
            push_constant_ranges: Vec::new(),
            font: None,
        }
    }

    /// A material from its compiled descriptor. The caller resolves the named
    /// font, texture and shaders to handles; a resource whose name is empty
    /// is not used. Shaders are added vertex first.
    pub fn from_static(descriptor: &StaticMaterialDescriptor, font: u64, texture: u64, vertex_shader: u64, fragment_shader: u64) -> (r: Material)
        ensures
            r@.state == MaterialState::Uncompiled,
            r@.render_state == (RenderState {
                modified: true,
                enable_blending: descriptor.blending,
                blend_mode: BlendMode::spec_from_string(descriptor.blend_mode@),
                backface_culling: descriptor.backface_culling,
                frontface_clockwise: descriptor.frontface_clockwise,
                depth_testing: descriptor.depth_testing,
                depth_writing: descriptor.depth_writing,
            }),
            r@.font == (if descriptor.font@.len() > 0 { Some(font) } else { None::<u64> }),
            r@.textures == (if descriptor.texture@.len() > 0 {
                seq![TextureBinding { texture, binding: descriptor.texture_binding, filtering: descriptor.texture_filtering }]
            } else {
                Seq::<TextureBinding>::empty()
            }),
            r@.shaders == (if descriptor.vertex_shader@.len() > 0 {
                seq![ShaderBinding { shader: vertex_shader, shader_type: ShaderType::VERTEX_SHADER }]
            } else {
                Seq::<ShaderBinding>::empty()
            }) + (if descriptor.fragment_shader@.len() > 0 {
                seq![ShaderBinding { shader: fragment_shader, shader_type: ShaderType::FRAGMENT_SHADER }]
            } else {
                Seq::<ShaderBinding>::empty()
            }),
            r@.uniforms.len() == 0,
            r@.push_constant_ranges.len() == 0,
    {
        let mut material = Material::new();
        material.set_blending(descriptor.blending);
        material.set_blend_mode(BlendMode::from_string(descriptor.blend_mode));
        material.set_backface_culling(descriptor.backface_culling);
        material.set_frontface_clockwise(descriptor.frontface_clockwise);
        material.set_depth_testing(descriptor.depth_testing);
        material.set_depth_writing(descriptor.depth_writing);
        if !descriptor.font.is_empty() {
            material.set_font(font);
        }
        if !descriptor.texture.is_empty() {
            material.add_texture(texture, descriptor.texture_binding, descriptor.texture_filtering);
        }
        let ghost before_shaders = material@.shaders;
        if !descriptor.vertex_shader.is_empty() {
            material.add_shader(ShaderBinding { shader: vertex_shader, shader_type: ShaderType::VERTEX_SHADER });
        }
        if !descriptor.fragment_shader.is_empty() {
            material.add_shader(ShaderBinding { shader: fragment_shader, shader_type: ShaderType::FRAGMENT_SHADER });
        }
        proof {
            assert(material@.textures =~= (if descriptor.texture@.len() > 0 {
                seq![TextureBinding { texture, binding: descriptor.texture_binding, filtering: descriptor.texture_filtering }]
            } else {
                Seq::<TextureBinding>::empty()
            }));
            assert(material@.shaders =~= (if descriptor.vertex_shader@.len() > 0 {
                seq![ShaderBinding { shader: vertex_shader, shader_type: ShaderType::VERTEX_SHADER }]
            } else {
                Seq::<ShaderBinding>::empty()
            }) + (if descriptor.fragment_shader@.len() > 0 {
                seq![ShaderBinding { shader: fragment_shader, shader_type: ShaderType::FRAGMENT_SHADER }]
            } else {
                Seq::<ShaderBinding>::empty()
            }));
        }
        material
    }

    pub fn state(&self) -> (r: MaterialState)
        ensures
            r == self@.state,
    {
        self.state
    }

    pub fn render_state(&self) -> (r: RenderState)
        ensures
            r == self@.render_state,
    {
        self.render_state
    }

    pub fn shaders(&self) -> (r: &Vec<ShaderBinding>)
        ensures
            r@ == self@.shaders,
    {
        &self.shaders
    }

    pub fn uniforms(&self) -> (r: &Vec<UniformBinding>)
        ensures
            r@ == self@.uniforms,
    {
        &self.uniforms
    }

    pub fn textures(&self) -> (r: &Vec<TextureBinding>)
        ensures
            r@ == self@.textures,
    {
        &self.textures
    }

    pub fn push_constant_ranges(&self) -> (r: &Vec<PushConstantRange>)
        ensures
            r@ == self@.push_constant_ranges,
    {
        &self.push_constant_ranges
    }

    pub fn set_blending(&mut self, val: bool) -> (r: &mut Self)
        ensures
            r@ == (MaterialModel {
                render_state: RenderState {
                    enable_blending: val,
                    modified: old(self)@.render_state.modified || old(self)@.render_state.enable_blending != val,
                    ..old(self)@.render_state
                },
                ..old(self)@
            }),
            *final(self) == *final(r),
    {
        self.render_state.set_blending(val);
        self
    }

    pub fn set_blend_mode(&mut self, val: u32) -> (r: &mut Self)
        ensures
            r@ == (MaterialModel {
                render_state: RenderState {
                    blend_mode: val,
                    modified: old(self)@.render_state.modified || old(self)@.render_state.blend_mode != val,
                    ..old(self)@.render_state
                },
                ..old(self)@
            }),
            *final(self) == *final(r),
    {
        self.render_state.set_blend_mode(val);
        self
    }

    pub fn set_backface_culling(&mut self, val: bool) -> (r: &mut Self)
        ensures
            r@ == (MaterialModel {
                render_state: RenderState {
                    backface_culling: val,
                    modified: old(self)@.render_state.modified || old(self)@.render_state.backface_culling != val,
                    ..old(self)@.render_state
                },
                ..old(self)@
            }),
            *final(self) == *final(r),
    {
        self.render_state.set_backface_culling(val);
        self
    }

    pub fn set_frontface_clockwise(&mut self, val: bool) -> (r: &mut Self)
        ensures
            r@ == (MaterialModel {
                render_state: RenderState {
                    frontface_clockwise: val,
                    modified: old(self)@.render_state.modified || old(self)@.render_state.frontface_clockwise != val,
                    ..old(self)@.render_state
                },
                ..old(self)@
            }),
            *final(self) == *final(r),
    {
        self.render_state.set_frontface_clockwise(val);
        self
    }

    pub fn set_depth_testing(&mut self, val: bool) -> (r: &mut Self)
        ensures
            r@ == (MaterialModel {
                render_state: RenderState {
                    depth_testing: val,
                    modified: old(self)@.render_state.modified || old(self)@.render_state.depth_testing != val,
                    ..old(self)@.render_state
                },
                ..old(self)@
            }),
            *final(self) == *final(r),
    {
        self.render_state.set_depth_testing(val);
        self
    }

    pub fn set_depth_writing(&mut self, val: bool) -> (r: &mut Self)
        ensures
            r@ == (MaterialModel {
                render_state: RenderState {
                    depth_writing: val,
                    modified: old(self)@.render_state.modified || old(self)@.render_state.depth_writing != val,
                    ..old(self)@.render_state
                },
                ..old(self)@
            }),
            *final(self) == *final(r),
    {
        self.render_state.set_depth_writing(val);
        self
    }

    fn invalidate(&mut self)
        ensures
            final(self)@ == old(self)@.mutated(),
    {
        if self.state != MaterialState::Uncompiled {
            self.state = MaterialState::Invalidated;
        }
    }

    /// Appends a shader stage; takes effect on the next bind.
    pub fn add_shader(&mut self, shader: ShaderBinding) -> (r: &mut Self)
        ensures
            r@ == (MaterialModel { shaders: old(self)@.shaders.push(shader), ..old(self)@.mutated() }),
            *final(self) == *final(r),
    {
        self.shaders.push(shader);
        self.invalidate();
        self
    }

    /// Appends a push-constant range of `size` bytes at offset zero.
    pub fn add_push_constants(&mut self, size: u32) -> (r: &mut Self)
        ensures
            r@ == (MaterialModel {
                push_constant_ranges: old(self)@.push_constant_ranges.push(PushConstantRange { offset: 0, size }),
                ..old(self)@.mutated()
            }),
            *final(self) == *final(r),
    {
        self.push_constant_ranges.push(PushConstantRange { offset: 0, size });
        self.invalidate();
        self
    }

    /// Appends a uniform binding; takes effect on the next bind.
    pub fn add_uniform(&mut self, uniform: UniformBinding) -> (r: &mut Self)
        ensures
            r@ == (MaterialModel { uniforms: old(self)@.uniforms.push(uniform), ..old(self)@.mutated() }),
            *final(self) == *final(r),
    {
        self.uniforms.push(uniform);
        self.invalidate();
        self
    }

    /// Appends a texture binding; takes effect on the next bind.
    pub fn add_texture(&mut self, texture: u64, binding: u32, filtering: bool) -> (r: &mut Self)
        ensures
            r@ == (MaterialModel {
                textures: old(self)@.textures.push(TextureBinding { texture, binding, filtering }),
                ..old(self)@.mutated()
            }),
            *final(self) == *final(r),
    {
        self.textures.push(TextureBinding { texture, binding, filtering });
        self.invalidate();
        self
    }

    /// Sets the font used with this material; the pipeline is not affected.
    pub fn set_font(&mut self, font: u64) -> (r: &mut Self)
        ensures
            r@ == (MaterialModel { font: Some(font), ..old(self)@ }),
            *final(self) == *final(r),
    {
        self.font = Some(font);
        self
    }

    pub fn font(&self) -> (r: Option<u64>)
        ensures
            r == self@.font,
    {
        self.font
    }

    /// Builds the pipeline description when the material is not compiled, and
    /// does nothing when it is.
    pub fn validate(&mut self, features: &DeviceFeatures, frame_count: usize) -> (r: Option<PipelineBuild>)
        requires
            old(self)@.counts_fit(frame_count as nat),
        ensures
            final(self)@ == old(self)@.after_validate(),
            r.is_some() == spec_needs_build(old(self)@.state),
            r.is_some() ==> r.unwrap()@ == old(self)@.spec_build(*features, frame_count as nat),
    {
        if self.state == MaterialState::Compiled {
            return None;
        }
        let release_previous = self.state == MaterialState::Invalidated;
        let bindings = layout_bindings(&self.uniforms, &self.textures);
        let (pools, sets, writes) = if bindings.len() > 0 {
            proof {
                assert((self.uniforms.len() + self.textures.len()) * frame_count <= u32::MAX);
            }
            (
                pool_sizes(&self.uniforms, self.textures.len(), frame_count),
                frame_count,
                descriptor_writes(&self.uniforms, &self.textures),
            )
        } else {
            (Vec::new(), 0, Vec::new())
        };
        let rs = self.render_state;
        let build = PipelineBuild {
            release_previous,
            stages: stage_descs(&self.shaders),
            push_constant_ranges: self.push_constant_ranges.clone(),
            dynamic_states: dynamic_states(features),
            cull_mode: if rs.backface_culling { CullMode::Back } else { CullMode::Disabled },
            front_face: if rs.frontface_clockwise { FrontFace::Clockwise } else { FrontFace::CounterClockwise },
            depth_test: rs.depth_testing,
            depth_write: rs.depth_writing,
            blend: BlendState { enable: rs.enable_blending, equation: blend_equation(rs.blend_mode) },
            layout_bindings: bindings,
            pool_sizes: pools,
            descriptor_sets: sets,
            descriptor_writes: writes,
        };
        self.state = MaterialState::Compiled;
        proof {
            assert(build.push_constant_ranges@ == old(self)@.push_constant_ranges);
            assert(build@ == old(self)@.spec_build(*features, frame_count as nat));
        }
        Some(build)
    }

    /// Validates, then hands out what to record: the render state to push,
    /// the descriptor set of `frame_index`, and the dynamic offsets gathered
    /// from `offsets` (the current offset of every uniform, in order).
    pub fn bind(&mut self, features: &DeviceFeatures, frame_count: usize, frame_index: usize, offsets: &Vec<u32>) -> (r: BindPlan)
        requires
            old(self)@.counts_fit(frame_count as nat),
            offsets.len() == old(self)@.uniforms.len(),
        ensures
            final(self)@ == old(self)@.after_bind(),
            r.build.is_some() == spec_needs_build(old(self)@.state),
            r.build.is_some() ==> r.build.unwrap()@ == old(self)@.spec_build(*features, frame_count as nat),
            r.render_state == old(self)@.render_state.spec_dynamic_state(*features),
            r.descriptor_set == (if old(self)@.uniforms.len() + old(self)@.textures.len() > 0 && frame_index < frame_count {
                Some(frame_index)
            } else {
                None::<usize>
            }),
            r.dynamic_offsets@ == spec_dynamic_offsets(old(self)@.uniforms, offsets@),
    {
        let build = self.validate(features, frame_count);
        let render_state = self.render_state.push(features);
        let has_sets = self.uniforms.len() > 0 || self.textures.len() > 0;
        let descriptor_set = if has_sets && frame_index < frame_count { Some(frame_index) } else { None };
        let dynamic_offsets = dynamic_offsets(&self.uniforms, offsets);
        BindPlan { build, render_state, descriptor_set, dynamic_offsets }
    }
}

/// Binding a material twice with no builder call in between builds its
/// pipeline at most once: after the first bind the material is compiled, so
/// the second bind builds nothing, and it leaves the model as the first left it.
pub proof fn lemma_bind_twice_builds_once(m: MaterialModel)
    ensures
        !spec_needs_build(m.after_bind().state),
        m.after_bind().after_bind() == m.after_bind(),
{
}

/// After any builder call the next bind rebuilds the pipeline, whatever
/// state the material was in.
pub proof fn lemma_mutation_forces_rebuild(m: MaterialModel)
    ensures
        spec_needs_build(m.mutated().state),
{
}

/// Materials by name, in the order they were first added; names are unique.
pub struct Materials {
    names: Vec<String>,
    materials: Vec<Material>,
}

impl Materials {
    pub closed spec fn spec_names(&self) -> Seq<Seq<char>> {
        self.names@.map_values(|s: String| s@)
    }

    pub closed spec fn spec_materials(&self) -> Seq<MaterialModel> {
        self.materials@.map_values(|m: Material| m@)
    }

    /// One material per name, and no name twice.
    pub closed spec fn wf(&self) -> bool {
        &&& self.names@.len() == self.materials@.len()
        &&& forall|i: int, j: int| 0 <= i < j < self.names@.len() ==> self.names@[i]@ != self.names@[j]@
    }

    pub open spec fn spec_index_of(&self, name: Seq<char>, i: int) -> bool {
        0 <= i < self.spec_names().len() && self.spec_names()[i] == name
    }

    pub fn new() -> (r: Materials)
        ensures
            r.wf(),
            r.spec_names().len() == 0,
            r.spec_materials().len() == 0,
    {
        let r = Materials { names: Vec::new(), materials: Vec::new() };
        assert(r.spec_names() =~= Seq::<Seq<char>>::empty());
        assert(r.spec_materials() =~= Seq::<MaterialModel>::empty());
        r
    }

    pub fn len(&self) -> (r: usize)
        requires
            self.wf(),
        ensures
            r == self.spec_names().len(),
    {
        self.names.len()
    }

    /// Position of the material named `name`.
    pub fn index_of(&self, name: &str) -> (r: Option<usize>)
        requires
            self.wf(),
        ensures
            r.is_some() ==> self.spec_index_of(name@, r.unwrap() as int),
            r.is_none() ==> !self.spec_names().contains(name@),
    {
        let mut i: usize = 0;
        while i < self.names.len()
            invariant
                i <= self.names@.len(),
                forall|k: int| 0 <= k < i ==> self.names@[k]@ != name@,
            decreases self.names@.len() - i,
        {
            if self.names[i].as_str().to_owned() == name.to_owned() {
                return Some(i);
            }
            i = i + 1;
        }
        proof {
            if self.spec_names().contains(name@) {
                let k = choose|k: int| 0 <= k < self.spec_names().len() && self.spec_names()[k] == name@;
                assert(self.names@[k]@ == name@);
            }
        }
        None
    }

    /// Adds a material under `name`, replacing one of the same name in place.
    pub fn add_material(&mut self, name: &str, material: Material)
        requires
            old(self).wf(),
        ensures
            final(self).wf(),
            old(self).spec_names().contains(name@) ==> final(self).spec_names() == old(self).spec_names()
                && exists|i: int| old(self).spec_index_of(name@, i)
                    && final(self).spec_materials() == old(self).spec_materials().update(i, material@),
            !old(self).spec_names().contains(name@) ==> final(self).spec_names() == old(self).spec_names().push(name@)
                && final(self).spec_materials() == old(self).spec_materials().push(material@),
    {
        match self.index_of(name) {
            Some(i) => {
                let ghost before = self.materials@;
                self.materials.set(i, material);
                proof {
                    assert(self.spec_materials() =~= before.map_values(|m: Material| m@).update(i as int, material@));
                    assert(old(self).spec_index_of(name@, i as int));
                }
            },
            None => {
                let ghost names_before = self.names@;
                let ghost before = self.materials@;
                self.names.push(name.to_owned());
                self.materials.push(material);
                proof {
                    assert(self.spec_names() =~= names_before.map_values(|s: String| s@).push(name@));
                    assert(self.spec_materials() =~= before.map_values(|m: Material| m@).push(material@));
                    assert forall|a: int, b: int| 0 <= a < b < self.names@.len() implies self.names@[a]@ != self.names@[b]@ by {
                        if b == names_before.len() {
                            assert(names_before[a]@ == names_before.map_values(|s: String| s@)[a]);
                        }
                    }
                }
            },
        }
    }

    /// The material named `name`, if there is one.
    pub fn get(&self, name: &str) -> (r: Option<&Material>)
        requires
            self.wf(),
        ensures
            r.is_some() == self.spec_names().contains(name@),
            r.is_some() ==> exists|i: int| self.spec_index_of(name@, i) && r.unwrap()@ == self.spec_materials()[i],
    {
        match self.index_of(name) {
            Some(i) => {
                let m = &self.materials[i];
                assert(self.spec_materials()[i as int] == m@);
                Some(m)
            },
            None => None,
        }
    }

    /// The material added first, if any.
    pub fn get_default(&self) -> (r: Option<&Material>)
        requires
            self.wf(),
        ensures
            r.is_some() == (self.spec_materials().len() > 0),
            r.is_some() ==> r.unwrap()@ == self.spec_materials()[0],
    {
        if self.materials.len() == 0 {
            None
        } else {
            Some(&self.materials[0])
        }
    }

    /// Validates every material, in order: the builds that are due.
    pub fn compile(&mut self, features: &DeviceFeatures, frame_count: usize) -> (r: Vec<Option<PipelineBuild>>)
        requires
            old(self).wf(),
            forall|i: int| 0 <= i < old(self).spec_materials().len() ==> (#[trigger] old(self).spec_materials()[i]).counts_fit(frame_count as nat),
        ensures
            final(self).wf(),
            final(self).spec_names() == old(self).spec_names(),
            final(self).spec_materials().len() == old(self).spec_materials().len(),
            r@.len() == old(self).spec_materials().len(),
            forall|i: int| 0 <= i < r@.len() ==> {
                &&& #[trigger] final(self).spec_materials()[i] == old(self).spec_materials()[i].after_validate()
                &&& r@[i].is_some() == spec_needs_build(old(self).spec_materials()[i].state)
                &&& r@[i].is_some() ==> r@[i].unwrap()@ == old(self).spec_materials()[i].spec_build(*features, frame_count as nat)
            },
    {
        let mut r: Vec<Option<PipelineBuild>> = Vec::new();
        let ghost start = self.spec_materials();
        let mut i: usize = 0;
        while i < self.materials.len()
            invariant
                i <= self.materials@.len(),
                self.wf(),
                self.spec_names() == old(self).spec_names(),
                self.spec_materials().len() == start.len(),
                start == old(self).spec_materials(),
                forall|k: int| 0 <= k < start.len() ==> (#[trigger] start[k]).counts_fit(frame_count as nat),
                r@.len() == i,
                forall|k: int| i <= k < start.len() ==> #[trigger] self.spec_materials()[k] == start[k],
                forall|k: int| 0 <= k < i ==> {
                    &&& #[trigger] self.spec_materials()[k] == start[k].after_validate()
                    &&& r@[k].is_some() == spec_needs_build(start[k].state)
                    &&& r@[k].is_some() ==> r@[k].unwrap()@ == start[k].spec_build(*features, frame_count as nat)
                },
            decreases self.materials@.len() - i,
        {
            let ghost before = self.materials@;
            assert(self.spec_materials()[i as int] == before[i as int]@);
            let mut m = self.materials.remove(i);
            let build = m.validate(features, frame_count);
            self.materials.insert(i, m);
            proof {
                assert(self.materials@ =~= before.update(i as int, m));
                assert(self.spec_materials() =~= before.map_values(|x: Material| x@).update(i as int, m@));
            }
            r.push(build);
            i = i + 1;
        }
        r
    }
}

} // verus!
