//! What the deferred effect renderer hands to the graphics device, as plain
//! values: the resources its shaders bind, the push constant block it writes
//! for every effect quad, and the draw call that follows.
//!
//! The device calls themselves need a live GPU and stay with the caller; the
//! values built here fix what goes into them.
use vstd::prelude::*;

verus! {

/// Debug label of every object the effect renderer creates.
pub const EFFECT_LABEL: &'static str = "effect";

/// Debug label of the linear sampler the effect renderer creates.
pub const EFFECT_SAMPLER_LABEL: &'static str = "effect linear";

/// Entry point of the vertex stage in the effect shader.
pub const VERTEX_ENTRY_POINT: &'static str = "vs_main";

/// Entry point of the fragment stage in the effect shader.
pub const FRAGMENT_ENTRY_POINT: &'static str = "fs_main";

/// Alignment, in bytes, of every offset and size of a push constant write.
pub const PUSH_CONSTANT_ALIGNMENT: u32 = 4;

/// Size in bytes of the push constant block of one effect quad: ten
/// two-component vectors of 4-byte floats.
pub const EFFECT_CONSTANTS_SIZE: u32 = 80;

/// Number of vertices drawn for one effect quad (two triangles).
pub const EFFECT_VERTEX_COUNT: u32 = 6;

/// Number of instances drawn for one effect quad.
pub const EFFECT_INSTANCE_COUNT: u32 = 1;

/// The pipeline stages that can see a binding or a push constant range.
#[derive(Clone, Copy, PartialEq, Eq, Debug, Structural)]
pub struct ShaderStages {
    pub vertex: bool,
    pub fragment: bool,
}

impl ShaderStages {
    /// Only the fragment stage.
    pub fn fragment() -> (stages: Self)
        ensures
            stages == (ShaderStages { vertex: false, fragment: true }),
    {
        ShaderStages { vertex: false, fragment: true }
    }

    /// The vertex and the fragment stage.
    pub fn vertex_fragment() -> (stages: Self)
        ensures
            stages == (ShaderStages { vertex: true, fragment: true }),
    {
        ShaderStages { vertex: true, fragment: true }
    }
}

/// The kind of resource that a binding slot of a bind group layout accepts.
#[derive(Clone, Copy, PartialEq, Eq, Debug, Structural)]
pub enum BindingType {
    /// A two-dimensional texture of floats.
    Texture { filterable: bool, multisampled: bool },
    /// A sampler.
    Sampler { filtering: bool },
}

/// One binding slot of a bind group layout.
#[derive(Clone, Copy, PartialEq, Eq, Debug, Structural)]
pub struct BindGroupLayoutEntry {
    pub binding: u32,
    pub visibility: ShaderStages,
    pub ty: BindingType,
}

/// The kind of resource that a bind group puts into a binding slot.
#[derive(Clone, Copy, PartialEq, Eq, Debug, Structural)]
pub enum BindingResource {
    /// A view of the effect's texture.
    TextureView,
    /// The renderer's linear sampler.
    Sampler,
}

/// One entry of a bind group.
#[derive(Clone, Copy, PartialEq, Eq, Debug, Structural)]
pub struct BindGroupEntry {
    pub binding: u32,
    pub resource: BindingResource,
}

/// A range of push constant storage and the stages that read it.
#[derive(Clone, Copy, PartialEq, Eq, Debug, Structural)]
pub struct PushConstantRange {
    pub stages: ShaderStages,
    pub start: u32,
    pub end: u32,
}

/// One write of push constant data.
#[derive(Clone, Copy, PartialEq, Eq, Debug, Structural)]
pub struct PushConstantWrite {
    pub stages: ShaderStages,
    pub offset: u32,
    pub size: u32,
}

/// The vertex and instance ranges of a draw call.
#[derive(Clone, Copy, PartialEq, Eq, Debug, Structural)]
pub struct DrawCall {
    pub first_vertex: u32,
    pub vertex_end: u32,
    pub first_instance: u32,
    pub instance_end: u32,
}

/// Filtering of a sampler.
#[derive(Clone, Copy, PartialEq, Eq, Debug, Structural)]
pub enum SamplerType {
    Linear,
}

/// The sampler through which the effect shader reads its texture.
#[derive(Clone, Copy, PartialEq, Eq, Debug)]
pub struct SamplerDescription {
    pub label: &'static str,
    pub ty: SamplerType,
}

/// How a color target mixes what a pipeline draws with what it holds.
#[derive(Clone, Copy, PartialEq, Eq, Debug, Structural)]
pub enum AttachmentBlend {
    /// The blending of effects into the effect attachment, which the
    /// renderer defines once for all its effect pipelines.
    Effect,
}

/// One command that the effect renderer records into a render pass.
#[derive(Clone, Copy, PartialEq, Eq, Debug, Structural)]
pub enum RenderCommand {
    /// Bind the effect pipeline.
    SetPipeline,
    /// Write the push constant block of the quad.
    SetPushConstants(PushConstantWrite),
    /// Bind the quad's bind group at `index`, without dynamic offsets.
    SetBindGroup { index: u32, dynamic_offset_count: usize },
    /// Draw the quad.
    Draw(DrawCall),
}

/// How the vertices of a draw call form primitives.
#[derive(Clone, Copy, PartialEq, Eq, Debug, Structural)]
pub enum PrimitiveTopology {
    /// Every three vertices form a triangle.
    TriangleList,
}

/// The render pipeline of the effect renderer, apart from the shader module,
/// the bind group layout and the surface format that the device and the
/// window provide: no vertex buffers, whole triangles, no depth test, one
/// sample per pixel, and one color target blended as effects are and
/// written in all its channels, not multiview and built without a pipeline
/// cache.
#[derive(Debug)]
pub struct EffectPipelineDescription {
    pub label: &'static str,
    pub vertex_entry_point: &'static str,
    pub fragment_entry_point: &'static str,
    pub vertex_buffer_count: usize,
    pub topology: PrimitiveTopology,
    pub depth_test: bool,
    pub sample_count: u32,
    pub color_target_count: usize,
    pub writes_all_channels: bool,
    pub blend: Option<AttachmentBlend>,
    pub multiview: Option<u32>,
    pub uses_pipeline_cache: bool,
    pub bind_group_layout_count: usize,
    pub push_constant_ranges: Vec<PushConstantRange>,
}

/// The push constant block of one effect quad: the four corners in clip
/// space, the four texture coordinates and the color, split in two halves.
#[derive(Debug)]
pub struct EffectConstants<P, C> {
    pub top_left: P,
    pub bottom_left: P,
    pub top_right: P,
    pub bottom_right: P,
    pub texture_top_left: P,
    pub texture_bottom_left: P,
    pub texture_top_right: P,
    pub texture_bottom_right: P,
    pub color0: [C; 2],
    pub color1: [C; 2],
}

/// The binding slots of the effect bind group layout: the texture at
/// binding 0 and the sampler at binding 1, both seen by the fragment stage.
pub open spec fn spec_bind_group_layout_entries() -> Seq<BindGroupLayoutEntry> {
    seq![
        BindGroupLayoutEntry {
            binding: 0,
            visibility: ShaderStages { vertex: false, fragment: true },
            ty: BindingType::Texture { filterable: true, multisampled: false },
        },
        BindGroupLayoutEntry {
            binding: 1,
            visibility: ShaderStages { vertex: false, fragment: true },
            ty: BindingType::Sampler { filtering: true },
        },
    ]
}

/// The entries of the bind group built for each effect quad.
pub open spec fn spec_bind_group_entries() -> Seq<BindGroupEntry> {
    seq![
        BindGroupEntry { binding: 0, resource: BindingResource::TextureView },
        BindGroupEntry { binding: 1, resource: BindingResource::Sampler },
    ]
}

/// The push constant ranges of the effect pipeline layout.
pub open spec fn spec_push_constant_ranges() -> Seq<PushConstantRange> {
    seq![
        PushConstantRange {
            stages: ShaderStages { vertex: true, fragment: true },
            start: 0,
            end: EFFECT_CONSTANTS_SIZE,
        },
    ]
}

/// The push constant write made for each effect quad.
pub open spec fn spec_push_constant_write() -> PushConstantWrite {
    PushConstantWrite {
        stages: ShaderStages { vertex: true, fragment: true },
        offset: 0,
        size: EFFECT_CONSTANTS_SIZE,
    }
}

/// Whether a bind group resource fits a binding slot of a given type.
pub open spec fn resource_fits(resource: BindingResource, ty: BindingType) -> bool {
    match resource {
        BindingResource::TextureView => ty is Texture,
        BindingResource::Sampler => ty is Sampler,
    }
}

/// Whether a write lies inside a declared range readable by exactly the
/// write's stages, with offset and size aligned as the device demands.
pub open spec fn write_is_covered(write: PushConstantWrite, ranges: Seq<PushConstantRange>) -> bool {
    &&& write.offset % PUSH_CONSTANT_ALIGNMENT == 0
    &&& write.size % PUSH_CONSTANT_ALIGNMENT == 0
    &&& exists|i: int|
        0 <= i < ranges.len() && #[trigger] ranges[i].stages == write.stages && ranges[i].start
            <= write.offset && write.offset + write.size <= ranges[i].end
}

/// The binding slots of the effect bind group layout.
pub fn bind_group_layout_entries() -> (entries: Vec<BindGroupLayoutEntry>)
    ensures
        entries@ == spec_bind_group_layout_entries(),
{
    let mut entries: Vec<BindGroupLayoutEntry> = Vec::new();
    entries.push(
        BindGroupLayoutEntry {
            binding: 0,
            visibility: ShaderStages::fragment(),
            ty: BindingType::Texture { filterable: true, multisampled: false },
        },
    );
    entries.push(
        BindGroupLayoutEntry {
            binding: 1,
            visibility: ShaderStages::fragment(),
            ty: BindingType::Sampler { filtering: true },
        },
    );
    entries
}

/// The entries of the bind group built for each effect quad.
pub fn bind_group_entries() -> (entries: Vec<BindGroupEntry>)
    ensures
        entries@ == spec_bind_group_entries(),
{
    let mut entries: Vec<BindGroupEntry> = Vec::new();
    entries.push(BindGroupEntry { binding: 0, resource: BindingResource::TextureView });
    entries.push(BindGroupEntry { binding: 1, resource: BindingResource::Sampler });
    entries
}

/// The push constant ranges of the effect pipeline layout.
pub fn push_constant_ranges() -> (ranges: Vec<PushConstantRange>)
    ensures
        ranges@ == spec_push_constant_ranges(),
{
    let mut ranges: Vec<PushConstantRange> = Vec::new();
    ranges.push(
        PushConstantRange {
            stages: ShaderStages::vertex_fragment(),
            start: 0,
            end: EFFECT_CONSTANTS_SIZE,
        },
    );
    ranges
}

/// The render pipeline of the effect renderer.
pub fn effect_pipeline_description() -> (description: EffectPipelineDescription)
    ensures
        description.label == EFFECT_LABEL,
        description.vertex_entry_point == VERTEX_ENTRY_POINT,
        description.fragment_entry_point == FRAGMENT_ENTRY_POINT,
        description.vertex_buffer_count == 0,
        description.topology == PrimitiveTopology::TriangleList,
        !description.depth_test,
        description.sample_count == 1,
        description.color_target_count == 1,
        description.writes_all_channels,
        description.blend == Some(AttachmentBlend::Effect),
        description.multiview is None,
        !description.uses_pipeline_cache,
        description.bind_group_layout_count == 1,
        description.push_constant_ranges@ == spec_push_constant_ranges(),
{
    EffectPipelineDescription {
        label: EFFECT_LABEL,
        vertex_entry_point: VERTEX_ENTRY_POINT,
        fragment_entry_point: FRAGMENT_ENTRY_POINT,
        vertex_buffer_count: 0,
        topology: PrimitiveTopology::TriangleList,
        depth_test: false,
        sample_count: 1,
        color_target_count: 1,
        writes_all_channels: true,
        blend: Some(AttachmentBlend::Effect),
        multiview: None,
        uses_pipeline_cache: false,
        bind_group_layout_count: 1,
        push_constant_ranges: push_constant_ranges(),
    }
}

/// The push constant write made for each effect quad.
pub fn push_constant_write() -> (write: PushConstantWrite)
    ensures
        write == spec_push_constant_write(),
{
    PushConstantWrite { stages: ShaderStages::vertex_fragment(), offset: 0, size: EFFECT_CONSTANTS_SIZE }
}

/// The draw call made for each effect quad: six vertices, one instance.
pub fn effect_draw_call() -> (draw: DrawCall)
    ensures
        draw == (DrawCall {
            first_vertex: 0,
            vertex_end: EFFECT_VERTEX_COUNT,
            first_instance: 0,
            instance_end: EFFECT_INSTANCE_COUNT,
        }),
{
    DrawCall {
        first_vertex: 0,
        vertex_end: EFFECT_VERTEX_COUNT,
        first_instance: 0,
        instance_end: EFFECT_INSTANCE_COUNT,
    }
}

/// The linear sampler of the effect renderer.
pub fn effect_sampler_description() -> (sampler: SamplerDescription)
    ensures
        sampler.label == EFFECT_SAMPLER_LABEL,
        sampler.ty == SamplerType::Linear,
{
    SamplerDescription { label: EFFECT_SAMPLER_LABEL, ty: SamplerType::Linear }
}

/// The commands recorded for one effect quad, in order.
pub open spec fn spec_render_commands(newly_bound: bool) -> Seq<RenderCommand> {
    let draw_quad = seq![
        RenderCommand::SetPushConstants(spec_push_constant_write()),
        RenderCommand::SetBindGroup { index: 0, dynamic_offset_count: 0 },
        RenderCommand::Draw(
            DrawCall {
                first_vertex: 0,
                vertex_end: EFFECT_VERTEX_COUNT,
                first_instance: 0,
                instance_end: EFFECT_INSTANCE_COUNT,
            },
        ),
    ];
    if newly_bound {
        seq![RenderCommand::SetPipeline] + draw_quad
    } else {
        draw_quad
    }
}

/// The commands recorded for one effect quad: the pipeline is bound only
/// when the render target just switched to the effect renderer; then the
/// push constants are written, the bind group is bound at index 0 and the
/// quad is drawn.
pub fn effect_render_commands(newly_bound: bool) -> (commands: Vec<RenderCommand>)
    ensures
        commands@ == spec_render_commands(newly_bound),
{
    let mut commands: Vec<RenderCommand> = Vec::new();
    if newly_bound {
        commands.push(RenderCommand::SetPipeline);
    }
    commands.push(RenderCommand::SetPushConstants(push_constant_write()));
    commands.push(RenderCommand::SetBindGroup { index: 0, dynamic_offset_count: 0 });
    commands.push(RenderCommand::Draw(effect_draw_call()));
    assert(commands@ =~= spec_render_commands(newly_bound));
    commands
}

/// Arranges the push constant block of one effect quad.
///
/// `clip_positions` holds the corners in clip space in the order top left,
/// top right, bottom left, bottom right; `texture_coordinates` holds the
/// texture corners in the reverse order (bottom right, top right, top left,
/// bottom left). The color is split into its first and its second half.
pub fn effect_constants<P: Copy, C: Copy>(
    clip_positions: [P; 4],
    texture_coordinates: [P; 4],
    color: [C; 4],
) -> (constants: EffectConstants<P, C>)
    ensures
        constants.top_left == clip_positions[0],
        constants.bottom_left == clip_positions[2],
        constants.top_right == clip_positions[1],
        constants.bottom_right == clip_positions[3],
        constants.texture_top_left == texture_coordinates[2],
        constants.texture_bottom_left == texture_coordinates[3],
        constants.texture_top_right == texture_coordinates[1],
        constants.texture_bottom_right == texture_coordinates[0],
        constants.color0@ == seq![color[0], color[1]],
        constants.color1@ == seq![color[2], color[3]],
{
    let constants = EffectConstants {
        top_left: clip_positions[0],
        bottom_left: clip_positions[2],
        top_right: clip_positions[1],
        bottom_right: clip_positions[3],
        texture_top_left: texture_coordinates[2],
        texture_bottom_left: texture_coordinates[3],
        texture_top_right: texture_coordinates[1],
        texture_bottom_right: texture_coordinates[0],
        color0: [color[0], color[1]],
        color1: [color[2], color[3]],
    };
    assert(constants.color0@ =~= seq![color[0], color[1]]);
    assert(constants.color1@ =~= seq![color[2], color[3]]);
    constants
}

/// Every entry of the bind group built for an effect quad fills a distinct
/// slot of the effect bind group layout with a resource of the slot's kind,
/// and every slot is filled: the texture at binding 0 and the sampler at
/// binding 1. The pipeline layout declares the single push constant range
/// that the vertex and fragment stages read, bytes 0 to 80.
pub proof fn lemma_bind_group_matches_layout()
    ensures
        spec_bind_group_layout_entries().len() == 2,
        spec_bind_group_layout_entries()[0].binding == 0,
        spec_bind_group_layout_entries()[0].ty is Texture,
        spec_bind_group_layout_entries()[1].binding == 1,
        spec_bind_group_layout_entries()[1].ty is Sampler,
        spec_push_constant_ranges() == seq![
            PushConstantRange {
                stages: ShaderStages { vertex: true, fragment: true },
                start: 0,
                end: 80,
            },
        ],
        spec_bind_group_entries().len() == spec_bind_group_layout_entries().len(),
        forall|i: int|
            #![trigger spec_bind_group_entries()[i]]
            0 <= i < spec_bind_group_entries().len() ==> exists|j: int|
                0 <= j < spec_bind_group_layout_entries().len()
                    && #[trigger] spec_bind_group_layout_entries()[j].binding
                    == spec_bind_group_entries()[i].binding && resource_fits(
                    spec_bind_group_entries()[i].resource,
                    spec_bind_group_layout_entries()[j].ty,
                ),
        forall|i: int, j: int|
            0 <= i < j < spec_bind_group_entries().len() ==> #[trigger] spec_bind_group_entries()[i].binding
                != #[trigger] spec_bind_group_entries()[j].binding,
{
    let entries = spec_bind_group_entries();
    let layout = spec_bind_group_layout_entries();
    assert(layout[0].binding == entries[0].binding);
    assert(layout[1].binding == entries[1].binding);
}

/// The push constant write made for every effect quad stays inside the range
/// that the effect pipeline layout declares for the same stages, and is
/// aligned as the device demands.
pub proof fn lemma_push_constant_write_is_covered()
    ensures
        write_is_covered(spec_push_constant_write(), spec_push_constant_ranges()),
{
    let ranges = spec_push_constant_ranges();
    assert(ranges[0].stages == spec_push_constant_write().stages);
}

} // verus!
