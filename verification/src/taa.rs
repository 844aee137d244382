//! Temporal anti-aliasing: each frame is blended with the history of the
//! frames before it.
//!
//! The history lives in two textures that change roles every frame: what
//! one frame writes, the next frame reads.

use vstd::prelude::*;
use crate::command::{Command, CommandEncoder, TaaPassCommand, Viewport};
use crate::layout::{
    sequential, spec_sequential, BindGroupLayout, BindingType, LayoutId, SamplerBindingType,
    ShaderStages,
};
use crate::math::UVec2;
use crate::pipeline::{
    spec_get_or_compile, spec_render_pipeline, CachedPipeline, CachedRenderPipelineId, EntryPoint,
    is_shader, PipelineCache, PipelineDescriptor, RenderPipelineDescriptor, ShaderDefs,
    ShaderSource,
};
use crate::plugin::Node3d;
use crate::resources::{FilterMode, Sampler, SamplerDescriptor, SamplerId};
use crate::texture::{
    view_target_format, Extent3d, Limits, RenderDevice, TextureDescriptor, TextureDimension,
    TextureFormat, TextureUsages, TEXTURE_FORMAT_HDR,
};
use crate::lease_order::{
    acquire_all, all_idle, lemma_frame_replay_returns_same, lemma_two_requests,
};
use crate::texture_cache::{AllocationError, CachedTexture, Pool, TextureCache};
use crate::view_target::ViewTarget;

verus! {

/// Handle of the shader.
pub const TAA_SHADER_HANDLE: u128 = 656865235226276;

/// Number of sub-pixel offsets that the jitter of the camera cycles
/// through.
pub const JITTER_SEQUENCE_LENGTH: u32 = 8;

/// Temporal anti-aliasing as a part of the renderer.
#[derive(Clone, Copy, Debug, Default)]
pub struct TemporalAntiAliasPlugin;

impl TemporalAntiAliasPlugin {
    /// The shader of the pass: its handle and the file that holds its
    /// source.
    pub fn shader(&self) -> (source: ShaderSource)
        ensures
            is_shader(source, TAA_SHADER_HANDLE, "taa.wgsl"@),
    {
        ShaderSource { handle: TAA_SHADER_HANDLE, path: "taa.wgsl" }
    }

    /// The place of the pass in the render graph: after the main pass,
    /// before motion blur, bloom and tone mapping. Each node runs before
    /// the node that follows it in the result.
    pub fn graph_edges(&self) -> (nodes: Vec<Node3d>)
        ensures
            nodes@ == seq![
                Node3d::EndMainPass,
                Node3d::Taa,
                Node3d::MotionBlur,
                Node3d::Bloom,
                Node3d::Tonemapping,
            ],
    {
        vec![
            Node3d::EndMainPass,
            Node3d::Taa,
            Node3d::MotionBlur,
            Node3d::Bloom,
            Node3d::Tonemapping,
        ]
    }
}

/// Temporal anti-aliasing of one camera.
#[derive(Clone, Copy, Debug, PartialEq, Eq, Hash, Structural)]
pub struct TemporalAntiAliasSettings {
    /// Whether the next frame ignores the history, as after a camera cut.
    /// Set back to `false` when that frame has been extracted.
    pub reset: bool,
}

impl Default for TemporalAntiAliasSettings {
    /// A camera begins without history.
    fn default() -> (settings: Self)
        ensures
            settings.reset == true,
    {
        TemporalAntiAliasSettings { reset: true }
    }
}

/// Takes the settings of a camera over into the frame.
///
/// For an active camera with a perspective projection, returns the
/// settings as they are and clears `reset`, so that only one frame ignores
/// the history. For any other camera, returns `None` and changes nothing.
pub fn extract_taa_settings(
    is_active: bool,
    has_perspective_projection: bool,
    taa_settings: &mut TemporalAntiAliasSettings,
) -> (extracted: Option<TemporalAntiAliasSettings>)
    ensures
        is_active && has_perspective_projection ==> extracted == Some(*old(taa_settings))
            && final(taa_settings).reset == false,
        !(is_active && has_perspective_projection) ==> extracted is None && *final(taa_settings)
            == *old(taa_settings),
{
    if is_active && has_perspective_projection {
        let extracted = *taa_settings;
        taa_settings.reset = false;
        Some(extracted)
    } else {
        None
    }
}

/// Index, into the sequence of sub-pixel offsets, of the jitter of the
/// frame `frame_count`.
pub fn jitter_index(frame_count: u32) -> (index: usize)
    ensures
        index == frame_count % JITTER_SEQUENCE_LENGTH,
        index < JITTER_SEQUENCE_LENGTH,
{
    (frame_count % JITTER_SEQUENCE_LENGTH) as usize
}

/// What the pass binds: the view target, the history, the motion vectors,
/// the depth, a sampler that does not interpolate and one that does.
pub open spec fn taa_bindings() -> Seq<BindingType> {
    seq![
        BindingType::Texture2d { filterable: true },
        BindingType::Texture2d { filterable: true },
        BindingType::Texture2d { filterable: true },
        BindingType::TextureDepth2d,
        BindingType::Sampler(SamplerBindingType::NonFiltering),
        BindingType::Sampler(SamplerBindingType::Filtering),
    ]
}

/// What the pass needs beside its pipeline.
#[derive(Clone, Debug, PartialEq, Eq)]
pub struct TaaPipeline {
    pub taa_bind_group_layout: BindGroupLayout,
    pub nearest_sampler: Sampler,
    pub linear_sampler: Sampler,
}

/// What selects a variant of the pipeline.
#[derive(Clone, Copy, Debug, PartialEq, Eq, Hash, Structural)]
pub struct TaaPipelineKey {
    /// Whether the view target is HDR.
    pub hdr: bool,
    /// Whether the frame ignores the history.
    pub reset: bool,
}

/// The variant of the pipeline for `key`: it writes two targets of the
/// format of the view target, the view target and the history; it
/// tone-maps if the target is HDR; it ignores the history if `reset`.
pub open spec fn spec_specialize(key: TaaPipelineKey) -> RenderPipelineDescriptor {
    RenderPipelineDescriptor {
        layout: LayoutId::Taa,
        shader: TAA_SHADER_HANDLE,
        shader_defs: ShaderDefs { tonemap: key.hdr, reset: key.reset },
        entry_point: EntryPoint::Taa,
        target_format: view_target_format(key.hdr),
        target_count: 2,
    }
}

impl TaaPipeline {
    pub open spec fn wf(self) -> bool {
        &&& self.taa_bind_group_layout.id == LayoutId::Taa
        &&& self.taa_bind_group_layout.entries@ == spec_sequential(
            ShaderStages::Fragment,
            taa_bindings(),
        )
        &&& self.nearest_sampler == (Sampler {
            id: SamplerId::TaaNearest,
            descriptor: SamplerDescriptor {
                mag_filter: FilterMode::Nearest,
                min_filter: FilterMode::Nearest,
                mipmap_filter: FilterMode::Nearest,
            },
        })
        &&& self.linear_sampler == (Sampler {
            id: SamplerId::TaaLinear,
            descriptor: SamplerDescriptor {
                mag_filter: FilterMode::Linear,
                min_filter: FilterMode::Linear,
                mipmap_filter: FilterMode::Nearest,
            },
        })
    }

    pub fn new() -> (pipeline: Self)
        ensures
            pipeline.wf(),
    {
        let texture = BindingType::Texture2d { filterable: true };
        TaaPipeline {
            taa_bind_group_layout: BindGroupLayout {
                id: LayoutId::Taa,
                entries: sequential(
                    ShaderStages::Fragment,
                    vec![
                        texture,
                        texture,
                        texture,
                        BindingType::TextureDepth2d,
                        BindingType::Sampler(SamplerBindingType::NonFiltering),
                        BindingType::Sampler(SamplerBindingType::Filtering),
                    ],
                ),
            },
            nearest_sampler: Sampler {
                id: SamplerId::TaaNearest,
                descriptor: SamplerDescriptor {
                    mag_filter: FilterMode::Nearest,
                    min_filter: FilterMode::Nearest,
                    mipmap_filter: FilterMode::Nearest,
                },
            },
            linear_sampler: Sampler {
                id: SamplerId::TaaLinear,
                descriptor: SamplerDescriptor {
                    mag_filter: FilterMode::Linear,
                    min_filter: FilterMode::Linear,
                    mipmap_filter: FilterMode::Nearest,
                },
            },
        }
    }

    /// The variant of the pipeline for `key`.
    pub fn specialize(&self, key: TaaPipelineKey) -> (descriptor: RenderPipelineDescriptor)
        ensures
            descriptor == spec_specialize(key),
    {
        let target_format = if key.hdr {
            TEXTURE_FORMAT_HDR
        } else {
            TextureFormat::bevy_default()
        };
        RenderPipelineDescriptor {
            layout: LayoutId::Taa,
            shader: TAA_SHADER_HANDLE,
            shader_defs: ShaderDefs { tonemap: key.hdr, reset: key.reset },
            entry_point: EntryPoint::Taa,
            target_format,
            target_count: 2,
        }
    }
}

/// The two history textures of a view, in their roles for one frame.
#[derive(Clone, Copy, Debug, PartialEq, Eq, Hash, Structural)]
pub struct TemporalAntiAliasHistoryTextures {
    pub write: CachedTexture,
    pub read: CachedTexture,
}

/// The descriptor of a history texture: of the size of the viewport, in
/// the format of the view target, sampled and drawn into.
pub open spec fn spec_history_descriptor(size: UVec2, hdr: bool) -> TextureDescriptor {
    TextureDescriptor {
        size: Extent3d { width: size.x, height: size.y, depth_or_array_layers: 1 },
        mip_level_count: 1,
        sample_count: 1,
        dimension: TextureDimension::D2,
        format: view_target_format(hdr),
        usage: TextureUsages::spec_texture_binding().spec_union(
            TextureUsages::spec_render_attachment(),
        ),
    }
}

/// The roles of the two history textures in the frame `frame_count`: in an
/// even frame the first is written and the second read, in an odd frame
/// the second is written and the first read.
pub open spec fn spec_history_roles(
    frame_count: u32,
    first: CachedTexture,
    second: CachedTexture,
) -> TemporalAntiAliasHistoryTextures {
    if frame_count % 2 == 0 {
        TemporalAntiAliasHistoryTextures { write: first, read: second }
    } else {
        TemporalAntiAliasHistoryTextures { write: second, read: first }
    }
}

/// The pool and the history textures after those of a view have been
/// requested: none for a view without a viewport; else two textures of
/// the history descriptor, requested one after the other, in the roles of
/// the frame. The first request that fails ends the sequence.
pub open spec fn spec_prepare_taa_history_textures(
    pool: Pool,
    limits: Limits,
    frame_count: u32,
    physical_viewport_size: Option<UVec2>,
    hdr: bool,
) -> (Pool, Result<Option<TemporalAntiAliasHistoryTextures>, AllocationError>) {
    match physical_viewport_size {
        None => (pool, Ok(None)),
        Some(size) => {
            let descriptor = spec_history_descriptor(size, hdr);
            let (pool_1, r1) = pool.acquire(limits, descriptor);
            let (pool_2, r2) = pool_1.acquire(limits, descriptor);
            if r1 is Err {
                (pool_1, Err(r1->Err_0))
            } else if r2 is Err {
                (pool_2, Err(r2->Err_0))
            } else {
                (pool_2, Ok(Some(spec_history_roles(frame_count, r1->Ok_0, r2->Ok_0))))
            }
        },
    }
}

/// Leases the two history textures of a view for the frame.
pub fn prepare_taa_history_textures(
    device: &RenderDevice,
    texture_cache: &mut TextureCache,
    frame_count: u32,
    physical_viewport_size: Option<UVec2>,
    hdr: bool,
) -> (result: Result<Option<TemporalAntiAliasHistoryTextures>, AllocationError>)
    ensures
        (final(texture_cache)@, result) == spec_prepare_taa_history_textures(
            old(texture_cache)@,
            device.limits,
            frame_count,
            physical_viewport_size,
            hdr,
        ),
        old(texture_cache)@.wf() ==> final(texture_cache)@.wf(),
{
    let size = match physical_viewport_size {
        Some(size) => size,
        None => {
            return Ok(None);
        },
    };
    let descriptor = TextureDescriptor {
        size: Extent3d { width: size.x, height: size.y, depth_or_array_layers: 1 },
        mip_level_count: 1,
        sample_count: 1,
        dimension: TextureDimension::D2,
        format: if hdr {
            TEXTURE_FORMAT_HDR
        } else {
            TextureFormat::bevy_default()
        },
        usage: TextureUsages::texture_binding().union(TextureUsages::render_attachment()),
    };
    let history_1_texture = match texture_cache.acquire(device, descriptor) {
        Ok(texture) => texture,
        Err(error) => {
            return Err(error);
        },
    };
    let history_2_texture = match texture_cache.acquire(device, descriptor) {
        Ok(texture) => texture,
        Err(error) => {
            return Err(error);
        },
    };
    let textures = if frame_count % 2 == 0 {
        TemporalAntiAliasHistoryTextures { write: history_1_texture, read: history_2_texture }
    } else {
        TemporalAntiAliasHistoryTextures { write: history_2_texture, read: history_1_texture }
    };
    Ok(Some(textures))
}

/// The pipeline of a view for one frame.
#[derive(Clone, Copy, Debug, PartialEq, Eq, Hash, Structural)]
pub struct TemporalAntiAliasPipelineId(pub CachedRenderPipelineId);

/// The cache and the pipeline of a view after its variant has been
/// requested; for a frame that ignores the history, the variant that
/// does not is requested too, since the next frame needs it.
pub open spec fn spec_prepare_taa_pipelines(
    pipelines: Seq<CachedPipeline>,
    hdr: bool,
    reset: bool,
) -> (Seq<CachedPipeline>, TemporalAntiAliasPipelineId) {
    let (requested, id) = spec_get_or_compile(
        pipelines,
        PipelineDescriptor::Render(spec_specialize(TaaPipelineKey { hdr, reset })),
    );
    let after = if reset {
        spec_get_or_compile(
            requested,
            PipelineDescriptor::Render(spec_specialize(TaaPipelineKey { hdr, reset: false })),
        ).0
    } else {
        requested
    };
    (after, TemporalAntiAliasPipelineId(CachedRenderPipelineId(id as usize)))
}

/// Requests the variant of the pipeline for a view whose target is HDR or
/// not, with the settings of its camera.
pub fn prepare_taa_pipelines(
    pipeline_cache: &mut PipelineCache,
    pipeline: &TaaPipeline,
    hdr: bool,
    taa_settings: &TemporalAntiAliasSettings,
) -> (id: TemporalAntiAliasPipelineId)
    ensures
        (final(pipeline_cache)@, id) == spec_prepare_taa_pipelines(
            old(pipeline_cache)@,
            hdr,
            taa_settings.reset,
        ),
        final(pipeline_cache)@.len() <= usize::MAX,
        id.0.0 < final(pipeline_cache)@.len(),
        final(pipeline_cache)@[id.0.0 as int].descriptor == PipelineDescriptor::Render(
            spec_specialize(TaaPipelineKey { hdr, reset: taa_settings.reset }),
        ),
{
    let mut pipeline_key = TaaPipelineKey { hdr, reset: taa_settings.reset };
    let pipeline_id = pipeline_cache.queue_render_pipeline(pipeline.specialize(pipeline_key));
    if pipeline_key.reset {
        pipeline_key.reset = false;
        let _ = pipeline_cache.queue_render_pipeline(pipeline.specialize(pipeline_key));
    }
    TemporalAntiAliasPipelineId(pipeline_id)
}

/// The textures that the prepasses of a view have written, if they ran.
#[derive(Clone, Copy, Debug, PartialEq, Eq, Hash, Structural)]
pub struct ViewPrepassTextures {
    pub depth: Option<CachedTexture>,
    pub motion_vectors: Option<CachedTexture>,
}

/// Whether the pass of a view is recorded: the pass's resources and the
/// pipeline cache exist, the pipeline is compiled, and the prepasses have
/// written motion vectors and depth.
pub open spec fn spec_taa_runs(
    prepass_textures: ViewPrepassTextures,
    pipeline_id: TemporalAntiAliasPipelineId,
    pipelines: Option<&TaaPipeline>,
    pipeline_cache: Option<&PipelineCache>,
) -> bool {
    &&& pipelines is Some
    &&& pipeline_cache is Some
    &&& spec_render_pipeline(pipeline_cache->Some_0@, pipeline_id.0.0 as int) is Some
    &&& prepass_textures.motion_vectors is Some
    &&& prepass_textures.depth is Some
}

/// The pass of a view: it reads the main texture of the view target, the
/// history to read, the motion vectors and the depth, and writes the
/// other texture of the view target and the history to write.
pub open spec fn spec_taa_pass(
    viewport: Option<Viewport>,
    view_target: ViewTarget,
    history: TemporalAntiAliasHistoryTextures,
    prepass_textures: ViewPrepassTextures,
    pipeline_id: TemporalAntiAliasPipelineId,
) -> Command {
    Command::TaaPass(
        TaaPassCommand {
            pipeline: pipeline_id.0,
            source: view_target.spec_main_texture(),
            history_read: history.read.texture,
            motion_vectors: prepass_textures.motion_vectors->Some_0.texture,
            depth: prepass_textures.depth->Some_0.texture,
            destination: view_target.spec_other_texture(),
            history_write: history.write.texture,
            viewport,
            vertices: 3,
            instances: 1,
        },
    )
}

/// The node that records the pass of a view.
#[derive(Clone, Copy, Debug, Default)]
pub struct TemporalAntiAliasNode;

impl TemporalAntiAliasNode {
    /// Records the pass of one view, and returns whether it did.
    ///
    /// If the pass is recorded, the two textures of the view target change
    /// roles. If not, nothing is recorded and the view target stays as it
    /// is.
    pub fn run(
        &self,
        encoder: &mut CommandEncoder,
        viewport: Option<Viewport>,
        view_target: &mut ViewTarget,
        taa_history_textures: &TemporalAntiAliasHistoryTextures,
        prepass_textures: &ViewPrepassTextures,
        taa_pipeline_id: &TemporalAntiAliasPipelineId,
        pipelines: Option<&TaaPipeline>,
        pipeline_cache: Option<&PipelineCache>,
    ) -> (issued: bool)
        ensures
            issued == spec_taa_runs(*prepass_textures, *taa_pipeline_id, pipelines, pipeline_cache),
            !issued ==> final(encoder)@ == old(encoder)@ && *final(view_target) == *old(view_target),
            issued ==> final(encoder)@ == old(encoder)@.push(
                spec_taa_pass(
                    viewport,
                    *old(view_target),
                    *taa_history_textures,
                    *prepass_textures,
                    *taa_pipeline_id,
                ),
            ) && *final(view_target) == (ViewTarget {
                main_is_b: !old(view_target).main_is_b,
                ..*old(view_target)
            }),
    {
        let pipeline_cache = match (pipelines, pipeline_cache) {
            (Some(_), Some(pipeline_cache)) => pipeline_cache,
            _ => {
                return false;
            },
        };
        let (motion_vectors, depth) = match (
            pipeline_cache.get_render_pipeline(taa_pipeline_id.0),
            prepass_textures.motion_vectors,
            prepass_textures.depth,
        ) {
            (Some(_), Some(motion_vectors), Some(depth)) => (motion_vectors, depth),
            _ => {
                return false;
            },
        };
        let write = view_target.post_process_write();
        encoder.record(
            Command::TaaPass(
                TaaPassCommand {
                    pipeline: taa_pipeline_id.0,
                    source: write.source,
                    history_read: taa_history_textures.read.texture,
                    motion_vectors: motion_vectors.texture,
                    depth: depth.texture,
                    destination: write.destination,
                    history_write: taa_history_textures.write.texture,
                    viewport,
                    vertices: 3,
                    instances: 1,
                },
            ),
        );
        true
    }
}

/// Alternating ownership: the history that one frame writes is the
/// history that the next frame reads, and the other way round. This holds
/// for a view that was granted its history textures in a frame that began
/// with no texture on lease and asks again, in a frame of the other
/// parity, after the frame has ended and before the textures are evicted.
pub proof fn lemma_history_written_is_read_next(
    start: Pool,
    limits: Limits,
    frame_count: u32,
    next_frame_count: u32,
    size: UVec2,
    hdr: bool,
    frames: nat,
)
    requires
        start.wf(),
        all_idle(start),
        spec_prepare_taa_history_textures(start, limits, frame_count, Some(size), hdr).1 is Ok,
        1 <= frames <= start.eviction_frames,
        next_frame_count % 2 != frame_count % 2,
    ensures
        ({
            let (end, first) = spec_prepare_taa_history_textures(
                start,
                limits,
                frame_count,
                Some(size),
                hdr,
            );
            let (again, second) = spec_prepare_taa_history_textures(
                end.end_frames(frames),
                limits,
                next_frame_count,
                Some(size),
                hdr,
            );
            &&& first->Ok_0 is Some
            &&& second is Ok
            &&& second->Ok_0 is Some
            &&& second->Ok_0->Some_0.read == first->Ok_0->Some_0.write
            &&& second->Ok_0->Some_0.write == first->Ok_0->Some_0.read
            &&& again.next_id == end.next_id
        }),
{
    let descriptor = spec_history_descriptor(size, hdr);
    let requests = seq![descriptor, descriptor];
    lemma_two_requests(start, limits, descriptor, descriptor);
    let (end, answers) = acquire_all(start, limits, requests);
    assert(answers[0] is Ok && answers[1] is Ok);
    lemma_frame_replay_returns_same(start, limits, requests, frames);
    lemma_two_requests(end.end_frames(frames), limits, descriptor, descriptor);
    let again = acquire_all(end.end_frames(frames), limits, requests).1;
    assert(again[0] == answers[0] && again[1] == answers[1]);
}

} // verus!
