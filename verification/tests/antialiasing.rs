use sky_atmosphere::command::{Command, CommandEncoder, TaaPassCommand, Viewport};
use sky_atmosphere::layout::{
    sequential, BindingType, LayoutId, SamplerBindingType, ShaderStages,
};
use sky_atmosphere::math::UVec2;
use sky_atmosphere::pipeline::{
    CachedRenderPipelineId, EntryPoint, PipelineCache, RenderPipelineDescriptor, ShaderDefs,
};
use sky_atmosphere::plugin::Node3d;
use sky_atmosphere::resources::{FilterMode, SamplerId};
use sky_atmosphere::taa::{
    extract_taa_settings, jitter_index, prepare_taa_history_textures, prepare_taa_pipelines,
    TaaPipeline, TaaPipelineKey, TemporalAntiAliasHistoryTextures, TemporalAntiAliasNode,
    TemporalAntiAliasPipelineId, TemporalAntiAliasPlugin, TemporalAntiAliasSettings,
    ViewPrepassTextures, JITTER_SEQUENCE_LENGTH, TAA_SHADER_HANDLE,
};
use sky_atmosphere::texture::{
    Extent3d, Limits, RenderDevice, TextureDescriptor, TextureDimension, TextureFormat,
    TextureUsages,
};
use sky_atmosphere::texture_cache::{AllocationError, CachedTexture, TextureCache, TextureId};
use sky_atmosphere::view_target::{PostProcessWrite, ViewTarget};

fn device() -> RenderDevice {
    RenderDevice {
        limits: Limits {
            max_texture_dimension_2d: 8192,
            max_texture_dimension_3d: 2048,
            max_texture_array_layers: 256,
        },
    }
}

fn history_descriptor(width: u32, height: u32, format: TextureFormat) -> TextureDescriptor {
    TextureDescriptor {
        size: Extent3d { width, height, depth_or_array_layers: 1 },
        mip_level_count: 1,
        sample_count: 1,
        dimension: TextureDimension::D2,
        format,
        usage: TextureUsages::texture_binding().union(TextureUsages::render_attachment()),
    }
}

fn prepass(id: u64) -> CachedTexture {
    CachedTexture {
        texture: TextureId(id),
        descriptor: history_descriptor(640, 480, TextureFormat::Rgba16Float),
    }
}

#[test]
fn settings_begin_with_a_reset() {
    assert!(TemporalAntiAliasSettings::default().reset);
}

#[test]
fn shader_handle_and_sequence_length() {
    assert_eq!(TAA_SHADER_HANDLE, 656865235226276);
    assert_eq!(JITTER_SEQUENCE_LENGTH, 8);
}

#[test]
fn extraction_clears_the_reset() {
    let mut settings = TemporalAntiAliasSettings { reset: true };
    assert_eq!(
        extract_taa_settings(true, true, &mut settings),
        Some(TemporalAntiAliasSettings { reset: true })
    );
    assert!(!settings.reset);
    assert_eq!(
        extract_taa_settings(true, true, &mut settings),
        Some(TemporalAntiAliasSettings { reset: false })
    );
    assert!(!settings.reset);
}

#[test]
fn inactive_or_orthographic_cameras_are_not_extracted() {
    for (is_active, perspective) in [(false, true), (true, false), (false, false)] {
        let mut settings = TemporalAntiAliasSettings { reset: true };
        assert_eq!(extract_taa_settings(is_active, perspective, &mut settings), None);
        assert!(settings.reset);
    }
}

#[test]
fn jitter_cycles_through_eight_offsets() {
    assert_eq!(jitter_index(0), 0);
    assert_eq!(jitter_index(7), 7);
    assert_eq!(jitter_index(8), 0);
    assert_eq!(jitter_index(13), 5);
    assert_eq!(jitter_index(u32::MAX), 7);
}

#[test]
fn shader_of_the_pass() {
    let shader = TemporalAntiAliasPlugin.shader();
    assert_eq!(shader.handle, TAA_SHADER_HANDLE);
    assert_eq!(shader.path, "taa.wgsl");
}

#[test]
fn graph_edges_of_the_pass() {
    assert_eq!(
        TemporalAntiAliasPlugin.graph_edges(),
        vec![
            Node3d::EndMainPass,
            Node3d::Taa,
            Node3d::MotionBlur,
            Node3d::Bloom,
            Node3d::Tonemapping
        ]
    );
}

#[test]
fn pipeline_resources() {
    let pipeline = TaaPipeline::new();
    let texture = BindingType::Texture2d { filterable: true };
    assert_eq!(pipeline.taa_bind_group_layout.id, LayoutId::Taa);
    assert_eq!(
        pipeline.taa_bind_group_layout.entries,
        sequential(
            ShaderStages::Fragment,
            vec![
                texture,
                texture,
                texture,
                BindingType::TextureDepth2d,
                BindingType::Sampler(SamplerBindingType::NonFiltering),
                BindingType::Sampler(SamplerBindingType::Filtering),
            ]
        )
    );
    assert_eq!(pipeline.nearest_sampler.id, SamplerId::TaaNearest);
    assert_eq!(pipeline.nearest_sampler.descriptor.mag_filter, FilterMode::Nearest);
    assert_eq!(pipeline.nearest_sampler.descriptor.min_filter, FilterMode::Nearest);
    assert_eq!(pipeline.nearest_sampler.descriptor.mipmap_filter, FilterMode::Nearest);
    assert_eq!(pipeline.linear_sampler.id, SamplerId::TaaLinear);
    assert_eq!(pipeline.linear_sampler.descriptor.mag_filter, FilterMode::Linear);
    assert_eq!(pipeline.linear_sampler.descriptor.min_filter, FilterMode::Linear);
    assert_eq!(pipeline.linear_sampler.descriptor.mipmap_filter, FilterMode::Nearest);
}

#[test]
fn pipeline_variants() {
    let pipeline = TaaPipeline::new();
    let variant = |tonemap, reset, target_format| RenderPipelineDescriptor {
        layout: LayoutId::Taa,
        shader: TAA_SHADER_HANDLE,
        shader_defs: ShaderDefs { tonemap, reset },
        entry_point: EntryPoint::Taa,
        target_format,
        target_count: 2,
    };
    assert_eq!(
        pipeline.specialize(TaaPipelineKey { hdr: true, reset: true }),
        variant(true, true, TextureFormat::Rgba16Float)
    );
    assert_eq!(
        pipeline.specialize(TaaPipelineKey { hdr: true, reset: false }),
        variant(true, false, TextureFormat::Rgba16Float)
    );
    assert_eq!(
        pipeline.specialize(TaaPipelineKey { hdr: false, reset: true }),
        variant(false, true, TextureFormat::Rgba8UnormSrgb)
    );
    assert_eq!(
        pipeline.specialize(TaaPipelineKey { hdr: false, reset: false }),
        variant(false, false, TextureFormat::Rgba8UnormSrgb)
    );
}

#[test]
fn reset_frame_requests_the_next_variant_too() {
    let pipeline = TaaPipeline::new();
    let mut cache = PipelineCache::new();
    let id = prepare_taa_pipelines(
        &mut cache,
        &pipeline,
        true,
        &TemporalAntiAliasSettings { reset: true },
    );
    assert_eq!(id, TemporalAntiAliasPipelineId(CachedRenderPipelineId(0)));
    assert_eq!(cache.queued(), vec![0, 1]);
    cache.finish_compilation(0);
    cache.finish_compilation(1);
    assert_eq!(
        cache.get_render_pipeline(CachedRenderPipelineId(1)),
        Some(pipeline.specialize(TaaPipelineKey { hdr: true, reset: false }))
    );
    // The next frame does not reset and gets the variant requested ahead.
    let next = prepare_taa_pipelines(
        &mut cache,
        &pipeline,
        true,
        &TemporalAntiAliasSettings { reset: false },
    );
    assert_eq!(next, TemporalAntiAliasPipelineId(CachedRenderPipelineId(1)));
    assert!(cache.queued().is_empty());
}

#[test]
fn frame_without_reset_requests_one_variant() {
    let pipeline = TaaPipeline::new();
    let mut cache = PipelineCache::new();
    let id = prepare_taa_pipelines(
        &mut cache,
        &pipeline,
        false,
        &TemporalAntiAliasSettings { reset: false },
    );
    assert_eq!(id, TemporalAntiAliasPipelineId(CachedRenderPipelineId(0)));
    assert_eq!(cache.queued(), vec![0]);
}

#[test]
fn view_without_viewport_has_no_history() {
    let mut cache = TextureCache::new();
    assert_eq!(prepare_taa_history_textures(&device(), &mut cache, 0, None, true), Ok(None));
    assert!(cache.is_empty());
}

#[test]
fn history_textures_have_the_size_and_format_of_the_view() {
    let mut cache = TextureCache::new();
    let hdr = prepare_taa_history_textures(&device(), &mut cache, 0, Some(UVec2::new(640, 480)), true)
        .unwrap()
        .unwrap();
    assert_eq!(hdr.write.descriptor, history_descriptor(640, 480, TextureFormat::Rgba16Float));
    assert_eq!(hdr.read.descriptor, history_descriptor(640, 480, TextureFormat::Rgba16Float));
    let sdr = prepare_taa_history_textures(&device(), &mut cache, 0, Some(UVec2::new(320, 200)), false)
        .unwrap()
        .unwrap();
    assert_eq!(sdr.write.descriptor, history_descriptor(320, 200, TextureFormat::Rgba8UnormSrgb));
    assert_eq!(cache.len(), 4);
}

#[test]
fn history_roles_alternate_with_the_frame_count() {
    let mut cache = TextureCache::new();
    let size = Some(UVec2::new(640, 480));
    let even = prepare_taa_history_textures(&device(), &mut cache, 10, size, true).unwrap().unwrap();
    assert_eq!(even.write.texture, TextureId(0));
    assert_eq!(even.read.texture, TextureId(1));
    cache.release_all_unclaimed_since_last_frame();
    let odd = prepare_taa_history_textures(&device(), &mut cache, 11, size, true).unwrap().unwrap();
    assert_eq!(odd.write.texture, TextureId(1));
    assert_eq!(odd.read.texture, TextureId(0));
    // What one frame writes, the next reads.
    assert_eq!(odd.read, even.write);
    cache.release_all_unclaimed_since_last_frame();
    let next: TemporalAntiAliasHistoryTextures =
        prepare_taa_history_textures(&device(), &mut cache, 12, size, true).unwrap().unwrap();
    assert_eq!(next.read, odd.write);
    assert_eq!(next, even);
    assert_eq!(cache.len(), 2);
}

#[test]
fn history_of_an_empty_viewport_is_refused() {
    let mut cache = TextureCache::new();
    assert_eq!(
        prepare_taa_history_textures(&device(), &mut cache, 0, Some(UVec2::new(0, 480)), true),
        Err(AllocationError::InvalidSize)
    );
    assert!(cache.is_empty());
}

#[test]
fn view_target_textures_take_turns() {
    let mut target = ViewTarget::new(TextureId(1), TextureId(2));
    assert_eq!(target.main_texture(), TextureId(1));
    assert_eq!(
        target.post_process_write(),
        PostProcessWrite { source: TextureId(1), destination: TextureId(2) }
    );
    assert_eq!(target.main_texture(), TextureId(2));
    assert_eq!(
        target.post_process_write(),
        PostProcessWrite { source: TextureId(2), destination: TextureId(1) }
    );
    assert_eq!(target, ViewTarget::new(TextureId(1), TextureId(2)));
}

fn ready_pipeline() -> (PipelineCache, TaaPipeline, TemporalAntiAliasPipelineId) {
    let pipeline = TaaPipeline::new();
    let mut cache = PipelineCache::new();
    let id = prepare_taa_pipelines(
        &mut cache,
        &pipeline,
        true,
        &TemporalAntiAliasSettings { reset: false },
    );
    cache.finish_compilation(id.0 .0);
    (cache, pipeline, id)
}

fn history() -> TemporalAntiAliasHistoryTextures {
    TemporalAntiAliasHistoryTextures { write: prepass(20), read: prepass(21) }
}

#[test]
fn pass_is_recorded_and_the_view_target_flips() {
    let (cache, pipeline, id) = ready_pipeline();
    let mut encoder = CommandEncoder::new();
    let mut target = ViewTarget::new(TextureId(1), TextureId(2));
    let viewport = Some(Viewport { x: 0, y: 0, width: 640, height: 480 });
    let textures = ViewPrepassTextures { depth: Some(prepass(30)), motion_vectors: Some(prepass(31)) };
    let issued = TemporalAntiAliasNode.run(
        &mut encoder,
        viewport,
        &mut target,
        &history(),
        &textures,
        &id,
        Some(&pipeline),
        Some(&cache),
    );
    assert!(issued);
    assert_eq!(target.main_texture(), TextureId(2));
    assert_eq!(
        encoder.finish(),
        vec![Command::TaaPass(TaaPassCommand {
            pipeline: id.0,
            source: TextureId(1),
            history_read: TextureId(21),
            motion_vectors: TextureId(31),
            depth: TextureId(30),
            destination: TextureId(2),
            history_write: TextureId(20),
            viewport,
            vertices: 3,
            instances: 1,
        })]
    );
}

#[test]
fn pass_is_skipped_without_its_inputs() {
    let (cache, pipeline, id) = ready_pipeline();
    let full = ViewPrepassTextures { depth: Some(prepass(30)), motion_vectors: Some(prepass(31)) };
    let no_depth = ViewPrepassTextures { depth: None, ..full };
    let no_motion = ViewPrepassTextures { motion_vectors: None, ..full };
    let mut pending = PipelineCache::new();
    prepare_taa_pipelines(&mut pending, &pipeline, true, &TemporalAntiAliasSettings { reset: false });

    let mut encoder = CommandEncoder::new();
    let mut target = ViewTarget::new(TextureId(1), TextureId(2));
    let node = TemporalAntiAliasNode;
    assert!(!node.run(&mut encoder, None, &mut target, &history(), &no_depth, &id, Some(&pipeline), Some(&cache)));
    assert!(!node.run(&mut encoder, None, &mut target, &history(), &no_motion, &id, Some(&pipeline), Some(&cache)));
    assert!(!node.run(&mut encoder, None, &mut target, &history(), &full, &id, Some(&pipeline), Some(&pending)));
    assert!(!node.run(&mut encoder, None, &mut target, &history(), &full, &id, None, Some(&cache)));
    assert!(!node.run(&mut encoder, None, &mut target, &history(), &full, &id, Some(&pipeline), None));
    assert_eq!(encoder.len(), 0);
    assert_eq!(target, ViewTarget::new(TextureId(1), TextureId(2)));
    assert!(node.run(&mut encoder, None, &mut target, &history(), &full, &id, Some(&pipeline), Some(&cache)));
    assert_eq!(encoder.len(), 1);
}
