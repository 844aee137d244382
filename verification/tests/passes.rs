use sky_atmosphere::command::{
    debug_group_label, pass_order, Command, CommandEncoder, ComputePassCommand, DynamicOffsets,
    LoadOp, Pass, PassKind, RenderPassCommand, StoreOp, ViewUniformOffsets,
};
use sky_atmosphere::layout::{
    sequential, AtmosphereBindGroupLayouts, BindGroupLayoutEntry, BindingType, LayoutId,
    RenderSkyBindGroupLayout, SamplerBindingType, ShaderStages, StorageTextureAccess, UniformKind,
};
use sky_atmosphere::math::{UVec2, UVec3};
use sky_atmosphere::node::{
    AtmosphereLutsNode, AtmosphereNode, AtmosphereViewResources, LutFlags, RenderSkyNode,
};
use sky_atmosphere::pipeline::{CachedRenderPipelineId, PipelineCache};
use sky_atmosphere::plugin::{
    pipelines_of, AllocationDiagnostics, AtmospherePlugin, AtmosphereResources, Diagnostic,
    GraphEdge, GraphNode, Node3d,
};
use sky_atmosphere::resources::{
    lut_descriptor, prepare_atmosphere_bind_groups, prepare_atmosphere_textures,
    AtmospherePipelines, AtmosphereSamplers, AtmosphereTextures, BindingResource, BufferId,
    FilterMode, Lut, SamplerId, UniformBindings,
};
use sky_atmosphere::settings::AtmosphereSettings;
use sky_atmosphere::texture::{
    Extent3d, Limits, RenderAdapter, RenderDevice, TextureDimension, TextureFormat,
    TextureFormatFeatures, TextureUsages,
};
use sky_atmosphere::texture_cache::{AllocationError, TextureCache, TextureId};

fn device() -> RenderDevice {
    RenderDevice {
        limits: Limits {
            max_texture_dimension_2d: 8192,
            max_texture_dimension_3d: 2048,
            max_texture_array_layers: 256,
        },
    }
}

fn capable_adapter() -> RenderAdapter {
    let all = TextureUsages::texture_binding()
        .union(TextureUsages::storage_binding())
        .union(TextureUsages::render_attachment());
    RenderAdapter {
        rgba16_float: TextureFormatFeatures { allowed_usages: all },
        rgba8_unorm_srgb: TextureFormatFeatures { allowed_usages: all },
    }
}

fn incapable_adapter() -> RenderAdapter {
    let no_storage =
        TextureUsages::texture_binding().union(TextureUsages::render_attachment());
    RenderAdapter {
        rgba16_float: TextureFormatFeatures { allowed_usages: no_storage },
        rgba8_unorm_srgb: TextureFormatFeatures {
            allowed_usages: no_storage.union(TextureUsages::storage_binding()),
        },
    }
}

fn uniforms() -> UniformBindings {
    UniformBindings {
        atmosphere: Some(BufferId(10)),
        settings: Some(BufferId(11)),
        view: Some(BufferId(12)),
        lights: Some(BufferId(13)),
    }
}

fn offsets() -> ViewUniformOffsets {
    ViewUniformOffsets { atmosphere: 256, settings: 512, view: 768, lights: 1024 }
}

fn view(cache: &mut TextureCache, settings: AtmosphereSettings) -> AtmosphereViewResources {
    let textures = prepare_atmosphere_textures(&device(), cache, &settings).unwrap();
    let bind_groups =
        prepare_atmosphere_bind_groups(&textures, &AtmosphereSamplers::new(), &uniforms());
    AtmosphereViewResources { textures, settings, bind_groups, offsets: offsets() }
}

fn two() -> DynamicOffsets {
    DynamicOffsets::Two { atmosphere: 256, settings: 512 }
}

fn four() -> DynamicOffsets {
    DynamicOffsets::Four { atmosphere: 256, settings: 512, view: 768, lights: 1024 }
}

fn transmittance(view: &AtmosphereViewResources, pipelines: &AtmospherePipelines) -> Command {
    Command::RenderPass(RenderPassCommand {
        pass: Pass::TransmittanceLut,
        target: view.textures.transmittance_lut.texture,
        load: LoadOp::Clear,
        store: StoreOp::Store,
        pipeline: pipelines.transmittance_lut,
        bind_group: LayoutId::TransmittanceLut,
        dynamic_offsets: two(),
        vertices: 3,
        instances: 1,
    })
}

fn multiscattering(pipelines: &AtmospherePipelines, x: u32, y: u32) -> Command {
    Command::ComputePass(ComputePassCommand {
        pass: Pass::MultiscatteringLut,
        pipeline: pipelines.multiscattering_lut,
        bind_group: LayoutId::MultiscatteringLut,
        dynamic_offsets: two(),
        workgroups: UVec3 { x, y, z: 1 },
    })
}

fn sky_view(view: &AtmosphereViewResources, pipelines: &AtmospherePipelines) -> Command {
    Command::RenderPass(RenderPassCommand {
        pass: Pass::SkyViewLut,
        target: view.textures.sky_view_lut.texture,
        load: LoadOp::Clear,
        store: StoreOp::Store,
        pipeline: pipelines.sky_view_lut,
        bind_group: LayoutId::SkyViewLut,
        dynamic_offsets: four(),
        vertices: 3,
        instances: 1,
    })
}

fn aerial_view(pipelines: &AtmospherePipelines, x: u32, y: u32) -> Command {
    Command::ComputePass(ComputePassCommand {
        pass: Pass::AerialViewLut,
        pipeline: pipelines.aerial_view_lut,
        bind_group: LayoutId::AerialViewLut,
        dynamic_offsets: four(),
        workgroups: UVec3 { x, y, z: 1 },
    })
}

fn render_sky(target: TextureId, pipelines: &AtmospherePipelines) -> Command {
    render_sky_with(target, pipelines.render_sky)
}

fn render_sky_with(target: TextureId, pipeline: CachedRenderPipelineId) -> Command {
    Command::RenderPass(RenderPassCommand {
        pass: Pass::RenderSky,
        target,
        load: LoadOp::Load,
        store: StoreOp::Store,
        pipeline,
        bind_group: LayoutId::RenderSky,
        dynamic_offsets: four(),
        vertices: 3,
        instances: 1,
    })
}

fn all_written() -> LutFlags {
    LutFlags { transmittance: true, multiscattering: true, sky_view: true, aerial_view: true }
}

#[test]
fn pass_table() {
    assert_eq!(
        pass_order(),
        vec![
            Pass::TransmittanceLut,
            Pass::MultiscatteringLut,
            Pass::SkyViewLut,
            Pass::AerialViewLut,
            Pass::RenderSky
        ]
    );
    for (index, pass) in pass_order().into_iter().enumerate() {
        assert_eq!(pass.index(), index);
    }
    assert_eq!(Pass::TransmittanceLut.kind(), PassKind::Raster);
    assert_eq!(Pass::MultiscatteringLut.kind(), PassKind::Compute);
    assert_eq!(Pass::SkyViewLut.kind(), PassKind::Raster);
    assert_eq!(Pass::AerialViewLut.kind(), PassKind::Compute);
    assert_eq!(Pass::RenderSky.kind(), PassKind::Raster);
    assert_eq!(Pass::TransmittanceLut.writes(), Some(Lut::Transmittance));
    assert_eq!(Pass::MultiscatteringLut.writes(), Some(Lut::Multiscattering));
    assert_eq!(Pass::SkyViewLut.writes(), Some(Lut::SkyView));
    assert_eq!(Pass::AerialViewLut.writes(), Some(Lut::AerialView));
    assert_eq!(Pass::RenderSky.writes(), None);
    assert_eq!(Pass::TransmittanceLut.layout(), LayoutId::TransmittanceLut);
    assert_eq!(Pass::MultiscatteringLut.layout(), LayoutId::MultiscatteringLut);
    assert_eq!(Pass::SkyViewLut.layout(), LayoutId::SkyViewLut);
    assert_eq!(Pass::AerialViewLut.layout(), LayoutId::AerialViewLut);
    assert_eq!(Pass::RenderSky.layout(), LayoutId::RenderSky);
}

#[test]
fn pass_inputs() {
    let luts = [Lut::Transmittance, Lut::Multiscattering, Lut::SkyView, Lut::AerialView];
    for lut in luts {
        assert!(!Pass::TransmittanceLut.reads(lut));
        assert_eq!(Pass::MultiscatteringLut.reads(lut), lut == Lut::Transmittance);
        let first_two = lut == Lut::Transmittance || lut == Lut::Multiscattering;
        assert_eq!(Pass::SkyViewLut.reads(lut), first_two);
        assert_eq!(Pass::AerialViewLut.reads(lut), first_two);
        assert!(Pass::RenderSky.reads(lut));
    }
}

#[test]
fn every_reader_comes_after_its_writer() {
    let luts = [Lut::Transmittance, Lut::Multiscattering, Lut::SkyView, Lut::AerialView];
    for reader in pass_order() {
        for writer in pass_order() {
            for lut in luts {
                if reader.reads(lut) && writer.writes() == Some(lut) {
                    assert!(writer.index() < reader.index());
                }
            }
        }
    }
}

#[test]
fn pass_labels() {
    assert_eq!(Pass::TransmittanceLut.label(), "transmittance_lut_pass");
    assert_eq!(Pass::MultiscatteringLut.label(), "multiscattering_lut_pass");
    assert_eq!(Pass::SkyViewLut.label(), "sky_view_lut_pass");
    assert_eq!(Pass::AerialViewLut.label(), "aerial_view_lut_pass");
    assert_eq!(Pass::RenderSky.label(), "render_sky_pass");
    assert_eq!(debug_group_label(), "atmosphere_luts");
}

#[test]
fn dynamic_offsets_in_slot_order() {
    assert_eq!(two().to_vec(), vec![256, 512]);
    assert_eq!(four().to_vec(), vec![256, 512, 768, 1024]);
}

#[test]
fn encoder_keeps_the_order_of_recording() {
    let mut encoder = CommandEncoder::new();
    assert_eq!(encoder.len(), 0);
    encoder.record(Command::PushDebugGroup);
    encoder.record(Command::PopDebugGroup);
    assert_eq!(encoder.len(), 2);
    assert_eq!(encoder.finish(), vec![Command::PushDebugGroup, Command::PopDebugGroup]);
}

#[test]
fn command_names_its_pass() {
    let mut cache = TextureCache::new();
    let mut pipeline_cache = PipelineCache::new();
    let pipelines = AtmospherePipelines::queue(&mut pipeline_cache);
    let view = view(&mut cache, AtmosphereSettings::default());
    assert_eq!(transmittance(&view, &pipelines).pass(), Some(Pass::TransmittanceLut));
    assert_eq!(multiscattering(&pipelines, 2, 2).pass(), Some(Pass::MultiscatteringLut));
    assert_eq!(Command::PushDebugGroup.pass(), None);
    assert_eq!(Command::PopDebugGroup.pass(), None);
}

#[test]
fn layouts_of_the_four_passes() {
    let layouts = AtmosphereBindGroupLayouts::from_adapter(&capable_adapter()).unwrap();
    let uniform = |content| BindingType::UniformBuffer { content, has_dynamic_offset: true };
    let texture = BindingType::Texture2d { filterable: true };
    let sampler = BindingType::Sampler(SamplerBindingType::Filtering);
    let entry = |binding, visibility, ty| BindGroupLayoutEntry { binding, visibility, ty };

    assert_eq!(layouts.transmittance_lut.id, LayoutId::TransmittanceLut);
    assert_eq!(
        layouts.transmittance_lut.entries,
        vec![
            entry(0, ShaderStages::Fragment, uniform(UniformKind::Atmosphere)),
            entry(1, ShaderStages::Fragment, uniform(UniformKind::AtmosphereSettings)),
        ]
    );
    assert_eq!(layouts.multiscattering_lut.id, LayoutId::MultiscatteringLut);
    assert_eq!(
        layouts.multiscattering_lut.entries,
        vec![
            entry(0, ShaderStages::Compute, uniform(UniformKind::Atmosphere)),
            entry(1, ShaderStages::Compute, uniform(UniformKind::AtmosphereSettings)),
            entry(2, ShaderStages::Compute, texture),
            entry(3, ShaderStages::Compute, sampler),
            entry(
                4,
                ShaderStages::Compute,
                BindingType::StorageTexture2d {
                    format: TextureFormat::Rgba16Float,
                    access: StorageTextureAccess::WriteOnly
                }
            ),
        ]
    );
    let sky_view = vec![
        uniform(UniformKind::Atmosphere),
        uniform(UniformKind::AtmosphereSettings),
        uniform(UniformKind::View),
        uniform(UniformKind::Lights),
        texture,
        sampler,
        texture,
        sampler,
    ];
    assert_eq!(layouts.sky_view_lut.id, LayoutId::SkyViewLut);
    assert_eq!(
        layouts.sky_view_lut.entries,
        sequential(ShaderStages::Fragment, sky_view.clone())
    );
    assert_eq!(layouts.sky_view_lut.entries.len(), 8);
    let mut aerial_view = sky_view;
    aerial_view.push(BindingType::StorageTexture3d {
        format: TextureFormat::Rgba16Float,
        access: StorageTextureAccess::WriteOnly,
    });
    assert_eq!(layouts.aerial_view_lut.id, LayoutId::AerialViewLut);
    assert_eq!(
        layouts.aerial_view_lut.entries,
        sequential(ShaderStages::Compute, aerial_view)
    );
    assert_eq!(layouts.aerial_view_lut.entries[8].binding, 8);
}

#[test]
fn layout_of_the_compositing_pass() {
    let layout = RenderSkyBindGroupLayout::new().render_sky;
    assert_eq!(layout.id, LayoutId::RenderSky);
    assert_eq!(layout.entries.len(), 12);
    for (index, entry) in layout.entries.iter().enumerate() {
        assert_eq!(entry.binding as usize, index);
        assert_eq!(entry.visibility, ShaderStages::Fragment);
    }
    assert_eq!(layout.entries[10].ty, BindingType::Texture3d { filterable: true });
    assert_eq!(layout.entries[8].ty, BindingType::Texture2d { filterable: true });
    assert_eq!(layout.entries[11].ty, BindingType::Sampler(SamplerBindingType::Filtering));
}

#[test]
fn sequential_numbers_from_zero() {
    assert_eq!(sequential(ShaderStages::Compute, vec![]), vec![]);
    assert_eq!(
        sequential(ShaderStages::Compute, vec![BindingType::TextureDepth2d]),
        vec![BindGroupLayoutEntry {
            binding: 0,
            visibility: ShaderStages::Compute,
            ty: BindingType::TextureDepth2d
        }]
    );
}

#[test]
fn layouts_need_storage_support() {
    assert!(AtmosphereBindGroupLayouts::from_adapter(&incapable_adapter()).is_none());
}

#[test]
fn samplers_are_linear() {
    let samplers = AtmosphereSamplers::new();
    let all = [
        (samplers.transmittance_lut, SamplerId::TransmittanceLut),
        (samplers.multiscattering_lut, SamplerId::MultiscatteringLut),
        (samplers.sky_view_lut, SamplerId::SkyViewLut),
        (samplers.aerial_view_lut, SamplerId::AerialViewLut),
    ];
    for (sampler, id) in all {
        assert_eq!(sampler.id, id);
        assert_eq!(sampler.descriptor.mag_filter, FilterMode::Linear);
        assert_eq!(sampler.descriptor.min_filter, FilterMode::Linear);
        assert_eq!(sampler.descriptor.mipmap_filter, FilterMode::Linear);
    }
}

#[test]
fn textures_match_the_settings() {
    let mut cache = TextureCache::new();
    let settings = AtmosphereSettings {
        transmittance_lut_size: UVec2 { x: 300, y: 150 },
        multiscattering_lut_size: UVec2 { x: 20, y: 40 },
        sky_view_lut_size: UVec2 { x: 128, y: 72 },
        aerial_view_lut_size: UVec3 { x: 16, y: 24, z: 48 },
        ..AtmosphereSettings::default()
    };
    let textures = prepare_atmosphere_textures(&device(), &mut cache, &settings).unwrap();
    let render = TextureUsages::render_attachment().union(TextureUsages::texture_binding());
    let storage = TextureUsages::storage_binding().union(TextureUsages::texture_binding());

    let t = textures.transmittance_lut.descriptor;
    assert_eq!(t.size, Extent3d { width: 300, height: 150, depth_or_array_layers: 1 });
    assert_eq!(t.dimension, TextureDimension::D2);
    assert_eq!(t.usage, render);
    let m = textures.multiscattering_lut.descriptor;
    assert_eq!(m.size, Extent3d { width: 20, height: 40, depth_or_array_layers: 1 });
    assert_eq!(m.dimension, TextureDimension::D2);
    assert_eq!(m.usage, storage);
    let s = textures.sky_view_lut.descriptor;
    assert_eq!(s.size, Extent3d { width: 128, height: 72, depth_or_array_layers: 1 });
    assert_eq!(s.dimension, TextureDimension::D2);
    assert_eq!(s.usage, render);
    let a = textures.aerial_view_lut.descriptor;
    assert_eq!(a.size, Extent3d { width: 16, height: 24, depth_or_array_layers: 48 });
    assert_eq!(a.dimension, TextureDimension::D3);
    assert_eq!(a.usage, storage);
    for descriptor in [t, m, s, a] {
        assert_eq!(descriptor.format, TextureFormat::Rgba16Float);
        assert_eq!(descriptor.mip_level_count, 1);
        assert_eq!(descriptor.sample_count, 1);
    }
    for lut in [Lut::Transmittance, Lut::Multiscattering, Lut::SkyView, Lut::AerialView] {
        assert!(lut_descriptor(&settings, lut).fits(&device().limits));
    }
    assert_eq!(lut_descriptor(&settings, Lut::Transmittance), t);
    assert_eq!(lut_descriptor(&settings, Lut::AerialView), a);
}

#[test]
fn textures_of_a_view_are_four_allocations() {
    let mut cache = TextureCache::new();
    // Transmittance and sky-view tables of one size: one descriptor, two textures.
    let settings = AtmosphereSettings {
        sky_view_lut_size: UVec2 { x: 256, y: 128 },
        ..AtmosphereSettings::default()
    };
    let textures = prepare_atmosphere_textures(&device(), &mut cache, &settings).unwrap();
    assert_eq!(textures.transmittance_lut.texture, TextureId(0));
    assert_eq!(textures.multiscattering_lut.texture, TextureId(1));
    assert_eq!(textures.sky_view_lut.texture, TextureId(2));
    assert_eq!(textures.aerial_view_lut.texture, TextureId(3));
    assert_eq!(cache.len(), 4);
}

#[test]
fn textures_of_a_view_are_reused_next_frame() {
    let mut cache = TextureCache::new();
    let settings = AtmosphereSettings {
        sky_view_lut_size: UVec2 { x: 256, y: 128 },
        ..AtmosphereSettings::default()
    };
    let first: AtmosphereTextures =
        prepare_atmosphere_textures(&device(), &mut cache, &settings).unwrap();
    cache.release_all_unclaimed_since_last_frame();
    let second = prepare_atmosphere_textures(&device(), &mut cache, &settings).unwrap();
    assert_eq!(first, second);
    assert_eq!(cache.len(), 4);
}

#[test]
fn two_views_get_different_textures() {
    let mut cache = TextureCache::new();
    let settings = AtmosphereSettings::default();
    let first = prepare_atmosphere_textures(&device(), &mut cache, &settings).unwrap();
    let second = prepare_atmosphere_textures(&device(), &mut cache, &settings).unwrap();
    let ids = |t: &AtmosphereTextures| {
        [
            t.transmittance_lut.texture,
            t.multiscattering_lut.texture,
            t.sky_view_lut.texture,
            t.aerial_view_lut.texture,
        ]
    };
    for a in ids(&first) {
        for b in ids(&second) {
            assert_ne!(a, b);
        }
    }
    assert_eq!(cache.len(), 8);
}

#[test]
fn invalid_settings_lease_nothing() {
    let mut cache = TextureCache::new();
    let settings = AtmosphereSettings {
        aerial_view_lut_size: UVec3 { x: 32, y: 32, z: 0 },
        ..AtmosphereSettings::default()
    };
    assert_eq!(
        prepare_atmosphere_textures(&device(), &mut cache, &settings),
        Err(AllocationError::InvalidSize)
    );
    assert!(cache.is_empty());
}

#[test]
fn bind_groups_bind_what_the_passes_declare() {
    let mut cache = TextureCache::new();
    let textures =
        prepare_atmosphere_textures(&device(), &mut cache, &AtmosphereSettings::default()).unwrap();
    let samplers = AtmosphereSamplers::new();
    let groups = prepare_atmosphere_bind_groups(&textures, &samplers, &uniforms());
    let atmosphere = BindingResource::Buffer(BufferId(10));
    let settings = BindingResource::Buffer(BufferId(11));
    let view = BindingResource::Buffer(BufferId(12));
    let lights = BindingResource::Buffer(BufferId(13));
    let t = BindingResource::TextureView(textures.transmittance_lut);
    let ts = BindingResource::Sampler(samplers.transmittance_lut);
    let m = BindingResource::TextureView(textures.multiscattering_lut);
    let ms = BindingResource::Sampler(samplers.multiscattering_lut);
    let s = BindingResource::TextureView(textures.sky_view_lut);
    let ss = BindingResource::Sampler(samplers.sky_view_lut);
    let a = BindingResource::TextureView(textures.aerial_view_lut);
    let as_ = BindingResource::Sampler(samplers.aerial_view_lut);

    assert_eq!(groups.transmittance_lut.layout, LayoutId::TransmittanceLut);
    assert_eq!(groups.transmittance_lut.entries, vec![atmosphere, settings]);
    assert_eq!(groups.multiscattering_lut.layout, LayoutId::MultiscatteringLut);
    assert_eq!(groups.multiscattering_lut.entries, vec![atmosphere, settings, t, ts, m]);
    assert_eq!(groups.sky_view_lut.layout, LayoutId::SkyViewLut);
    assert_eq!(
        groups.sky_view_lut.entries,
        vec![atmosphere, settings, view, lights, t, ts, m, ms]
    );
    assert_eq!(groups.aerial_view_lut.layout, LayoutId::AerialViewLut);
    assert_eq!(
        groups.aerial_view_lut.entries,
        vec![atmosphere, settings, view, lights, t, ts, m, ms, a]
    );
    assert_eq!(groups.render_sky.layout, LayoutId::RenderSky);
    assert_eq!(
        groups.render_sky.entries,
        vec![atmosphere, settings, view, lights, t, ts, m, ms, s, ss, a, as_]
    );
}

#[test]
fn bind_groups_have_one_entry_for_each_slot() {
    let mut cache = TextureCache::new();
    let view = view(&mut cache, AtmosphereSettings::default());
    let layouts = AtmosphereBindGroupLayouts::from_adapter(&capable_adapter()).unwrap();
    let groups = &view.bind_groups;
    assert_eq!(groups.transmittance_lut.entries.len(), layouts.transmittance_lut.entries.len());
    assert_eq!(groups.multiscattering_lut.entries.len(), layouts.multiscattering_lut.entries.len());
    assert_eq!(groups.sky_view_lut.entries.len(), layouts.sky_view_lut.entries.len());
    assert_eq!(groups.aerial_view_lut.entries.len(), layouts.aerial_view_lut.entries.len());
    assert_eq!(
        groups.render_sky.entries.len(),
        RenderSkyBindGroupLayout::new().render_sky.entries.len()
    );
}

#[test]
fn uniforms_are_complete_when_all_are_written() {
    assert!(uniforms().is_complete());
    assert!(!UniformBindings { atmosphere: None, ..uniforms() }.is_complete());
    assert!(!UniformBindings { settings: None, ..uniforms() }.is_complete());
    assert!(!UniformBindings { view: None, ..uniforms() }.is_complete());
    assert!(!UniformBindings { lights: None, ..uniforms() }.is_complete());
}

#[test]
fn full_pipeline_records_five_passes_in_order() {
    let mut cache = TextureCache::new();
    let mut pipeline_cache = PipelineCache::new();
    let pipelines = AtmospherePipelines::queue(&mut pipeline_cache);
    for id in pipeline_cache.queued() {
        pipeline_cache.finish_compilation(id);
    }
    let view = view(&mut cache, AtmosphereSettings::default());
    let mut encoder = CommandEncoder::new();
    let written = AtmosphereLutsNode::default().run(
        &mut encoder,
        Some(&view),
        Some(&pipelines),
        &pipeline_cache,
    );
    assert_eq!(written, all_written());
    let target = TextureId(99);
    let issued = RenderSkyNode.run(
        &mut encoder,
        Some(&view),
        target,
        false,
        Some(&pipelines),
        &pipeline_cache,
    );
    assert!(issued);
    assert_eq!(
        encoder.finish(),
        vec![
            Command::PushDebugGroup,
            transmittance(&view, &pipelines),
            multiscattering(&pipelines, 2, 2),
            sky_view(&view, &pipelines),
            aerial_view(&pipelines, 2, 2),
            Command::PopDebugGroup,
            render_sky(target, &pipelines),
        ]
    );
}

#[test]
fn dispatch_rounds_up_on_each_axis() {
    let mut cache = TextureCache::new();
    let mut pipeline_cache = PipelineCache::new();
    let pipelines = AtmospherePipelines::queue(&mut pipeline_cache);
    for id in pipeline_cache.queued() {
        pipeline_cache.finish_compilation(id);
    }
    let settings = AtmosphereSettings {
        multiscattering_lut_size: UVec2 { x: 17, y: 16 },
        aerial_view_lut_size: UVec3 { x: 1, y: 33, z: 64 },
        ..AtmosphereSettings::default()
    };
    let view = view(&mut cache, settings);
    let mut encoder = CommandEncoder::new();
    AtmosphereLutsNode::default().run(&mut encoder, Some(&view), Some(&pipelines), &pipeline_cache);
    let commands = encoder.finish();
    assert_eq!(commands[2], multiscattering(&pipelines, 2, 1));
    assert_eq!(commands[4], aerial_view(&pipelines, 1, 3));
}

#[test]
fn pending_multiscattering_pipeline_skips_its_dependents_for_the_frame() {
    let mut cache = TextureCache::new();
    let mut pipeline_cache = PipelineCache::new();
    let pipelines = AtmospherePipelines::queue(&mut pipeline_cache);
    for id in pipeline_cache.queued() {
        if id != pipelines.multiscattering_lut.0 {
            pipeline_cache.finish_compilation(id);
        }
    }
    let target = TextureId(99);

    // Frame K: the multiscattering pipeline is not compiled.
    let frame_k = view(&mut cache, AtmosphereSettings::default());
    let mut encoder = CommandEncoder::new();
    let written = AtmosphereLutsNode::default().run(
        &mut encoder,
        Some(&frame_k),
        Some(&pipelines),
        &pipeline_cache,
    );
    assert_eq!(
        written,
        LutFlags { transmittance: true, multiscattering: false, sky_view: false, aerial_view: false }
    );
    // The compositing pass goes by its own pipeline, which is compiled.
    let issued =
        RenderSkyNode.run(&mut encoder, Some(&frame_k), target, false, Some(&pipelines), &pipeline_cache);
    assert!(issued);
    assert_eq!(
        encoder.finish(),
        vec![
            Command::PushDebugGroup,
            transmittance(&frame_k, &pipelines),
            Command::PopDebugGroup,
            render_sky(target, &pipelines),
        ]
    );
    cache.release_all_unclaimed_since_last_frame();

    // Frame K + 1: the pipeline is compiled.
    pipeline_cache.finish_compilation(pipelines.multiscattering_lut.0);
    let frame_k1 = view(&mut cache, AtmosphereSettings::default());
    assert_eq!(frame_k1.textures, frame_k.textures);
    let mut encoder = CommandEncoder::new();
    let written = AtmosphereLutsNode::default().run(
        &mut encoder,
        Some(&frame_k1),
        Some(&pipelines),
        &pipeline_cache,
    );
    assert_eq!(written, all_written());
    assert!(RenderSkyNode.run(
        &mut encoder,
        Some(&frame_k1),
        target,
        false,
        Some(&pipelines),
        &pipeline_cache
    ));
    assert_eq!(
        encoder.finish(),
        vec![
            Command::PushDebugGroup,
            transmittance(&frame_k1, &pipelines),
            multiscattering(&pipelines, 2, 2),
            sky_view(&frame_k1, &pipelines),
            aerial_view(&pipelines, 2, 2),
            Command::PopDebugGroup,
            render_sky(target, &pipelines),
        ]
    );
}

#[test]
fn pending_transmittance_pipeline_skips_everything() {
    let mut cache = TextureCache::new();
    let mut pipeline_cache = PipelineCache::new();
    let pipelines = AtmospherePipelines::queue(&mut pipeline_cache);
    for id in pipeline_cache.queued() {
        if id != pipelines.transmittance_lut.0 {
            pipeline_cache.finish_compilation(id);
        }
    }
    let view = view(&mut cache, AtmosphereSettings::default());
    let mut encoder = CommandEncoder::new();
    let written = AtmosphereLutsNode::default().run(
        &mut encoder,
        Some(&view),
        Some(&pipelines),
        &pipeline_cache,
    );
    assert_eq!(written, LutFlags::none());
    assert!(!written.all());
    assert_eq!(encoder.finish(), vec![]);
}

#[test]
fn pending_sky_view_pipeline_skips_only_sky_view() {
    let mut cache = TextureCache::new();
    let mut pipeline_cache = PipelineCache::new();
    let pipelines = AtmospherePipelines::queue(&mut pipeline_cache);
    for id in pipeline_cache.queued() {
        if id != pipelines.sky_view_lut.0 {
            pipeline_cache.finish_compilation(id);
        }
    }
    let view = view(&mut cache, AtmosphereSettings::default());
    let mut encoder = CommandEncoder::new();
    let written = AtmosphereLutsNode::default().run(
        &mut encoder,
        Some(&view),
        Some(&pipelines),
        &pipeline_cache,
    );
    assert!(written.get(Lut::Transmittance));
    assert!(written.get(Lut::Multiscattering));
    assert!(!written.get(Lut::SkyView));
    assert!(written.get(Lut::AerialView));
    assert!(RenderSkyNode.run(
        &mut encoder,
        Some(&view),
        TextureId(99),
        false,
        Some(&pipelines),
        &pipeline_cache
    ));
    assert_eq!(
        encoder.finish(),
        vec![
            Command::PushDebugGroup,
            transmittance(&view, &pipelines),
            multiscattering(&pipelines, 2, 2),
            aerial_view(&pipelines, 2, 2),
            Command::PopDebugGroup,
            render_sky(TextureId(99), &pipelines),
        ]
    );
}

#[test]
fn pending_aerial_view_pipeline_skips_only_aerial_view() {
    let mut cache = TextureCache::new();
    let mut pipeline_cache = PipelineCache::new();
    let pipelines = AtmospherePipelines::queue(&mut pipeline_cache);
    for id in pipeline_cache.queued() {
        if id != pipelines.aerial_view_lut.0 {
            pipeline_cache.finish_compilation(id);
        }
    }
    let view = view(&mut cache, AtmosphereSettings::default());
    let mut encoder = CommandEncoder::new();
    let written = AtmosphereLutsNode::default().run(
        &mut encoder,
        Some(&view),
        Some(&pipelines),
        &pipeline_cache,
    );
    assert_eq!(
        encoder.finish(),
        vec![
            Command::PushDebugGroup,
            transmittance(&view, &pipelines),
            multiscattering(&pipelines, 2, 2),
            sky_view(&view, &pipelines),
            Command::PopDebugGroup,
        ]
    );
    assert!(!written.all());
}

#[test]
fn pending_compositing_pipeline_skips_compositing() {
    let mut cache = TextureCache::new();
    let mut pipeline_cache = PipelineCache::new();
    let pipelines = AtmospherePipelines::queue(&mut pipeline_cache);
    let view = view(&mut cache, AtmosphereSettings::default());
    let mut encoder = CommandEncoder::new();
    encoder.record(Command::PopDebugGroup);
    assert!(!RenderSkyNode.run(
        &mut encoder,
        Some(&view),
        TextureId(99),
        false,
        Some(&pipelines),
        &pipeline_cache
    ));
    assert_eq!(encoder.len(), 1);
    pipeline_cache.finish_compilation(pipelines.render_sky.0);
    assert!(RenderSkyNode.run(
        &mut encoder,
        Some(&view),
        TextureId(99),
        false,
        Some(&pipelines),
        &pipeline_cache
    ));
    assert_eq!(
        encoder.finish(),
        vec![Command::PopDebugGroup, render_sky(TextureId(99), &pipelines)]
    );
}

#[test]
fn view_without_resources_is_skipped() {
    let mut pipeline_cache = PipelineCache::new();
    let pipelines = AtmospherePipelines::queue(&mut pipeline_cache);
    for id in pipeline_cache.queued() {
        pipeline_cache.finish_compilation(id);
    }
    let mut encoder = CommandEncoder::new();
    let written =
        AtmosphereLutsNode::default().run(&mut encoder, None, Some(&pipelines), &pipeline_cache);
    assert_eq!(written, LutFlags::none());
    assert!(!RenderSkyNode.run(
        &mut encoder,
        None,
        TextureId(99),
        false,
        Some(&pipelines),
        &pipeline_cache
    ));
    assert_eq!(encoder.len(), 0);
}

#[test]
fn device_without_storage_support_disables_the_atmosphere() {
    let mut pipeline_cache = PipelineCache::new();
    let resources = AtmospherePlugin.finish(&incapable_adapter(), &mut pipeline_cache);
    assert_eq!(resources, Err(Diagnostic::StorageBindingUnsupported));
    // Nothing was requested from the pipeline cache.
    assert!(pipeline_cache.queued().is_empty());
    assert!(pipelines_of(&resources).is_none());

    // No pass is issued for any view in any frame.
    let mut cache = TextureCache::new();
    let mut encoder = CommandEncoder::new();
    for _frame in 0..3 {
        for _view in 0..2 {
            let view = view(&mut cache, AtmosphereSettings::default());
            let written = AtmosphereLutsNode::default().run(
                &mut encoder,
                Some(&view),
                pipelines_of(&resources),
                &pipeline_cache,
            );
            assert_eq!(written, LutFlags::none());
            assert!(!RenderSkyNode.run(
                &mut encoder,
                Some(&view),
                TextureId(99),
                false,
                pipelines_of(&resources),
                &pipeline_cache
            ));
        }
        cache.release_all_unclaimed_since_last_frame();
    }
    assert_eq!(encoder.finish(), vec![]);
}

#[test]
fn device_with_storage_support_enables_the_atmosphere() {
    let mut pipeline_cache = PipelineCache::new();
    let resources: Result<AtmosphereResources, Diagnostic> =
        AtmospherePlugin.finish(&capable_adapter(), &mut pipeline_cache);
    let made = resources.clone().unwrap();
    assert_eq!(
        Some(made.layouts),
        AtmosphereBindGroupLayouts::from_adapter(&capable_adapter())
    );
    assert_eq!(made.render_sky_layout, RenderSkyBindGroupLayout::new());
    assert_eq!(made.samplers, AtmosphereSamplers::new());
    assert_eq!(pipeline_cache.queued(), vec![0, 1, 2, 3, 4, 5]);
    let core = GraphNode::Core;
    let own = GraphNode::Atmosphere;
    assert_eq!(
        made.graph_edges,
        vec![
            GraphEdge { before: core(Node3d::EndPrepasses), after: own(AtmosphereNode::RenderLuts) },
            GraphEdge { before: own(AtmosphereNode::RenderLuts), after: core(Node3d::StartMainPass) },
            GraphEdge { before: core(Node3d::MainOpaquePass), after: own(AtmosphereNode::RenderSky) },
            GraphEdge {
                before: own(AtmosphereNode::RenderSky),
                after: core(Node3d::MainTransparentPass)
            },
        ]
    );
    assert_eq!(pipelines_of(&resources), Some(&made.pipelines));
    assert_eq!(made.pipelines, AtmospherePipelines::queue(&mut pipeline_cache));
}

#[test]
fn diagnostics_have_texts() {
    assert_eq!(
        Diagnostic::StorageBindingUnsupported.message(),
        "atmosphere not loaded: the adapter cannot write Rgba16Float textures as storage textures"
    );
    assert_eq!(
        Diagnostic::AllocationFailed.message(),
        "atmosphere skipped for a view: its lookup tables could not be allocated"
    );
}

#[test]
fn allocation_failure_is_reported_once_in_a_run() {
    let mut log = AllocationDiagnostics::new();
    assert_eq!(log.note(true), None);
    assert_eq!(log.note(false), Some(Diagnostic::AllocationFailed));
    assert_eq!(log.note(false), None);
    assert_eq!(log.note(false), None);
    assert_eq!(log.note(true), None);
    assert_eq!(log.note(false), Some(Diagnostic::AllocationFailed));
}

#[test]
fn nodes_have_their_places_in_the_graph() {
    assert_eq!(
        AtmosphereNode::RenderLuts.neighbours(),
        (Node3d::EndPrepasses, Node3d::StartMainPass)
    );
    assert_eq!(
        AtmosphereNode::RenderSky.neighbours(),
        (Node3d::MainOpaquePass, Node3d::MainTransparentPass)
    );
}

#[test]
fn identical_inputs_record_identical_frames() {
    let run = || {
        let mut cache = TextureCache::new();
        let mut pipeline_cache = PipelineCache::new();
        let resources = AtmospherePlugin.finish(&capable_adapter(), &mut pipeline_cache);
        for id in pipeline_cache.queued() {
            pipeline_cache.finish_compilation(id);
        }
        let view = view(&mut cache, AtmosphereSettings::from_camera(Some(UVec2::new(800, 600))));
        let mut encoder = CommandEncoder::new();
        AtmosphereLutsNode::default().run(
            &mut encoder,
            Some(&view),
            pipelines_of(&resources),
            &pipeline_cache,
        );
        RenderSkyNode.run(
            &mut encoder,
            Some(&view),
            TextureId(7),
            false,
            pipelines_of(&resources),
            &pipeline_cache,
        );
        (view.textures, view.bind_groups, encoder.finish())
    };
    assert_eq!(run(), run());
}

#[test]
fn no_table_pass_is_recorded_before_the_passes_it_reads_from() {
    let luts = [Lut::Transmittance, Lut::Multiscattering, Lut::SkyView, Lut::AerialView];
    // Every combination of compiled and pending pipelines, for both kinds of target.
    for compiled in 0..64u32 {
        for hdr in [false, true] {
            let mut cache = TextureCache::new();
            let mut pipeline_cache = PipelineCache::new();
            let pipelines = AtmospherePipelines::queue(&mut pipeline_cache);
            for id in 0..6usize {
                if compiled & (1 << id) != 0 {
                    pipeline_cache.finish_compilation(id);
                }
            }
            let is_compiled = |pass: Pass| {
                let id = match pass {
                    Pass::TransmittanceLut => pipelines.transmittance_lut.0,
                    Pass::MultiscatteringLut => pipelines.multiscattering_lut.0,
                    Pass::SkyViewLut => pipelines.sky_view_lut.0,
                    Pass::AerialViewLut => pipelines.aerial_view_lut.0,
                    Pass::RenderSky => pipelines.render_sky_for(hdr).0,
                };
                compiled & (1 << id) != 0
            };
            let view = view(&mut cache, AtmosphereSettings::default());
            let mut encoder = CommandEncoder::new();
            let written = AtmosphereLutsNode::default().run(
                &mut encoder,
                Some(&view),
                Some(&pipelines),
                &pipeline_cache,
            );
            let tables = encoder.len();
            let issued = RenderSkyNode.run(
                &mut encoder,
                Some(&view),
                TextureId(99),
                hdr,
                Some(&pipelines),
                &pipeline_cache,
            );
            // The compositing pass goes by its own pipeline alone.
            assert_eq!(issued, is_compiled(Pass::RenderSky));
            let commands = encoder.finish();
            assert_eq!(commands.len(), tables + usize::from(issued));
            if issued {
                assert_eq!(
                    commands[tables],
                    render_sky_with(TextureId(99), pipelines.render_sky_for(hdr))
                );
            }
            let passes: Vec<Pass> =
                commands[..tables].iter().filter_map(|command| command.pass()).collect();
            for (at, pass) in passes.iter().enumerate() {
                // A pass is recorded only if its pipeline is compiled.
                assert!(is_compiled(*pass));
                for lut in luts {
                    if pass.reads(lut) {
                        assert!(passes[..at].iter().any(|earlier| earlier.writes() == Some(lut)));
                    }
                }
                if let Some(lut) = pass.writes() {
                    assert!(written.get(lut));
                }
            }
            // The passes come in the order of issue, each at most once.
            for pair in passes.windows(2) {
                assert!(pair[0].index() < pair[1].index());
            }
            // A table pass whose pipeline is compiled and whose inputs are written is recorded.
            for pass in pass_order() {
                if pass == Pass::RenderSky {
                    continue;
                }
                let inputs_written = luts.iter().all(|lut| !pass.reads(*lut) || written.get(*lut));
                assert_eq!(passes.contains(&pass), is_compiled(pass) && inputs_written);
            }
        }
    }
}

#[test]
fn compositing_uses_the_pipeline_for_the_format_of_the_target() {
    let mut cache = TextureCache::new();
    let mut pipeline_cache = PipelineCache::new();
    let pipelines = AtmospherePipelines::queue(&mut pipeline_cache);
    assert_ne!(pipelines.render_sky, pipelines.render_sky_hdr);
    assert_eq!(pipelines.render_sky_for(false), pipelines.render_sky);
    assert_eq!(pipelines.render_sky_for(true), pipelines.render_sky_hdr);
    pipeline_cache.finish_compilation(pipelines.render_sky_hdr.0);
    let view = view(&mut cache, AtmosphereSettings::default());
    let mut encoder = CommandEncoder::new();
    let node = RenderSkyNode;
    assert!(!node.run(&mut encoder, Some(&view), TextureId(5), false, Some(&pipelines), &pipeline_cache));
    assert!(node.run(&mut encoder, Some(&view), TextureId(5), true, Some(&pipelines), &pipeline_cache));
    assert_eq!(encoder.finish(), vec![render_sky_with(TextureId(5), pipelines.render_sky_hdr)]);
}

#[test]
fn every_pass_of_a_view_binds_at_the_offsets_of_the_view() {
    let mut cache = TextureCache::new();
    let mut pipeline_cache = PipelineCache::new();
    let pipelines = AtmospherePipelines::queue(&mut pipeline_cache);
    for id in pipeline_cache.queued() {
        pipeline_cache.finish_compilation(id);
    }
    let view = view(&mut cache, AtmosphereSettings::default());
    let mut encoder = CommandEncoder::new();
    AtmosphereLutsNode::default().run(&mut encoder, Some(&view), Some(&pipelines), &pipeline_cache);
    RenderSkyNode.run(&mut encoder, Some(&view), TextureId(99), false, Some(&pipelines), &pipeline_cache);
    let mut passes = 0;
    for command in encoder.finish() {
        let dynamic_offsets = match command {
            Command::RenderPass(pass) => pass.dynamic_offsets,
            Command::ComputePass(pass) => pass.dynamic_offsets,
            _ => continue,
        };
        passes += 1;
        let bound = dynamic_offsets.to_vec();
        assert_eq!(bound[..2], [256, 512]);
        if bound.len() > 2 {
            assert_eq!(bound[2..], [768, 1024]);
        }
    }
    assert_eq!(passes, 5);
}

#[test]
fn textures_of_each_view_return_when_the_views_ask_in_the_same_order() {
    let mut cache = TextureCache::new();
    let same = AtmosphereSettings::default();
    let other = AtmosphereSettings {
        sky_view_lut_size: UVec2 { x: 256, y: 128 },
        ..AtmosphereSettings::default()
    };
    let frame = |cache: &mut TextureCache| {
        [same, other, same]
            .map(|settings| prepare_atmosphere_textures(&device(), cache, &settings).unwrap())
    };
    let first = frame(&mut cache);
    let allocated = cache.len();
    for _ in 0..3 {
        cache.release_all_unclaimed_since_last_frame();
        assert_eq!(frame(&mut cache), first);
        assert_eq!(cache.len(), allocated);
    }
}
