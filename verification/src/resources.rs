//! What the passes of one view work with: the samplers and pipelines made
//! once, and the textures and binding sets assembled every frame.

use vstd::prelude::*;
use crate::layout::{
    aerial_view_lut_bindings, multiscattering_lut_bindings, render_sky_bindings,
    sky_view_lut_bindings, transmittance_lut_bindings, BindingType, LayoutId, SamplerBindingType,
    LUT_FORMAT,
};
use crate::pipeline::{
    spec_get_or_compile, CachedComputePipelineId, CachedPipeline, CachedRenderPipelineId,
    ComputePipelineDescriptor, EntryPoint, PipelineCache, PipelineDescriptor,
    RenderPipelineDescriptor, ShaderDefs, AERIAL_VIEW_LUT_SHADER, MULTISCATTERING_LUT_SHADER,
    RENDER_SKY_SHADER, SKY_VIEW_LUT_SHADER, TRANSMITTANCE_LUT_SHADER,
};
use crate::settings::AtmosphereSettings;
use crate::texture::{
    view_target_format, Extent3d, Limits, RenderDevice, TextureDescriptor, TextureDimension,
    TextureFormat, TextureUsages, TEXTURE_FORMAT_HDR,
};
use crate::lease_order::{
    acquire_all, all_granted, all_idle, lemma_acquire_all_concat, lemma_answers_len,
    lemma_four_requests, lemma_frame_replay_returns_same, lemma_requests_keep_identities,
};
use crate::texture_cache::{
    lemma_acquire_keeps_wf, lemma_acquire_leases_exclusively, AllocationError, CachedTexture, Pool,
    TextureCache,
};

verus! {

/// The four lookup tables.
#[derive(Clone, Copy, Debug, PartialEq, Eq, Hash, Structural)]
pub enum Lut {
    Transmittance,
    Multiscattering,
    SkyView,
    AerialView,
}

#[derive(Clone, Copy, Debug, PartialEq, Eq, Hash, Structural)]
pub enum FilterMode {
    Nearest,
    Linear,
}

#[derive(Clone, Copy, Debug, PartialEq, Eq, Hash, Structural)]
pub struct SamplerDescriptor {
    pub mag_filter: FilterMode,
    pub min_filter: FilterMode,
    pub mipmap_filter: FilterMode,
}

/// Which sampler it is.
#[derive(Clone, Copy, Debug, PartialEq, Eq, Hash, Structural)]
pub enum SamplerId {
    TransmittanceLut,
    MultiscatteringLut,
    SkyViewLut,
    AerialViewLut,
    TaaNearest,
    TaaLinear,
}

#[derive(Clone, Copy, Debug, PartialEq, Eq, Hash, Structural)]
pub struct Sampler {
    pub id: SamplerId,
    pub descriptor: SamplerDescriptor,
}

/// A sampler that interpolates between texels and between mip levels.
pub open spec fn linear_sampler(id: SamplerId) -> Sampler {
    Sampler {
        id,
        descriptor: SamplerDescriptor {
            mag_filter: FilterMode::Linear,
            min_filter: FilterMode::Linear,
            mipmap_filter: FilterMode::Linear,
        },
    }
}

/// The samplers that the tables are read through, one for each table.
#[derive(Clone, Copy, Debug, PartialEq, Eq, Hash, Structural)]
pub struct AtmosphereSamplers {
    pub transmittance_lut: Sampler,
    pub multiscattering_lut: Sampler,
    pub sky_view_lut: Sampler,
    pub aerial_view_lut: Sampler,
}

impl AtmosphereSamplers {
    pub open spec fn spec_new() -> Self {
        AtmosphereSamplers {
            transmittance_lut: linear_sampler(SamplerId::TransmittanceLut),
            multiscattering_lut: linear_sampler(SamplerId::MultiscatteringLut),
            sky_view_lut: linear_sampler(SamplerId::SkyViewLut),
            aerial_view_lut: linear_sampler(SamplerId::AerialViewLut),
        }
    }

    /// Four linear samplers.
    pub fn new() -> (samplers: Self)
        ensures
            samplers == Self::spec_new(),
    {
        let linear = SamplerDescriptor {
            mag_filter: FilterMode::Linear,
            min_filter: FilterMode::Linear,
            mipmap_filter: FilterMode::Linear,
        };
        AtmosphereSamplers {
            transmittance_lut: Sampler { id: SamplerId::TransmittanceLut, descriptor: linear },
            multiscattering_lut: Sampler { id: SamplerId::MultiscatteringLut, descriptor: linear },
            sky_view_lut: Sampler { id: SamplerId::SkyViewLut, descriptor: linear },
            aerial_view_lut: Sampler { id: SamplerId::AerialViewLut, descriptor: linear },
        }
    }
}

/// The pipeline of a raster pass that draws into one target of the
/// tables' format.
pub open spec fn lut_render_pipeline(layout: LayoutId, shader: u128) -> PipelineDescriptor {
    PipelineDescriptor::Render(
        RenderPipelineDescriptor {
            layout,
            shader,
            shader_defs: ShaderDefs { tonemap: false, reset: false },
            entry_point: EntryPoint::Main,
            target_format: LUT_FORMAT,
            target_count: 1,
        },
    )
}

/// The pipeline of the compositing pass for a view target that is HDR or
/// not: it draws into one target of the format of the view target.
pub open spec fn render_sky_pipeline(hdr: bool) -> PipelineDescriptor {
    PipelineDescriptor::Render(
        RenderPipelineDescriptor {
            layout: LayoutId::RenderSky,
            shader: RENDER_SKY_SHADER,
            shader_defs: ShaderDefs { tonemap: false, reset: false },
            entry_point: EntryPoint::Main,
            target_format: view_target_format(hdr),
            target_count: 1,
        },
    )
}

/// The pipeline of a compute pass.
pub open spec fn lut_compute_pipeline(layout: LayoutId, shader: u128) -> PipelineDescriptor {
    PipelineDescriptor::Compute(
        ComputePipelineDescriptor {
            layout,
            shader,
            shader_defs: ShaderDefs { tonemap: false, reset: false },
            entry_point: EntryPoint::Main,
        },
    )
}

/// The identities of the pipelines of the five passes. The compositing
/// pass has two: one for each format that a view target can have.
#[derive(Clone, Copy, Debug, PartialEq, Eq, Hash, Structural)]
pub struct AtmospherePipelines {
    pub transmittance_lut: CachedRenderPipelineId,
    pub multiscattering_lut: CachedComputePipelineId,
    pub sky_view_lut: CachedRenderPipelineId,
    pub aerial_view_lut: CachedComputePipelineId,
    /// For view targets without HDR.
    pub render_sky: CachedRenderPipelineId,
    /// For HDR view targets.
    pub render_sky_hdr: CachedRenderPipelineId,
}

impl AtmospherePipelines {
    /// The pipeline of the compositing pass for a view target that is HDR
    /// or not.
    pub open spec fn spec_render_sky_for(self, hdr: bool) -> CachedRenderPipelineId {
        if hdr {
            self.render_sky_hdr
        } else {
            self.render_sky
        }
    }

    /// The pipeline of the compositing pass for a view target that is HDR
    /// or not.
    pub fn render_sky_for(&self, hdr: bool) -> (id: CachedRenderPipelineId)
        ensures
            id == self.spec_render_sky_for(hdr),
    {
        if hdr {
            self.render_sky_hdr
        } else {
            self.render_sky
        }
    }

    /// Whether each identity is an identity of `cache` and stands there for
    /// the pipeline of its pass.
    pub open spec fn spec_stand_in(self, cache: Seq<CachedPipeline>) -> bool {
        &&& self.transmittance_lut.0 < cache.len()
        &&& cache[self.transmittance_lut.0 as int].descriptor == lut_render_pipeline(
            LayoutId::TransmittanceLut,
            TRANSMITTANCE_LUT_SHADER,
        )
        &&& self.multiscattering_lut.0 < cache.len()
        &&& cache[self.multiscattering_lut.0 as int].descriptor == lut_compute_pipeline(
            LayoutId::MultiscatteringLut,
            MULTISCATTERING_LUT_SHADER,
        )
        &&& self.sky_view_lut.0 < cache.len()
        &&& cache[self.sky_view_lut.0 as int].descriptor == lut_render_pipeline(
            LayoutId::SkyViewLut,
            SKY_VIEW_LUT_SHADER,
        )
        &&& self.aerial_view_lut.0 < cache.len()
        &&& cache[self.aerial_view_lut.0 as int].descriptor == lut_compute_pipeline(
            LayoutId::AerialViewLut,
            AERIAL_VIEW_LUT_SHADER,
        )
        &&& self.render_sky.0 < cache.len()
        &&& cache[self.render_sky.0 as int].descriptor == render_sky_pipeline(false)
        &&& self.render_sky_hdr.0 < cache.len()
        &&& cache[self.render_sky_hdr.0 as int].descriptor == render_sky_pipeline(true)
    }

    /// The cache and the identities after the pipelines have been
    /// requested, in the order of their passes; of the compositing pass
    /// the one for targets without HDR first.
    pub open spec fn spec_queue(pipelines: Seq<CachedPipeline>) -> (Seq<CachedPipeline>, Self) {
        let (c1, transmittance) = spec_get_or_compile(
            pipelines,
            lut_render_pipeline(LayoutId::TransmittanceLut, TRANSMITTANCE_LUT_SHADER),
        );
        let (c2, multiscattering) = spec_get_or_compile(
            c1,
            lut_compute_pipeline(LayoutId::MultiscatteringLut, MULTISCATTERING_LUT_SHADER),
        );
        let (c3, sky_view) = spec_get_or_compile(
            c2,
            lut_render_pipeline(LayoutId::SkyViewLut, SKY_VIEW_LUT_SHADER),
        );
        let (c4, aerial_view) = spec_get_or_compile(
            c3,
            lut_compute_pipeline(LayoutId::AerialViewLut, AERIAL_VIEW_LUT_SHADER),
        );
        let (c5, render_sky) = spec_get_or_compile(c4, render_sky_pipeline(false));
        let (c6, render_sky_hdr) = spec_get_or_compile(c5, render_sky_pipeline(true));
        (
            c6,
            AtmospherePipelines {
                transmittance_lut: CachedRenderPipelineId(transmittance as usize),
                multiscattering_lut: CachedComputePipelineId(multiscattering as usize),
                sky_view_lut: CachedRenderPipelineId(sky_view as usize),
                aerial_view_lut: CachedComputePipelineId(aerial_view as usize),
                render_sky: CachedRenderPipelineId(render_sky as usize),
                render_sky_hdr: CachedRenderPipelineId(render_sky_hdr as usize),
            },
        )
    }

    /// Requests the pipelines of the five passes. Every identity handed
    /// out is an identity of the cache, and stands for the pipeline of its
    /// pass.
    pub fn queue(pipeline_cache: &mut PipelineCache) -> (pipelines: Self)
        ensures
            (final(pipeline_cache)@, pipelines) == Self::spec_queue(old(pipeline_cache)@),
            final(pipeline_cache)@.len() <= usize::MAX,
            pipelines.spec_stand_in(final(pipeline_cache)@),
            old(pipeline_cache)@.len() <= final(pipeline_cache)@.len(),
            forall|i: int|
                0 <= i < old(pipeline_cache)@.len() ==> final(pipeline_cache)@[i] == old(
                    pipeline_cache,
                )@[i],
    {
        let no_defs = ShaderDefs { tonemap: false, reset: false };
        let transmittance_lut = pipeline_cache.queue_render_pipeline(
            RenderPipelineDescriptor {
                layout: LayoutId::TransmittanceLut,
                shader: TRANSMITTANCE_LUT_SHADER,
                shader_defs: no_defs,
                entry_point: EntryPoint::Main,
                target_format: LUT_FORMAT,
                target_count: 1,
            },
        );
        let multiscattering_lut = pipeline_cache.queue_compute_pipeline(
            ComputePipelineDescriptor {
                layout: LayoutId::MultiscatteringLut,
                shader: MULTISCATTERING_LUT_SHADER,
                shader_defs: no_defs,
                entry_point: EntryPoint::Main,
            },
        );
        let sky_view_lut = pipeline_cache.queue_render_pipeline(
            RenderPipelineDescriptor {
                layout: LayoutId::SkyViewLut,
                shader: SKY_VIEW_LUT_SHADER,
                shader_defs: no_defs,
                entry_point: EntryPoint::Main,
                target_format: LUT_FORMAT,
                target_count: 1,
            },
        );
        let aerial_view_lut = pipeline_cache.queue_compute_pipeline(
            ComputePipelineDescriptor {
                layout: LayoutId::AerialViewLut,
                shader: AERIAL_VIEW_LUT_SHADER,
                shader_defs: no_defs,
                entry_point: EntryPoint::Main,
            },
        );
        let render_sky = pipeline_cache.queue_render_pipeline(
            RenderPipelineDescriptor {
                layout: LayoutId::RenderSky,
                shader: RENDER_SKY_SHADER,
                shader_defs: no_defs,
                entry_point: EntryPoint::Main,
                target_format: TextureFormat::bevy_default(),
                target_count: 1,
            },
        );
        let render_sky_hdr = pipeline_cache.queue_render_pipeline(
            RenderPipelineDescriptor {
                layout: LayoutId::RenderSky,
                shader: RENDER_SKY_SHADER,
                shader_defs: no_defs,
                entry_point: EntryPoint::Main,
                target_format: TEXTURE_FORMAT_HDR,
                target_count: 1,
            },
        );
        AtmospherePipelines {
            transmittance_lut,
            multiscattering_lut,
            sky_view_lut,
            aerial_view_lut,
            render_sky,
            render_sky_hdr,
        }
    }
}

/// What a raster pass draws a table into and later passes sample.
pub open spec fn render_target_usages() -> TextureUsages {
    TextureUsages::spec_render_attachment().spec_union(TextureUsages::spec_texture_binding())
}

/// What a compute pass writes a table into and later passes sample.
pub open spec fn storage_target_usages() -> TextureUsages {
    TextureUsages::spec_storage_binding().spec_union(TextureUsages::spec_texture_binding())
}

/// The texture of the table `lut` of a view with `settings`: of the size
/// that the settings give the table, in the tables' format, with one mip
/// level and one sample.
pub open spec fn spec_lut_descriptor(settings: AtmosphereSettings, lut: Lut) -> TextureDescriptor {
    match lut {
        Lut::Transmittance => TextureDescriptor {
            size: Extent3d {
                width: settings.transmittance_lut_size.x,
                height: settings.transmittance_lut_size.y,
                depth_or_array_layers: 1,
            },
            mip_level_count: 1,
            sample_count: 1,
            dimension: TextureDimension::D2,
            format: LUT_FORMAT,
            usage: render_target_usages(),
        },
        Lut::Multiscattering => TextureDescriptor {
            size: Extent3d {
                width: settings.multiscattering_lut_size.x,
                height: settings.multiscattering_lut_size.y,
                depth_or_array_layers: 1,
            },
            mip_level_count: 1,
            sample_count: 1,
            dimension: TextureDimension::D2,
            format: LUT_FORMAT,
            usage: storage_target_usages(),
        },
        Lut::SkyView => TextureDescriptor {
            size: Extent3d {
                width: settings.sky_view_lut_size.x,
                height: settings.sky_view_lut_size.y,
                depth_or_array_layers: 1,
            },
            mip_level_count: 1,
            sample_count: 1,
            dimension: TextureDimension::D2,
            format: LUT_FORMAT,
            usage: render_target_usages(),
        },
        Lut::AerialView => TextureDescriptor {
            size: Extent3d {
                width: settings.aerial_view_lut_size.x,
                height: settings.aerial_view_lut_size.y,
                depth_or_array_layers: settings.aerial_view_lut_size.z,
            },
            mip_level_count: 1,
            sample_count: 1,
            dimension: TextureDimension::D3,
            format: LUT_FORMAT,
            usage: storage_target_usages(),
        },
    }
}

/// The descriptor of the texture of the table `lut`.
pub fn lut_descriptor(settings: &AtmosphereSettings, lut: Lut) -> (descriptor: TextureDescriptor)
    ensures
        descriptor == spec_lut_descriptor(*settings, lut),
{
    let sampled = TextureUsages::texture_binding();
    let (size, dimension, usage) = match lut {
        Lut::Transmittance => (
            Extent3d {
                width: settings.transmittance_lut_size.x,
                height: settings.transmittance_lut_size.y,
                depth_or_array_layers: 1,
            },
            TextureDimension::D2,
            TextureUsages::render_attachment().union(sampled),
        ),
        Lut::Multiscattering => (
            Extent3d {
                width: settings.multiscattering_lut_size.x,
                height: settings.multiscattering_lut_size.y,
                depth_or_array_layers: 1,
            },
            TextureDimension::D2,
            TextureUsages::storage_binding().union(sampled),
        ),
        Lut::SkyView => (
            Extent3d {
                width: settings.sky_view_lut_size.x,
                height: settings.sky_view_lut_size.y,
                depth_or_array_layers: 1,
            },
            TextureDimension::D2,
            TextureUsages::render_attachment().union(sampled),
        ),
        Lut::AerialView => (
            Extent3d {
                width: settings.aerial_view_lut_size.x,
                height: settings.aerial_view_lut_size.y,
                depth_or_array_layers: settings.aerial_view_lut_size.z,
            },
            TextureDimension::D3,
            TextureUsages::storage_binding().union(sampled),
        ),
    };
    TextureDescriptor {
        size,
        mip_level_count: 1,
        sample_count: 1,
        dimension,
        format: LUT_FORMAT,
        usage,
    }
}

/// The textures of the four tables of one view, on lease for one frame.
#[derive(Clone, Copy, Debug, PartialEq, Eq, Hash, Structural)]
pub struct AtmosphereTextures {
    pub transmittance_lut: CachedTexture,
    pub multiscattering_lut: CachedTexture,
    pub sky_view_lut: CachedTexture,
    pub aerial_view_lut: CachedTexture,
}

impl AtmosphereTextures {
    /// Each texture is the one that `settings` describe for its table.
    pub open spec fn matches(self, settings: AtmosphereSettings) -> bool {
        &&& self.transmittance_lut.descriptor == spec_lut_descriptor(settings, Lut::Transmittance)
        &&& self.multiscattering_lut.descriptor == spec_lut_descriptor(
            settings,
            Lut::Multiscattering,
        )
        &&& self.sky_view_lut.descriptor == spec_lut_descriptor(settings, Lut::SkyView)
        &&& self.aerial_view_lut.descriptor == spec_lut_descriptor(settings, Lut::AerialView)
    }

    /// No two of the four are the same allocation.
    pub open spec fn distinct(self) -> bool {
        &&& self.transmittance_lut.texture != self.multiscattering_lut.texture
        &&& self.transmittance_lut.texture != self.sky_view_lut.texture
        &&& self.transmittance_lut.texture != self.aerial_view_lut.texture
        &&& self.multiscattering_lut.texture != self.sky_view_lut.texture
        &&& self.multiscattering_lut.texture != self.aerial_view_lut.texture
        &&& self.sky_view_lut.texture != self.aerial_view_lut.texture
    }
}

/// The pool and the textures after the four tables of a view with
/// `settings` have been requested, in the order of their passes.
///
/// Settings that are not valid for the device are refused before anything
/// is leased. Otherwise the first request that fails ends the sequence;
/// what was leased before it stays on lease until the frame ends.
pub open spec fn spec_prepare_atmosphere_textures(
    pool: Pool,
    limits: Limits,
    settings: AtmosphereSettings,
) -> (Pool, Result<AtmosphereTextures, AllocationError>) {
    if !settings.spec_is_valid(limits) {
        (pool, Err(AllocationError::InvalidSize))
    } else {
        let (pool_1, r1) = pool.acquire(limits, spec_lut_descriptor(settings, Lut::Transmittance));
        let (pool_2, r2) = pool_1.acquire(limits, spec_lut_descriptor(settings, Lut::Multiscattering));
        let (pool_3, r3) = pool_2.acquire(limits, spec_lut_descriptor(settings, Lut::SkyView));
        let (pool_4, r4) = pool_3.acquire(limits, spec_lut_descriptor(settings, Lut::AerialView));
        if r1 is Err {
            (pool_1, Err(r1->Err_0))
        } else if r2 is Err {
            (pool_2, Err(r2->Err_0))
        } else if r3 is Err {
            (pool_3, Err(r3->Err_0))
        } else if r4 is Err {
            (pool_4, Err(r4->Err_0))
        } else {
            (
                pool_4,
                Ok(
                    AtmosphereTextures {
                        transmittance_lut: r1->Ok_0,
                        multiscattering_lut: r2->Ok_0,
                        sky_view_lut: r3->Ok_0,
                        aerial_view_lut: r4->Ok_0,
                    },
                ),
            )
        }
    }
}

/// Leases the textures of the four tables of one view for the frame.
///
/// Succeeds for all settings that are valid for the device, as long as
/// four texture identities are left, and then returns four different
/// textures, each of the size that the settings give its table.
pub fn prepare_atmosphere_textures(
    device: &RenderDevice,
    texture_cache: &mut TextureCache,
    settings: &AtmosphereSettings,
) -> (result: Result<AtmosphereTextures, AllocationError>)
    ensures
        (final(texture_cache)@, result) == spec_prepare_atmosphere_textures(
            old(texture_cache)@,
            device.limits,
            *settings,
        ),
        !settings.spec_is_valid(device.limits) ==> result == Err::<
            AtmosphereTextures,
            AllocationError,
        >(AllocationError::InvalidSize),
        settings.spec_is_valid(device.limits) && old(texture_cache)@.next_id + 4 <= u64::MAX
            ==> result is Ok,
        result is Ok ==> result->Ok_0.matches(*settings),
        result is Ok && old(texture_cache)@.wf() ==> result->Ok_0.distinct(),
        old(texture_cache)@.wf() ==> final(texture_cache)@.wf(),
{
    if !settings.is_valid(&device.limits) {
        return Err(AllocationError::InvalidSize);
    }
    let ghost pool_0 = texture_cache@;
    let transmittance_lut = match texture_cache.acquire(
        device,
        lut_descriptor(settings, Lut::Transmittance),
    ) {
        Ok(texture) => texture,
        Err(error) => {
            return Err(error);
        },
    };
    let ghost pool_1 = texture_cache@;
    let multiscattering_lut = match texture_cache.acquire(
        device,
        lut_descriptor(settings, Lut::Multiscattering),
    ) {
        Ok(texture) => texture,
        Err(error) => {
            return Err(error);
        },
    };
    let ghost pool_2 = texture_cache@;
    let sky_view_lut = match texture_cache.acquire(device, lut_descriptor(settings, Lut::SkyView)) {
        Ok(texture) => texture,
        Err(error) => {
            return Err(error);
        },
    };
    let ghost pool_3 = texture_cache@;
    let aerial_view_lut = match texture_cache.acquire(
        device,
        lut_descriptor(settings, Lut::AerialView),
    ) {
        Ok(texture) => texture,
        Err(error) => {
            return Err(error);
        },
    };
    let textures = AtmosphereTextures {
        transmittance_lut,
        multiscattering_lut,
        sky_view_lut,
        aerial_view_lut,
    };
    proof {
        if pool_0.wf() {
            lemma_acquire_keeps_wf(pool_0, device.limits, transmittance_lut.descriptor);
            lemma_acquire_keeps_wf(pool_1, device.limits, multiscattering_lut.descriptor);
            lemma_acquire_keeps_wf(pool_2, device.limits, sky_view_lut.descriptor);
            lemma_acquire_leases_exclusively(pool_0, device.limits, transmittance_lut.descriptor);
            lemma_acquire_leases_exclusively(pool_1, device.limits, multiscattering_lut.descriptor);
            lemma_acquire_leases_exclusively(pool_2, device.limits, sky_view_lut.descriptor);
            lemma_acquire_leases_exclusively(pool_3, device.limits, aerial_view_lut.descriptor);
            assert(pool_1.is_leased(transmittance_lut.texture));
            assert(pool_2.is_leased(transmittance_lut.texture));
            assert(pool_3.is_leased(transmittance_lut.texture));
            assert(pool_2.is_leased(multiscattering_lut.texture));
            assert(pool_3.is_leased(multiscattering_lut.texture));
            assert(pool_3.is_leased(sky_view_lut.texture));
        }
    }
    Ok(textures)
}

/// Identity of a uniform buffer.
#[derive(Clone, Copy, Debug, PartialEq, Eq, Hash, Structural)]
pub struct BufferId(pub u64);

/// What is bound to one slot.
#[derive(Clone, Copy, Debug, PartialEq, Eq, Hash, Structural)]
pub enum BindingResource {
    /// A uniform buffer, read at the offset that the pass gives.
    Buffer(BufferId),
    /// The whole of a texture.
    TextureView(CachedTexture),
    Sampler(Sampler),
}

/// The resources of one pass of one view in one frame, slot by slot.
#[derive(Clone, Debug, PartialEq, Eq)]
pub struct BindGroup {
    pub layout: LayoutId,
    pub entries: Vec<BindingResource>,
}

/// The uniform buffers that hold, for every view, the atmosphere, the
/// settings, the camera and the lights. A buffer that has not been written
/// this frame is `None`.
#[derive(Clone, Copy, Debug, PartialEq, Eq, Hash, Structural)]
pub struct UniformBindings {
    pub atmosphere: Option<BufferId>,
    pub settings: Option<BufferId>,
    pub view: Option<BufferId>,
    pub lights: Option<BufferId>,
}

impl UniformBindings {
    /// Every buffer has been written.
    pub open spec fn spec_is_complete(self) -> bool {
        self.atmosphere is Some && self.settings is Some && self.view is Some && self.lights is Some
    }

    pub fn is_complete(&self) -> (complete: bool)
        ensures
            complete == self.spec_is_complete(),
    {
        self.atmosphere.is_some() && self.settings.is_some() && self.view.is_some()
            && self.lights.is_some()
    }
}

/// Whether `resource` may be bound to a slot of type `ty`: a buffer to a
/// uniform slot; a texture to a slot of its dimension, sampled or written
/// as its usages allow, and written only in the slot's format; a sampler
/// to a sampler slot, one that interpolates only to a filtering slot.
pub open spec fn resource_fits(resource: BindingResource, ty: BindingType) -> bool {
    match (resource, ty) {
        (BindingResource::Buffer(_), BindingType::UniformBuffer { .. }) => true,
        (BindingResource::TextureView(texture), BindingType::Texture2d { .. }) => {
            texture.descriptor.dimension == TextureDimension::D2
                && texture.descriptor.usage.texture_binding
        },
        (BindingResource::TextureView(texture), BindingType::TextureDepth2d) => {
            texture.descriptor.dimension == TextureDimension::D2
                && texture.descriptor.usage.texture_binding
        },
        (BindingResource::TextureView(texture), BindingType::Texture3d { .. }) => {
            texture.descriptor.dimension == TextureDimension::D3
                && texture.descriptor.usage.texture_binding
        },
        (BindingResource::TextureView(texture), BindingType::StorageTexture2d { format, .. }) => {
            texture.descriptor.dimension == TextureDimension::D2
                && texture.descriptor.usage.storage_binding && texture.descriptor.format == format
        },
        (BindingResource::TextureView(texture), BindingType::StorageTexture3d { format, .. }) => {
            texture.descriptor.dimension == TextureDimension::D3
                && texture.descriptor.usage.storage_binding && texture.descriptor.format == format
        },
        (BindingResource::Sampler(sampler), BindingType::Sampler(kind)) => {
            kind == SamplerBindingType::Filtering || (sampler.descriptor.mag_filter
                == FilterMode::Nearest && sampler.descriptor.min_filter == FilterMode::Nearest
                && sampler.descriptor.mipmap_filter == FilterMode::Nearest)
        },
        _ => false,
    }
}

/// Whether `entries` fill the slots `types`: one resource for each slot,
/// each of the slot's type.
pub open spec fn conforms(entries: Seq<BindingResource>, types: Seq<BindingType>) -> bool {
    &&& entries.len() == types.len()
    &&& forall|i: int| 0 <= i < entries.len() ==> resource_fits(#[trigger] entries[i], types[i])
}

/// The resources of the transmittance pass.
pub open spec fn transmittance_lut_entries(uniforms: UniformBindings) -> Seq<BindingResource> {
    seq![
        BindingResource::Buffer(uniforms.atmosphere->Some_0),
        BindingResource::Buffer(uniforms.settings->Some_0),
    ]
}

/// The resources of the multiscattering pass: it reads the transmittance
/// table and writes the multiscattering table.
pub open spec fn multiscattering_lut_entries(
    textures: AtmosphereTextures,
    samplers: AtmosphereSamplers,
    uniforms: UniformBindings,
) -> Seq<BindingResource> {
    seq![
        BindingResource::Buffer(uniforms.atmosphere->Some_0),
        BindingResource::Buffer(uniforms.settings->Some_0),
        BindingResource::TextureView(textures.transmittance_lut),
        BindingResource::Sampler(samplers.transmittance_lut),
        BindingResource::TextureView(textures.multiscattering_lut),
    ]
}

/// The resources of the sky-view pass: it reads the transmittance and the
/// multiscattering table.
pub open spec fn sky_view_lut_entries(
    textures: AtmosphereTextures,
    samplers: AtmosphereSamplers,
    uniforms: UniformBindings,
) -> Seq<BindingResource> {
    seq![
        BindingResource::Buffer(uniforms.atmosphere->Some_0),
        BindingResource::Buffer(uniforms.settings->Some_0),
        BindingResource::Buffer(uniforms.view->Some_0),
        BindingResource::Buffer(uniforms.lights->Some_0),
        BindingResource::TextureView(textures.transmittance_lut),
        BindingResource::Sampler(samplers.transmittance_lut),
        BindingResource::TextureView(textures.multiscattering_lut),
        BindingResource::Sampler(samplers.multiscattering_lut),
    ]
}

/// The resources of the aerial-view pass: those of the sky-view pass, and
/// the volume it writes.
pub open spec fn aerial_view_lut_entries(
    textures: AtmosphereTextures,
    samplers: AtmosphereSamplers,
    uniforms: UniformBindings,
) -> Seq<BindingResource> {
    sky_view_lut_entries(textures, samplers, uniforms).push(
        BindingResource::TextureView(textures.aerial_view_lut),
    )
}

/// The resources of the compositing pass: it reads all four tables.
pub open spec fn render_sky_entries(
    textures: AtmosphereTextures,
    samplers: AtmosphereSamplers,
    uniforms: UniformBindings,
) -> Seq<BindingResource> {
    seq![
        BindingResource::Buffer(uniforms.atmosphere->Some_0),
        BindingResource::Buffer(uniforms.settings->Some_0),
        BindingResource::Buffer(uniforms.view->Some_0),
        BindingResource::Buffer(uniforms.lights->Some_0),
        BindingResource::TextureView(textures.transmittance_lut),
        BindingResource::Sampler(samplers.transmittance_lut),
        BindingResource::TextureView(textures.multiscattering_lut),
        BindingResource::Sampler(samplers.multiscattering_lut),
        BindingResource::TextureView(textures.sky_view_lut),
        BindingResource::Sampler(samplers.sky_view_lut),
        BindingResource::TextureView(textures.aerial_view_lut),
        BindingResource::Sampler(samplers.aerial_view_lut),
    ]
}

/// The binding sets of the five passes of one view, built anew each frame.
#[derive(Clone, Debug, PartialEq, Eq)]
pub struct AtmosphereBindGroups {
    pub transmittance_lut: BindGroup,
    pub multiscattering_lut: BindGroup,
    pub sky_view_lut: BindGroup,
    pub aerial_view_lut: BindGroup,
    pub render_sky: BindGroup,
}

impl AtmosphereBindGroups {
    /// The five sets bind these textures, samplers and buffers as their
    /// passes declare.
    pub open spec fn binds(
        self,
        textures: AtmosphereTextures,
        samplers: AtmosphereSamplers,
        uniforms: UniformBindings,
    ) -> bool {
        &&& self.transmittance_lut.layout == LayoutId::TransmittanceLut
        &&& self.transmittance_lut.entries@ == transmittance_lut_entries(uniforms)
        &&& self.multiscattering_lut.layout == LayoutId::MultiscatteringLut
        &&& self.multiscattering_lut.entries@ == multiscattering_lut_entries(
            textures,
            samplers,
            uniforms,
        )
        &&& self.sky_view_lut.layout == LayoutId::SkyViewLut
        &&& self.sky_view_lut.entries@ == sky_view_lut_entries(textures, samplers, uniforms)
        &&& self.aerial_view_lut.layout == LayoutId::AerialViewLut
        &&& self.aerial_view_lut.entries@ == aerial_view_lut_entries(textures, samplers, uniforms)
        &&& self.render_sky.layout == LayoutId::RenderSky
        &&& self.render_sky.entries@ == render_sky_entries(textures, samplers, uniforms)
    }

    /// Each of the five sets fills the slots of the layout of its pass.
    pub open spec fn conform(self) -> bool {
        &&& conforms(self.transmittance_lut.entries@, transmittance_lut_bindings())
        &&& conforms(self.multiscattering_lut.entries@, multiscattering_lut_bindings())
        &&& conforms(self.sky_view_lut.entries@, sky_view_lut_bindings())
        &&& conforms(self.aerial_view_lut.entries@, aerial_view_lut_bindings())
        &&& conforms(self.render_sky.entries@, render_sky_bindings())
    }
}

/// Builds the binding sets of the five passes of one view for the frame.
///
/// All four uniform buffers must have been written: a frame that reaches
/// this point without one of them was set up wrongly.
pub fn prepare_atmosphere_bind_groups(
    textures: &AtmosphereTextures,
    samplers: &AtmosphereSamplers,
    uniforms: &UniformBindings,
) -> (groups: AtmosphereBindGroups)
    requires
        uniforms.spec_is_complete(),
    ensures
        groups.binds(*textures, *samplers, *uniforms),
        (exists|settings: AtmosphereSettings| textures.matches(settings)) ==> groups.conform(),
{
    let atmosphere = BindingResource::Buffer(uniforms.atmosphere.unwrap());
    let settings = BindingResource::Buffer(uniforms.settings.unwrap());
    let view = BindingResource::Buffer(uniforms.view.unwrap());
    let lights = BindingResource::Buffer(uniforms.lights.unwrap());
    let transmittance = BindingResource::TextureView(textures.transmittance_lut);
    let transmittance_sampler = BindingResource::Sampler(samplers.transmittance_lut);
    let multiscattering = BindingResource::TextureView(textures.multiscattering_lut);
    let multiscattering_sampler = BindingResource::Sampler(samplers.multiscattering_lut);
    let sky_view = BindingResource::TextureView(textures.sky_view_lut);
    let sky_view_sampler = BindingResource::Sampler(samplers.sky_view_lut);
    let aerial_view = BindingResource::TextureView(textures.aerial_view_lut);
    let aerial_view_sampler = BindingResource::Sampler(samplers.aerial_view_lut);

    let transmittance_lut = BindGroup {
        layout: LayoutId::TransmittanceLut,
        entries: vec![atmosphere, settings],
    };
    let multiscattering_lut = BindGroup {
        layout: LayoutId::MultiscatteringLut,
        entries: vec![atmosphere, settings, transmittance, transmittance_sampler, multiscattering],
    };
    let sky_view_lut = BindGroup {
        layout: LayoutId::SkyViewLut,
        entries: vec![
            atmosphere,
            settings,
            view,
            lights,
            transmittance,
            transmittance_sampler,
            multiscattering,
            multiscattering_sampler,
        ],
    };
    let aerial_view_lut = BindGroup {
        layout: LayoutId::AerialViewLut,
        entries: vec![
            atmosphere,
            settings,
            view,
            lights,
            transmittance,
            transmittance_sampler,
            multiscattering,
            multiscattering_sampler,
            aerial_view,
        ],
    };
    let render_sky = BindGroup {
        layout: LayoutId::RenderSky,
        entries: vec![
            atmosphere,
            settings,
            view,
            lights,
            transmittance,
            transmittance_sampler,
            multiscattering,
            multiscattering_sampler,
            sky_view,
            sky_view_sampler,
            aerial_view,
            aerial_view_sampler,
        ],
    };
    assert(aerial_view_lut.entries@ =~= aerial_view_lut_entries(*textures, *samplers, *uniforms));
    let groups = AtmosphereBindGroups {
        transmittance_lut,
        multiscattering_lut,
        sky_view_lut,
        aerial_view_lut,
        render_sky,
    };
    proof {
        if exists|settings: AtmosphereSettings| textures.matches(settings) {
            let settings = choose|settings: AtmosphereSettings| textures.matches(settings);
            lemma_bind_groups_conform(groups, *textures, *samplers, *uniforms, settings);
        }
    }
    groups
}

/// Binding sets built from the textures that the settings of a view
/// describe fill the slots of the layouts of their passes.
pub proof fn lemma_bind_groups_conform(
    groups: AtmosphereBindGroups,
    textures: AtmosphereTextures,
    samplers: AtmosphereSamplers,
    uniforms: UniformBindings,
    settings: AtmosphereSettings,
)
    requires
        groups.binds(textures, samplers, uniforms),
        textures.matches(settings),
    ensures
        groups.conform(),
{
    assert(conforms(groups.transmittance_lut.entries@, transmittance_lut_bindings()));
    assert(conforms(groups.multiscattering_lut.entries@, multiscattering_lut_bindings()));
    assert(conforms(groups.sky_view_lut.entries@, sky_view_lut_bindings()));
    assert(conforms(groups.aerial_view_lut.entries@, aerial_view_lut_bindings()));
    assert(conforms(groups.render_sky.entries@, render_sky_bindings()));
}

/// The requests for the textures of the four tables of a view, in the
/// order of their passes.
pub open spec fn lut_requests(settings: AtmosphereSettings) -> Seq<TextureDescriptor> {
    seq![
        spec_lut_descriptor(settings, Lut::Transmittance),
        spec_lut_descriptor(settings, Lut::Multiscattering),
        spec_lut_descriptor(settings, Lut::SkyView),
        spec_lut_descriptor(settings, Lut::AerialView),
    ]
}

/// Preparing the textures of a view is making the four requests one
/// after another.
pub proof fn lemma_prepare_is_four_requests(
    pool: Pool,
    limits: Limits,
    settings: AtmosphereSettings,
)
    requires
        spec_prepare_atmosphere_textures(pool, limits, settings).1 is Ok,
    ensures
        ({
            let (after, textures) = spec_prepare_atmosphere_textures(pool, limits, settings);
            let (end, answers) = acquire_all(pool, limits, lut_requests(settings));
            &&& after == end
            &&& answers == seq![
                Ok::<CachedTexture, AllocationError>(textures->Ok_0.transmittance_lut),
                Ok::<CachedTexture, AllocationError>(textures->Ok_0.multiscattering_lut),
                Ok::<CachedTexture, AllocationError>(textures->Ok_0.sky_view_lut),
                Ok::<CachedTexture, AllocationError>(textures->Ok_0.aerial_view_lut),
            ]
            &&& all_granted(answers)
        }),
{
    lemma_four_requests(
        pool,
        limits,
        spec_lut_descriptor(settings, Lut::Transmittance),
        spec_lut_descriptor(settings, Lut::Multiscattering),
        spec_lut_descriptor(settings, Lut::SkyView),
        spec_lut_descriptor(settings, Lut::AerialView),
    );
}

/// Round trip of the textures of a view: a view that was granted its
/// textures in a frame that began with no texture on lease, and that asks
/// again with the same settings after the frame has ended, gets the same
/// four textures, as long as no more frames have ended than evict a
/// texture. Nothing is allocated the second time.
pub proof fn lemma_view_textures_return(
    start: Pool,
    limits: Limits,
    settings: AtmosphereSettings,
    frames: nat,
)
    requires
        start.wf(),
        all_idle(start),
        spec_prepare_atmosphere_textures(start, limits, settings).1 is Ok,
        1 <= frames <= start.eviction_frames,
    ensures
        ({
            let (end, first) = spec_prepare_atmosphere_textures(start, limits, settings);
            let (again, second) = spec_prepare_atmosphere_textures(
                end.end_frames(frames),
                limits,
                settings,
            );
            &&& second == first
            &&& again.next_id == end.next_id
        }),
{
    let (end, first) = spec_prepare_atmosphere_textures(start, limits, settings);
    lemma_prepare_is_four_requests(start, limits, settings);
    lemma_frame_replay_returns_same(start, limits, lut_requests(settings), frames);
    let later = end.end_frames(frames);
    lemma_four_requests(
        later,
        limits,
        spec_lut_descriptor(settings, Lut::Transmittance),
        spec_lut_descriptor(settings, Lut::Multiscattering),
        spec_lut_descriptor(settings, Lut::SkyView),
        spec_lut_descriptor(settings, Lut::AerialView),
    );
    let answers = acquire_all(later, limits, lut_requests(settings)).1;
    assert(answers[0] == Ok::<CachedTexture, AllocationError>(first->Ok_0.transmittance_lut));
    assert(answers[1] == Ok::<CachedTexture, AllocationError>(first->Ok_0.multiscattering_lut));
    assert(answers[2] == Ok::<CachedTexture, AllocationError>(first->Ok_0.sky_view_lut));
    assert(answers[3] == Ok::<CachedTexture, AllocationError>(first->Ok_0.aerial_view_lut));
}

/// Round trip of the textures of a view among other requests: in a frame
/// that began with no texture on lease, the requests `before` were granted,
/// then the view its four textures, then the requests `after`. If, after
/// the frame has ended and before the textures are evicted, the requests
/// `before` are made again and then the view asks with the same settings,
/// it gets the same four textures.
pub proof fn lemma_view_textures_return_among_others(
    start: Pool,
    limits: Limits,
    before: Seq<TextureDescriptor>,
    settings: AtmosphereSettings,
    after: Seq<TextureDescriptor>,
    frames: nat,
)
    requires
        start.wf(),
        all_idle(start),
        1 <= frames <= start.eviction_frames,
        all_granted(acquire_all(start, limits, before).1),
        spec_prepare_atmosphere_textures(
            acquire_all(start, limits, before).0,
            limits,
            settings,
        ).1 is Ok,
        all_granted(
            acquire_all(
                spec_prepare_atmosphere_textures(
                    acquire_all(start, limits, before).0,
                    limits,
                    settings,
                ).0,
                limits,
                after,
            ).1,
        ),
    ensures
        ({
            let (held, first) = spec_prepare_atmosphere_textures(
                acquire_all(start, limits, before).0,
                limits,
                settings,
            );
            let end = acquire_all(held, limits, after).0;
            let again = acquire_all(end.end_frames(frames), limits, before).0;
            let (held_again, second) = spec_prepare_atmosphere_textures(again, limits, settings);
            &&& second == first
            &&& held_again.next_id == again.next_id
        }),
{
    let four = lut_requests(settings);
    let (mid, before_answers) = acquire_all(start, limits, before);
    let (held, first) = spec_prepare_atmosphere_textures(mid, limits, settings);
    let (end, after_answers) = acquire_all(held, limits, after);
    lemma_prepare_is_four_requests(mid, limits, settings);
    let four_answers = acquire_all(mid, limits, four).1;
    let requests = before + (four + after);
    lemma_acquire_all_concat(mid, limits, four, after);
    lemma_acquire_all_concat(start, limits, before, four + after);
    let answers = acquire_all(start, limits, requests).1;
    assert(answers == before_answers + (four_answers + after_answers));
    lemma_answers_len(start, limits, before);
    lemma_answers_len(mid, limits, four);
    lemma_answers_len(held, limits, after);
    assert forall|i: int| 0 <= i < answers.len() implies (#[trigger] answers[i]) is Ok by {
        if i < before.len() {
            assert(answers[i] == before_answers[i]);
        } else if i < before.len() + 4 {
            assert(answers[i] == four_answers[i - before.len()]);
        } else {
            assert(answers[i] == after_answers[i - before.len() - 4]);
        }
    }
    lemma_frame_replay_returns_same(start, limits, requests, frames);
    let later = end.end_frames(frames);
    let (again, before_again) = acquire_all(later, limits, before);
    let (held_again, four_again) = acquire_all(again, limits, four);
    let after_again = acquire_all(held_again, limits, after).1;
    lemma_acquire_all_concat(again, limits, four, after);
    lemma_acquire_all_concat(later, limits, before, four + after);
    lemma_answers_len(later, limits, before);
    lemma_answers_len(again, limits, four);
    let replayed = acquire_all(later, limits, requests).1;
    assert(replayed == before_again + (four_again + after_again));
    assert forall|k: int| 0 <= k < 4 implies four_again[k] == four_answers[k] by {
        assert(replayed[before.len() + k] == four_again[k]);
        assert(answers[before.len() + k] == four_answers[k]);
    }
    lemma_four_requests(
        again,
        limits,
        spec_lut_descriptor(settings, Lut::Transmittance),
        spec_lut_descriptor(settings, Lut::Multiscattering),
        spec_lut_descriptor(settings, Lut::SkyView),
        spec_lut_descriptor(settings, Lut::AerialView),
    );
    assert(four_again[0] == Ok::<CachedTexture, AllocationError>(first->Ok_0.transmittance_lut));
    assert(four_again[1] == Ok::<CachedTexture, AllocationError>(first->Ok_0.multiscattering_lut));
    assert(four_again[2] == Ok::<CachedTexture, AllocationError>(first->Ok_0.sky_view_lut));
    assert(four_again[3] == Ok::<CachedTexture, AllocationError>(first->Ok_0.aerial_view_lut));
    lemma_end_frames_keep_next_id(end, frames);
    lemma_requests_keep_identities(later, limits, before);
    lemma_requests_keep_identities(again, limits, four);
    lemma_requests_keep_identities(held_again, limits, after);
}

/// Ending frames takes no identity and gives none back.
proof fn lemma_end_frames_keep_next_id(pool: Pool, frames: nat)
    ensures
        pool.end_frames(frames).next_id == pool.next_id,
    decreases frames,
{
    if frames > 0 {
        lemma_end_frames_keep_next_id(pool.end_frame(), (frames - 1) as nat);
    }
}

} // verus!
