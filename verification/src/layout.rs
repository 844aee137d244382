//! Binding layouts: for each pass, the kinds of resource it consumes and
//! produces, slot by slot.

use vstd::prelude::*;
use crate::texture::{RenderAdapter, TextureFormat, TextureUsages};

verus! {

/// The shader stage that sees a binding.
#[derive(Clone, Copy, Debug, PartialEq, Eq, Hash, Structural)]
pub enum ShaderStages {
    Fragment,
    Compute,
}

/// What a uniform buffer holds.
#[derive(Clone, Copy, Debug, PartialEq, Eq, Hash, Structural)]
pub enum UniformKind {
    /// The physical constants of the atmosphere.
    Atmosphere,
    /// The sizes and sample counts of the lookup tables.
    AtmosphereSettings,
    /// The camera of the view.
    View,
    /// The lights that reach the view.
    Lights,
}

#[derive(Clone, Copy, Debug, PartialEq, Eq, Hash, Structural)]
pub enum SamplerBindingType {
    Filtering,
    NonFiltering,
}

#[derive(Clone, Copy, Debug, PartialEq, Eq, Hash, Structural)]
pub enum StorageTextureAccess {
    WriteOnly,
}

/// The kind of resource bound to one slot.
#[derive(Clone, Copy, Debug, PartialEq, Eq, Hash, Structural)]
pub enum BindingType {
    /// A range of a uniform buffer, at an offset given with each pass if
    /// `has_dynamic_offset`.
    UniformBuffer { content: UniformKind, has_dynamic_offset: bool },
    /// A sampled two-dimensional float texture.
    Texture2d { filterable: bool },
    /// A sampled three-dimensional float texture.
    Texture3d { filterable: bool },
    /// A sampled two-dimensional depth texture.
    TextureDepth2d,
    Sampler(SamplerBindingType),
    /// A two-dimensional texture written by the shader.
    StorageTexture2d { format: TextureFormat, access: StorageTextureAccess },
    /// A three-dimensional texture written by the shader.
    StorageTexture3d { format: TextureFormat, access: StorageTextureAccess },
}

/// One slot of a layout.
#[derive(Clone, Copy, Debug, PartialEq, Eq, Hash, Structural)]
pub struct BindGroupLayoutEntry {
    pub binding: u32,
    pub visibility: ShaderStages,
    pub ty: BindingType,
}

/// Which layout it is.
#[derive(Clone, Copy, Debug, PartialEq, Eq, Hash, Structural)]
pub enum LayoutId {
    TransmittanceLut,
    MultiscatteringLut,
    SkyViewLut,
    AerialViewLut,
    RenderSky,
    Taa,
}

/// The slots of one pass.
#[derive(Clone, Debug, PartialEq, Eq)]
pub struct BindGroupLayout {
    pub id: LayoutId,
    pub entries: Vec<BindGroupLayoutEntry>,
}

/// A uniform buffer of `content`, bound at a dynamic offset.
pub open spec fn uniform_buffer(content: UniformKind) -> BindingType {
    BindingType::UniformBuffer { content, has_dynamic_offset: true }
}

/// A filterable sampled two-dimensional float texture.
pub open spec fn texture_2d() -> BindingType {
    BindingType::Texture2d { filterable: true }
}

/// A filterable sampled three-dimensional float texture.
pub open spec fn texture_3d() -> BindingType {
    BindingType::Texture3d { filterable: true }
}

/// A filtering sampler.
pub open spec fn sampler() -> BindingType {
    BindingType::Sampler(SamplerBindingType::Filtering)
}

/// The slots of `types` in their order, numbered from zero, all seen by
/// the stage `visibility`.
pub open spec fn spec_sequential(visibility: ShaderStages, types: Seq<BindingType>) -> Seq<
    BindGroupLayoutEntry,
> {
    Seq::new(
        types.len(),
        |i: int| BindGroupLayoutEntry { binding: i as u32, visibility, ty: types[i] },
    )
}

/// What the transmittance pass binds: the two uniform ranges.
pub open spec fn transmittance_lut_bindings() -> Seq<BindingType> {
    seq![uniform_buffer(UniformKind::Atmosphere), uniform_buffer(UniformKind::AtmosphereSettings)]
}

/// What the multiscattering pass binds: the two uniform ranges, the
/// transmittance table with its sampler, and the table it writes.
pub open spec fn multiscattering_lut_bindings() -> Seq<BindingType> {
    seq![
        uniform_buffer(UniformKind::Atmosphere),
        uniform_buffer(UniformKind::AtmosphereSettings),
        texture_2d(),
        sampler(),
        BindingType::StorageTexture2d {
            format: TextureFormat::Rgba16Float,
            access: StorageTextureAccess::WriteOnly,
        },
    ]
}

/// What the sky-view pass binds: the two uniform ranges, the view and
/// light uniforms, and the transmittance and multiscattering tables, each
/// with its sampler.
pub open spec fn sky_view_lut_bindings() -> Seq<BindingType> {
    seq![
        uniform_buffer(UniformKind::Atmosphere),
        uniform_buffer(UniformKind::AtmosphereSettings),
        uniform_buffer(UniformKind::View),
        uniform_buffer(UniformKind::Lights),
        texture_2d(),
        sampler(),
        texture_2d(),
        sampler(),
    ]
}

/// What the aerial-view pass binds: what the sky-view pass binds, and the
/// volume it writes.
pub open spec fn aerial_view_lut_bindings() -> Seq<BindingType> {
    sky_view_lut_bindings().push(
        BindingType::StorageTexture3d {
            format: TextureFormat::Rgba16Float,
            access: StorageTextureAccess::WriteOnly,
        },
    )
}

/// What the compositing pass binds: the four uniform ranges and the four
/// tables, each with its sampler.
pub open spec fn render_sky_bindings() -> Seq<BindingType> {
    seq![
        uniform_buffer(UniformKind::Atmosphere),
        uniform_buffer(UniformKind::AtmosphereSettings),
        uniform_buffer(UniformKind::View),
        uniform_buffer(UniformKind::Lights),
        texture_2d(),
        sampler(),
        texture_2d(),
        sampler(),
        texture_2d(),
        sampler(),
        texture_3d(),
        sampler(),
    ]
}

/// The format that the compute passes write their tables in.
pub const LUT_FORMAT: TextureFormat = TextureFormat::Rgba16Float;

/// Whether the adapter can run the passes: whether a texture of the
/// tables' format may be written as a storage texture.
pub open spec fn supports_atmosphere(adapter: RenderAdapter) -> bool {
    adapter.spec_texture_format_features(LUT_FORMAT).allowed_usages.spec_contains(
        TextureUsages::spec_storage_binding(),
    )
}

/// The slots of `types` in their order, numbered from zero.
pub fn sequential(visibility: ShaderStages, types: Vec<BindingType>) -> (entries: Vec<
    BindGroupLayoutEntry,
>)
    requires
        types.len() <= u32::MAX,
    ensures
        entries@ == spec_sequential(visibility, types@),
{
    let mut entries: Vec<BindGroupLayoutEntry> = Vec::new();
    let n: usize = types.len();
    let mut i: usize = 0;
    while i < n
        invariant
            i <= n,
            n == types.len(),
            n <= u32::MAX,
            entries@ == spec_sequential(visibility, types@.subrange(0, i as int)),
        decreases n - i,
    {
        entries.push(BindGroupLayoutEntry { binding: i as u32, visibility, ty: types[i] });
        assert(entries@ =~= spec_sequential(visibility, types@.subrange(0, i + 1)));
        i += 1;
    }
    assert(types@.subrange(0, n as int) =~= types@);
    entries
}

/// The layouts of the four lookup-table passes.
#[derive(Clone, Debug, PartialEq, Eq)]
pub struct AtmosphereBindGroupLayouts {
    pub transmittance_lut: BindGroupLayout,
    pub multiscattering_lut: BindGroupLayout,
    pub sky_view_lut: BindGroupLayout,
    pub aerial_view_lut: BindGroupLayout,
}

impl AtmosphereBindGroupLayouts {
    /// The four layouts are the fixed ones.
    pub open spec fn wf(self) -> bool {
        &&& self.transmittance_lut.id == LayoutId::TransmittanceLut
        &&& self.transmittance_lut.entries@ == spec_sequential(
            ShaderStages::Fragment,
            transmittance_lut_bindings(),
        )
        &&& self.multiscattering_lut.id == LayoutId::MultiscatteringLut
        &&& self.multiscattering_lut.entries@ == spec_sequential(
            ShaderStages::Compute,
            multiscattering_lut_bindings(),
        )
        &&& self.sky_view_lut.id == LayoutId::SkyViewLut
        &&& self.sky_view_lut.entries@ == spec_sequential(
            ShaderStages::Fragment,
            sky_view_lut_bindings(),
        )
        &&& self.aerial_view_lut.id == LayoutId::AerialViewLut
        &&& self.aerial_view_lut.entries@ == spec_sequential(
            ShaderStages::Compute,
            aerial_view_lut_bindings(),
        )
    }

    /// Builds the four layouts if the adapter can run the passes.
    pub fn from_adapter(adapter: &RenderAdapter) -> (layouts: Option<Self>)
        ensures
            layouts is Some <==> supports_atmosphere(*adapter),
            layouts is Some ==> layouts->Some_0.wf(),
    {
        if !adapter.get_texture_format_features(LUT_FORMAT).allowed_usages.contains(
            TextureUsages::storage_binding(),
        ) {
            return None;
        }
        let uniform_atmosphere = BindingType::UniformBuffer {
            content: UniformKind::Atmosphere,
            has_dynamic_offset: true,
        };
        let uniform_settings = BindingType::UniformBuffer {
            content: UniformKind::AtmosphereSettings,
            has_dynamic_offset: true,
        };
        let uniform_view = BindingType::UniformBuffer {
            content: UniformKind::View,
            has_dynamic_offset: true,
        };
        let uniform_lights = BindingType::UniformBuffer {
            content: UniformKind::Lights,
            has_dynamic_offset: true,
        };
        let texture = BindingType::Texture2d { filterable: true };
        let filtering = BindingType::Sampler(SamplerBindingType::Filtering);

        let transmittance_lut = BindGroupLayout {
            id: LayoutId::TransmittanceLut,
            entries: sequential(ShaderStages::Fragment, vec![uniform_atmosphere, uniform_settings]),
        };
        let multiscattering_lut = BindGroupLayout {
            id: LayoutId::MultiscatteringLut,
            entries: sequential(
                ShaderStages::Compute,
                vec![
                    uniform_atmosphere,
                    uniform_settings,
                    texture,
                    filtering,
                    BindingType::StorageTexture2d {
                        format: LUT_FORMAT,
                        access: StorageTextureAccess::WriteOnly,
                    },
                ],
            ),
        };
        let sky_view_lut = BindGroupLayout {
            id: LayoutId::SkyViewLut,
            entries: sequential(
                ShaderStages::Fragment,
                vec![
                    uniform_atmosphere,
                    uniform_settings,
                    uniform_view,
                    uniform_lights,
                    texture,
                    filtering,
                    texture,
                    filtering,
                ],
            ),
        };
        let aerial_view_types = vec![
            uniform_atmosphere,
            uniform_settings,
            uniform_view,
            uniform_lights,
            texture,
            filtering,
            texture,
            filtering,
            BindingType::StorageTexture3d {
                format: LUT_FORMAT,
                access: StorageTextureAccess::WriteOnly,
            },
        ];
        assert(aerial_view_types@ =~= aerial_view_lut_bindings());
        let aerial_view_lut = BindGroupLayout {
            id: LayoutId::AerialViewLut,
            entries: sequential(ShaderStages::Compute, aerial_view_types),
        };
        Some(
            AtmosphereBindGroupLayouts {
                transmittance_lut,
                multiscattering_lut,
                sky_view_lut,
                aerial_view_lut,
            },
        )
    }
}

/// The layout of the compositing pass.
#[derive(Clone, Debug, PartialEq, Eq)]
pub struct RenderSkyBindGroupLayout {
    pub render_sky: BindGroupLayout,
}

impl RenderSkyBindGroupLayout {
    pub open spec fn wf(self) -> bool {
        &&& self.render_sky.id == LayoutId::RenderSky
        &&& self.render_sky.entries@ == spec_sequential(
            ShaderStages::Fragment,
            render_sky_bindings(),
        )
    }

    pub fn new() -> (layout: Self)
        ensures
            layout.wf(),
    {
        let uniform_atmosphere = BindingType::UniformBuffer {
            content: UniformKind::Atmosphere,
            has_dynamic_offset: true,
        };
        let uniform_settings = BindingType::UniformBuffer {
            content: UniformKind::AtmosphereSettings,
            has_dynamic_offset: true,
        };
        let uniform_view = BindingType::UniformBuffer {
            content: UniformKind::View,
            has_dynamic_offset: true,
        };
        let uniform_lights = BindingType::UniformBuffer {
            content: UniformKind::Lights,
            has_dynamic_offset: true,
        };
        let texture = BindingType::Texture2d { filterable: true };
        let volume = BindingType::Texture3d { filterable: true };
        let filtering = BindingType::Sampler(SamplerBindingType::Filtering);
        RenderSkyBindGroupLayout {
            render_sky: BindGroupLayout {
                id: LayoutId::RenderSky,
                entries: sequential(
                    ShaderStages::Fragment,
                    vec![
                        uniform_atmosphere,
                        uniform_settings,
                        uniform_view,
                        uniform_lights,
                        texture,
                        filtering,
                        texture,
                        filtering,
                        texture,
                        filtering,
                        volume,
                        filtering,
                    ],
                ),
            },
        }
    }
}

} // verus!
