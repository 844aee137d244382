//! Texture descriptors and the device limits they are held against.

use vstd::prelude::*;

verus! {

/// Texel formats the passes render to.
#[derive(Clone, Copy, Debug, PartialEq, Eq, Hash, Structural)]
pub enum TextureFormat {
    /// Four 16-bit float channels: the lookup tables and HDR view targets.
    Rgba16Float,
    /// Four 8-bit sRGB channels: view targets without HDR.
    Rgba8UnormSrgb,
}

/// Format of an HDR view target.
pub const TEXTURE_FORMAT_HDR: TextureFormat = TextureFormat::Rgba16Float;

/// The format of a view target that is HDR or not.
pub open spec fn view_target_format(hdr: bool) -> TextureFormat {
    if hdr {
        TEXTURE_FORMAT_HDR
    } else {
        TextureFormat::Rgba8UnormSrgb
    }
}

impl TextureFormat {
    /// Format of a view target without HDR.
    pub fn bevy_default() -> (format: Self)
        ensures
            format == TextureFormat::Rgba8UnormSrgb,
    {
        TextureFormat::Rgba8UnormSrgb
    }
}

#[derive(Clone, Copy, Debug, PartialEq, Eq, Hash, Structural)]
pub enum TextureDimension {
    D2,
    D3,
}

/// The set of ways a texture may be used.
#[derive(Clone, Copy, Debug, PartialEq, Eq, Hash, Structural)]
pub struct TextureUsages {
    pub copy_src: bool,
    pub copy_dst: bool,
    pub texture_binding: bool,
    pub storage_binding: bool,
    pub render_attachment: bool,
}

impl TextureUsages {
    pub open spec fn spec_empty() -> Self {
        TextureUsages {
            copy_src: false,
            copy_dst: false,
            texture_binding: false,
            storage_binding: false,
            render_attachment: false,
        }
    }

    pub open spec fn spec_texture_binding() -> Self {
        TextureUsages { texture_binding: true, ..Self::spec_empty() }
    }

    pub open spec fn spec_storage_binding() -> Self {
        TextureUsages { storage_binding: true, ..Self::spec_empty() }
    }

    pub open spec fn spec_render_attachment() -> Self {
        TextureUsages { render_attachment: true, ..Self::spec_empty() }
    }

    /// Every usage that is in `self` or in `other`.
    pub open spec fn spec_union(self, other: Self) -> Self {
        TextureUsages {
            copy_src: self.copy_src || other.copy_src,
            copy_dst: self.copy_dst || other.copy_dst,
            texture_binding: self.texture_binding || other.texture_binding,
            storage_binding: self.storage_binding || other.storage_binding,
            render_attachment: self.render_attachment || other.render_attachment,
        }
    }

    /// Whether every usage in `other` is in `self`.
    pub open spec fn spec_contains(self, other: Self) -> bool {
        &&& other.copy_src ==> self.copy_src
        &&& other.copy_dst ==> self.copy_dst
        &&& other.texture_binding ==> self.texture_binding
        &&& other.storage_binding ==> self.storage_binding
        &&& other.render_attachment ==> self.render_attachment
    }

    pub fn empty() -> (usages: Self)
        ensures
            usages == Self::spec_empty(),
    {
        TextureUsages {
            copy_src: false,
            copy_dst: false,
            texture_binding: false,
            storage_binding: false,
            render_attachment: false,
        }
    }

    /// The texture is sampled in a shader.
    pub fn texture_binding() -> (usages: Self)
        ensures
            usages == Self::spec_texture_binding(),
    {
        TextureUsages { texture_binding: true, ..Self::empty() }
    }

    /// The texture is written as a storage texture in a shader.
    pub fn storage_binding() -> (usages: Self)
        ensures
            usages == Self::spec_storage_binding(),
    {
        TextureUsages { storage_binding: true, ..Self::empty() }
    }

    /// The texture is the colour target of a render pass.
    pub fn render_attachment() -> (usages: Self)
        ensures
            usages == Self::spec_render_attachment(),
    {
        TextureUsages { render_attachment: true, ..Self::empty() }
    }

    pub fn union(self, other: Self) -> (usages: Self)
        ensures
            usages == self.spec_union(other),
    {
        TextureUsages {
            copy_src: self.copy_src || other.copy_src,
            copy_dst: self.copy_dst || other.copy_dst,
            texture_binding: self.texture_binding || other.texture_binding,
            storage_binding: self.storage_binding || other.storage_binding,
            render_attachment: self.render_attachment || other.render_attachment,
        }
    }

    pub fn contains(self, other: Self) -> (all: bool)
        ensures
            all == self.spec_contains(other),
    {
        (!other.copy_src || self.copy_src) && (!other.copy_dst || self.copy_dst) && (
        !other.texture_binding || self.texture_binding) && (!other.storage_binding
            || self.storage_binding) && (!other.render_attachment || self.render_attachment)
    }
}

#[derive(Clone, Copy, Debug, PartialEq, Eq, Hash, Structural)]
pub struct Extent3d {
    pub width: u32,
    pub height: u32,
    pub depth_or_array_layers: u32,
}

/// Largest texture sizes a device accepts.
#[derive(Clone, Copy, Debug, PartialEq, Eq, Hash, Structural)]
pub struct Limits {
    /// Largest width and height of a two-dimensional texture.
    pub max_texture_dimension_2d: u32,
    /// Largest width, height and depth of a three-dimensional texture.
    pub max_texture_dimension_3d: u32,
    /// Largest number of layers of a two-dimensional texture.
    pub max_texture_array_layers: u32,
}

/// What a texture is: the key under which the cache pools it.
#[derive(Clone, Copy, Debug, PartialEq, Eq, Hash, Structural)]
pub struct TextureDescriptor {
    pub size: Extent3d,
    pub mip_level_count: u32,
    pub sample_count: u32,
    pub dimension: TextureDimension,
    pub format: TextureFormat,
    pub usage: TextureUsages,
}

impl TextureDescriptor {
    /// Whether a device with these limits can hold the texture: no extent is
    /// zero and none exceeds the limit for the texture's dimension.
    pub open spec fn spec_fits(self, limits: Limits) -> bool {
        &&& 0 < self.size.width
        &&& 0 < self.size.height
        &&& 0 < self.size.depth_or_array_layers
        &&& match self.dimension {
            TextureDimension::D2 => {
                &&& self.size.width <= limits.max_texture_dimension_2d
                &&& self.size.height <= limits.max_texture_dimension_2d
                &&& self.size.depth_or_array_layers <= limits.max_texture_array_layers
            },
            TextureDimension::D3 => {
                &&& self.size.width <= limits.max_texture_dimension_3d
                &&& self.size.height <= limits.max_texture_dimension_3d
                &&& self.size.depth_or_array_layers <= limits.max_texture_dimension_3d
            },
        }
    }

    pub fn fits(&self, limits: &Limits) -> (ok: bool)
        ensures
            ok == self.spec_fits(*limits),
    {
        if self.size.width == 0 || self.size.height == 0 || self.size.depth_or_array_layers == 0 {
            return false;
        }
        match self.dimension {
            TextureDimension::D2 => {
                self.size.width <= limits.max_texture_dimension_2d && self.size.height
                    <= limits.max_texture_dimension_2d && self.size.depth_or_array_layers
                    <= limits.max_texture_array_layers
            },
            TextureDimension::D3 => {
                self.size.width <= limits.max_texture_dimension_3d && self.size.height
                    <= limits.max_texture_dimension_3d && self.size.depth_or_array_layers
                    <= limits.max_texture_dimension_3d
            },
        }
    }
}

/// What the adapter allows of a texture format.
#[derive(Clone, Copy, Debug, PartialEq, Eq, Hash, Structural)]
pub struct TextureFormatFeatures {
    pub allowed_usages: TextureUsages,
}

/// The capabilities of the graphics adapter, queried once at start-up.
#[derive(Clone, Copy, Debug, PartialEq, Eq, Hash, Structural)]
pub struct RenderAdapter {
    pub rgba16_float: TextureFormatFeatures,
    pub rgba8_unorm_srgb: TextureFormatFeatures,
}

impl RenderAdapter {
    pub open spec fn spec_texture_format_features(self, format: TextureFormat) -> TextureFormatFeatures {
        match format {
            TextureFormat::Rgba16Float => self.rgba16_float,
            TextureFormat::Rgba8UnormSrgb => self.rgba8_unorm_srgb,
        }
    }

    pub fn get_texture_format_features(&self, format: TextureFormat) -> (features: TextureFormatFeatures)
        ensures
            features == self.spec_texture_format_features(format),
    {
        match format {
            TextureFormat::Rgba16Float => self.rgba16_float,
            TextureFormat::Rgba8UnormSrgb => self.rgba8_unorm_srgb,
        }
    }
}

/// The device that textures are allocated on.
#[derive(Clone, Copy, Debug, PartialEq, Eq, Hash, Structural)]
pub struct RenderDevice {
    pub limits: Limits,
}

} // verus!
