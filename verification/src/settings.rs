//! Per-view sizes and sample counts of the lookup tables.

use vstd::prelude::*;
use crate::math::{UVec2, UVec3};
use crate::texture::Limits;

verus! {

/// The sky-view table has one texel for this many viewport pixels along each
/// axis when its size is taken from the viewport.
pub const SKY_VIEW_VIEWPORT_DIVISOR: u32 = 10;

/// The extent of the sky-view table along an axis on which the viewport
/// has `pixels` pixels: a tenth of them, rounded down, and at least one
/// texel, so that the table of a small viewport is not empty.
pub open spec fn spec_sky_view_extent(pixels: u32) -> u32 {
    if pixels / SKY_VIEW_VIEWPORT_DIVISOR >= 1 {
        pixels / SKY_VIEW_VIEWPORT_DIVISOR
    } else {
        1
    }
}

/// The extent of the sky-view table along an axis on which the viewport
/// has `pixels` pixels.
pub fn sky_view_extent(pixels: u32) -> (extent: u32)
    ensures
        extent == spec_sky_view_extent(pixels),
        extent >= 1,
        pixels >= SKY_VIEW_VIEWPORT_DIVISOR ==> extent == pixels / SKY_VIEW_VIEWPORT_DIVISOR,
{
    let tenth: u32 = pixels / SKY_VIEW_VIEWPORT_DIVISOR;
    if tenth >= 1 {
        tenth
    } else {
        1
    }
}

/// Sizes and sample counts of the four lookup tables of one view.
#[derive(Clone, Copy, Debug, PartialEq, Eq, Hash, Structural)]
pub struct AtmosphereSettings {
    pub transmittance_lut_size: UVec2,
    pub multiscattering_lut_size: UVec2,
    pub sky_view_lut_size: UVec2,
    pub multiscattering_lut_dirs: u32,
    pub transmittance_lut_samples: u32,
    pub aerial_view_lut_size: UVec3,
    pub multiscattering_lut_samples: u32,
    pub sky_view_lut_samples: u32,
    pub aerial_view_lut_samples: u32,
}

impl AtmosphereSettings {
    /// The settings of a view that sets none and has no viewport.
    pub open spec fn spec_default() -> Self {
        AtmosphereSettings {
            transmittance_lut_size: UVec2 { x: 256, y: 128 },
            transmittance_lut_samples: 40,
            multiscattering_lut_size: UVec2 { x: 32, y: 32 },
            multiscattering_lut_dirs: 64,
            multiscattering_lut_samples: 20,
            sky_view_lut_size: UVec2 { x: 192, y: 108 },
            sky_view_lut_samples: 30,
            aerial_view_lut_size: UVec3 { x: 32, y: 32, z: 32 },
            aerial_view_lut_samples: 30,
        }
    }

    /// The settings derived from a viewport of `viewport_size` logical
    /// pixels: the defaults, but for a sky-view table of a tenth of the
    /// viewport along each axis, and of at least one texel. Without a
    /// viewport, the defaults.
    pub open spec fn spec_from_camera(viewport_size: Option<UVec2>) -> Self {
        match viewport_size {
            Some(size) => AtmosphereSettings {
                sky_view_lut_size: UVec2 {
                    x: spec_sky_view_extent(size.x),
                    y: spec_sky_view_extent(size.y),
                },
                ..Self::spec_default()
            },
            None => Self::spec_default(),
        }
    }

    /// No extent of any table is zero.
    pub open spec fn spec_is_nonempty(self) -> bool {
        &&& 0 < self.transmittance_lut_size.x
        &&& 0 < self.transmittance_lut_size.y
        &&& 0 < self.multiscattering_lut_size.x
        &&& 0 < self.multiscattering_lut_size.y
        &&& 0 < self.sky_view_lut_size.x
        &&& 0 < self.sky_view_lut_size.y
        &&& 0 < self.aerial_view_lut_size.x
        &&& 0 < self.aerial_view_lut_size.y
        &&& 0 < self.aerial_view_lut_size.z
    }

    /// Whether every table can be allocated on a device with these limits:
    /// no extent of any table is zero, and none exceeds the device's limit
    /// for two-dimensional (the aerial-view table: three-dimensional)
    /// textures. The two-dimensional tables have one layer, so the device
    /// must allow a layer.
    pub open spec fn spec_is_valid(self, limits: Limits) -> bool {
        &&& 0 < self.transmittance_lut_size.x <= limits.max_texture_dimension_2d
        &&& 0 < self.transmittance_lut_size.y <= limits.max_texture_dimension_2d
        &&& 0 < self.multiscattering_lut_size.x <= limits.max_texture_dimension_2d
        &&& 0 < self.multiscattering_lut_size.y <= limits.max_texture_dimension_2d
        &&& 0 < self.sky_view_lut_size.x <= limits.max_texture_dimension_2d
        &&& 0 < self.sky_view_lut_size.y <= limits.max_texture_dimension_2d
        &&& 0 < self.aerial_view_lut_size.x <= limits.max_texture_dimension_3d
        &&& 0 < self.aerial_view_lut_size.y <= limits.max_texture_dimension_3d
        &&& 0 < self.aerial_view_lut_size.z <= limits.max_texture_dimension_3d
        &&& 0 < limits.max_texture_array_layers
    }

    /// Settings for a camera whose logical viewport size, in whole pixels, is
    /// `viewport_size`; `None` for a camera without a viewport. Whatever
    /// the viewport, no table of the result is empty.
    pub fn from_camera(viewport_size: Option<UVec2>) -> (settings: Self)
        ensures
            settings == Self::spec_from_camera(viewport_size),
            settings.spec_is_nonempty(),
            settings.sky_view_lut_size.x >= 1 && settings.sky_view_lut_size.y >= 1,
    {
        match viewport_size {
            Some(size) => AtmosphereSettings {
                sky_view_lut_size: UVec2::new(sky_view_extent(size.x), sky_view_extent(size.y)),
                ..Self::default()
            },
            None => Self::default(),
        }
    }

    pub fn is_valid(&self, limits: &Limits) -> (valid: bool)
        ensures
            valid == self.spec_is_valid(*limits),
    {
        let max_2d: u32 = limits.max_texture_dimension_2d;
        let max_3d: u32 = limits.max_texture_dimension_3d;
        in_range(self.transmittance_lut_size.x, max_2d) && in_range(
            self.transmittance_lut_size.y,
            max_2d,
        ) && in_range(self.multiscattering_lut_size.x, max_2d) && in_range(
            self.multiscattering_lut_size.y,
            max_2d,
        ) && in_range(self.sky_view_lut_size.x, max_2d) && in_range(self.sky_view_lut_size.y, max_2d)
            && in_range(self.aerial_view_lut_size.x, max_3d) && in_range(
            self.aerial_view_lut_size.y,
            max_3d,
        ) && in_range(self.aerial_view_lut_size.z, max_3d) && 0 < limits.max_texture_array_layers
    }
}

impl Default for AtmosphereSettings {
    fn default() -> (settings: Self)
        ensures
            settings == Self::spec_default(),
            settings.spec_is_nonempty(),
    {
        AtmosphereSettings {
            transmittance_lut_size: UVec2::new(256, 128),
            transmittance_lut_samples: 40,
            multiscattering_lut_size: UVec2::new(32, 32),
            multiscattering_lut_dirs: 64,
            multiscattering_lut_samples: 20,
            sky_view_lut_size: UVec2::new(192, 108),
            sky_view_lut_samples: 30,
            aerial_view_lut_size: UVec3::new(32, 32, 32),
            aerial_view_lut_samples: 30,
        }
    }
}

/// The settings that a camera takes into the frame: none for a camera
/// that is not active; else the settings of the camera, or, where it has
/// none, those derived from its viewport, which leave no table empty.
pub open spec fn spec_extract_atmosphere(
    is_active: bool,
    lut_settings: Option<AtmosphereSettings>,
    viewport_size: Option<UVec2>,
) -> Option<AtmosphereSettings> {
    if !is_active {
        None
    } else {
        match lut_settings {
            Some(settings) => Some(settings),
            None => Some(AtmosphereSettings::spec_from_camera(viewport_size)),
        }
    }
}

/// Takes the settings of a camera over into the frame.
pub fn extract_atmosphere(
    is_active: bool,
    lut_settings: Option<&AtmosphereSettings>,
    viewport_size: Option<UVec2>,
) -> (extracted: Option<AtmosphereSettings>)
    ensures
        extracted == spec_extract_atmosphere(
            is_active,
            match lut_settings {
                Some(settings) => Some(*settings),
                None => None,
            },
            viewport_size,
        ),
{
    if !is_active {
        return None;
    }
    match lut_settings {
        Some(settings) => Some(*settings),
        None => Some(AtmosphereSettings::from_camera(viewport_size)),
    }
}

fn in_range(extent: u32, limit: u32) -> (ok: bool)
    ensures
        ok == (0 < extent <= limit),
{
    0 < extent && extent <= limit
}

} // verus!
