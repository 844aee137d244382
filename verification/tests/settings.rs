use sky_atmosphere::math::{UVec2, UVec3};
use sky_atmosphere::node::workgroup_count;
use sky_atmosphere::settings::{extract_atmosphere, sky_view_extent, AtmosphereSettings};
use sky_atmosphere::texture::{
    Extent3d, Limits, RenderAdapter, TextureDescriptor, TextureDimension, TextureFormat,
    TextureFormatFeatures, TextureUsages, TEXTURE_FORMAT_HDR,
};

fn limits() -> Limits {
    Limits {
        max_texture_dimension_2d: 8192,
        max_texture_dimension_3d: 2048,
        max_texture_array_layers: 256,
    }
}

#[test]
fn workgroup_count_of_exact_multiple() {
    assert_eq!(workgroup_count(16), 1);
    assert_eq!(workgroup_count(32), 2);
    assert_eq!(workgroup_count(256), 16);
}

#[test]
fn workgroup_count_rounds_up() {
    assert_eq!(workgroup_count(17), 2);
    assert_eq!(workgroup_count(1), 1);
    assert_eq!(workgroup_count(15), 1);
    assert_eq!(workgroup_count(33), 3);
    assert_eq!(workgroup_count(108), 7);
    assert_eq!(workgroup_count(192), 12);
}

#[test]
fn workgroup_count_at_the_ends() {
    assert_eq!(workgroup_count(0), 0);
    assert_eq!(workgroup_count(u32::MAX), 268_435_456);
    assert_eq!(workgroup_count(u32::MAX - 15), 268_435_455);
}

#[test]
fn workgroup_count_covers_every_dimension_up_to_a_thousand() {
    for dimension in 1..=1000u32 {
        let count = workgroup_count(dimension);
        assert!(count * 16 >= dimension);
        assert!((count - 1) * 16 < dimension);
    }
}

#[test]
fn default_settings() {
    let settings = AtmosphereSettings::default();
    assert_eq!(settings.transmittance_lut_size, UVec2 { x: 256, y: 128 });
    assert_eq!(settings.transmittance_lut_samples, 40);
    assert_eq!(settings.multiscattering_lut_size, UVec2 { x: 32, y: 32 });
    assert_eq!(settings.multiscattering_lut_dirs, 64);
    assert_eq!(settings.multiscattering_lut_samples, 20);
    assert_eq!(settings.sky_view_lut_size, UVec2 { x: 192, y: 108 });
    assert_eq!(settings.sky_view_lut_samples, 30);
    assert_eq!(settings.aerial_view_lut_size, UVec3 { x: 32, y: 32, z: 32 });
    assert_eq!(settings.aerial_view_lut_samples, 30);
}

#[test]
fn settings_from_camera_without_viewport_are_the_defaults() {
    assert_eq!(AtmosphereSettings::from_camera(None), AtmosphereSettings::default());
}

#[test]
fn settings_from_camera_take_a_tenth_of_the_viewport() {
    let settings = AtmosphereSettings::from_camera(Some(UVec2::new(1280, 720)));
    assert_eq!(settings.sky_view_lut_size, UVec2 { x: 128, y: 72 });
    let expected = AtmosphereSettings {
        sky_view_lut_size: UVec2 { x: 128, y: 72 },
        ..AtmosphereSettings::default()
    };
    assert_eq!(settings, expected);
}

#[test]
fn settings_from_camera_round_down() {
    let settings = AtmosphereSettings::from_camera(Some(UVec2::new(1919, 1089)));
    assert_eq!(settings.sky_view_lut_size, UVec2 { x: 191, y: 108 });
}

#[test]
fn settings_from_a_tiny_viewport_have_a_table_of_one_texel() {
    let settings = AtmosphereSettings::from_camera(Some(UVec2::new(9, 400)));
    assert_eq!(settings.sky_view_lut_size, UVec2 { x: 1, y: 40 });
    assert!(settings.is_valid(&limits()));
    for pixels in 0..10 {
        let settings = AtmosphereSettings::from_camera(Some(UVec2::new(pixels, pixels)));
        assert_eq!(settings.sky_view_lut_size, UVec2 { x: 1, y: 1 });
        assert!(settings.is_valid(&limits()));
    }
    assert_eq!(
        AtmosphereSettings::from_camera(Some(UVec2::new(10, 19))).sky_view_lut_size,
        UVec2 { x: 1, y: 1 }
    );
    assert_eq!(
        AtmosphereSettings::from_camera(Some(UVec2::new(20, 29))).sky_view_lut_size,
        UVec2 { x: 2, y: 2 }
    );
}

#[test]
fn sky_view_extent_is_a_tenth_and_at_least_one() {
    assert_eq!(sky_view_extent(0), 1);
    assert_eq!(sky_view_extent(1), 1);
    assert_eq!(sky_view_extent(9), 1);
    assert_eq!(sky_view_extent(10), 1);
    assert_eq!(sky_view_extent(1920), 192);
    assert_eq!(sky_view_extent(u32::MAX), 429_496_729);
}

#[test]
fn settings_with_an_empty_table_are_not_valid() {
    let settings = AtmosphereSettings {
        sky_view_lut_size: UVec2 { x: 0, y: 40 },
        ..AtmosphereSettings::default()
    };
    assert!(!settings.is_valid(&limits()));
}

#[test]
fn default_settings_are_valid() {
    assert!(AtmosphereSettings::default().is_valid(&limits()));
}

#[test]
fn settings_beyond_the_limits_are_not_valid() {
    let too_wide = AtmosphereSettings {
        transmittance_lut_size: UVec2 { x: 8193, y: 128 },
        ..AtmosphereSettings::default()
    };
    assert!(!too_wide.is_valid(&limits()));
    let at_limit = AtmosphereSettings {
        transmittance_lut_size: UVec2 { x: 8192, y: 8192 },
        ..AtmosphereSettings::default()
    };
    assert!(at_limit.is_valid(&limits()));
    let too_deep = AtmosphereSettings {
        aerial_view_lut_size: UVec3 { x: 32, y: 32, z: 2049 },
        ..AtmosphereSettings::default()
    };
    assert!(!too_deep.is_valid(&limits()));
    let no_layers = Limits { max_texture_array_layers: 0, ..limits() };
    assert!(!AtmosphereSettings::default().is_valid(&no_layers));
}

#[test]
fn vectors_hold_their_components() {
    assert_eq!(UVec2::new(25, 99), UVec2 { x: 25, y: 99 });
    assert_eq!(UVec3::new(1, 2, 3), UVec3 { x: 1, y: 2, z: 3 });
}

#[test]
fn texture_usages() {
    let sampled = TextureUsages::texture_binding();
    let storage = TextureUsages::storage_binding();
    let both = sampled.union(storage);
    assert!(both.texture_binding && both.storage_binding);
    assert!(!both.render_attachment && !both.copy_src && !both.copy_dst);
    assert!(both.contains(sampled));
    assert!(both.contains(storage));
    assert!(!sampled.contains(storage));
    assert!(!both.contains(TextureUsages::render_attachment()));
    assert!(sampled.contains(TextureUsages::empty()));
    assert_eq!(TextureUsages::empty().union(sampled), sampled);
}

#[test]
fn texture_formats() {
    assert_eq!(TextureFormat::bevy_default(), TextureFormat::Rgba8UnormSrgb);
    assert_eq!(TEXTURE_FORMAT_HDR, TextureFormat::Rgba16Float);
}

#[test]
fn descriptor_fits_within_limits() {
    let flat = TextureDescriptor {
        size: Extent3d { width: 8192, height: 1, depth_or_array_layers: 1 },
        mip_level_count: 1,
        sample_count: 1,
        dimension: TextureDimension::D2,
        format: TextureFormat::Rgba16Float,
        usage: TextureUsages::texture_binding(),
    };
    assert!(flat.fits(&limits()));
    let wide = TextureDescriptor { size: Extent3d { width: 8193, ..flat.size }, ..flat };
    assert!(!wide.fits(&limits()));
    let empty = TextureDescriptor { size: Extent3d { height: 0, ..flat.size }, ..flat };
    assert!(!empty.fits(&limits()));
    let layered = TextureDescriptor { size: Extent3d { depth_or_array_layers: 257, ..flat.size }, ..flat };
    assert!(!layered.fits(&limits()));
    let volume = TextureDescriptor {
        size: Extent3d { width: 2048, height: 2048, depth_or_array_layers: 2048 },
        dimension: TextureDimension::D3,
        ..flat
    };
    assert!(volume.fits(&limits()));
    let deep = TextureDescriptor { size: Extent3d { depth_or_array_layers: 2049, ..volume.size }, ..volume };
    assert!(!deep.fits(&limits()));
    let broad = TextureDescriptor { size: Extent3d { width: 4096, ..volume.size }, ..volume };
    assert!(!broad.fits(&limits()));
}

#[test]
fn adapter_reports_features_by_format() {
    let adapter = RenderAdapter {
        rgba16_float: TextureFormatFeatures { allowed_usages: TextureUsages::storage_binding() },
        rgba8_unorm_srgb: TextureFormatFeatures { allowed_usages: TextureUsages::texture_binding() },
    };
    assert_eq!(
        adapter.get_texture_format_features(TextureFormat::Rgba16Float).allowed_usages,
        TextureUsages::storage_binding()
    );
    assert_eq!(
        adapter.get_texture_format_features(TextureFormat::Rgba8UnormSrgb).allowed_usages,
        TextureUsages::texture_binding()
    );
}

#[test]
fn inactive_camera_extracts_nothing() {
    let own = AtmosphereSettings::default();
    assert_eq!(extract_atmosphere(false, Some(&own), Some(UVec2::new(800, 600))), None);
    assert_eq!(extract_atmosphere(false, None, None), None);
}

#[test]
fn active_camera_extracts_its_own_settings() {
    let own = AtmosphereSettings {
        sky_view_lut_samples: 7,
        ..AtmosphereSettings::default()
    };
    assert_eq!(extract_atmosphere(true, Some(&own), Some(UVec2::new(800, 600))), Some(own));
}

#[test]
fn active_camera_without_settings_extracts_those_of_its_viewport() {
    assert_eq!(
        extract_atmosphere(true, None, Some(UVec2::new(800, 600))),
        Some(AtmosphereSettings {
            sky_view_lut_size: UVec2 { x: 80, y: 60 },
            ..AtmosphereSettings::default()
        })
    );
    assert_eq!(extract_atmosphere(true, None, None), Some(AtmosphereSettings::default()));
}
