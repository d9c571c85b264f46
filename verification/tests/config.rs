use framepipe::config::{
    CompositeAlphaMode, Configuration, DefaultConf, Face, Features, FrontFace, MemoryHints,
    PhysicalSize, PolygonMode, PowerPreference, PresentMode, PrimitiveTopology,
    SurfaceCapabilities, TextureUsages, Trace, FRAME_LATENCY,
};
use wgpu::TextureFormat;

fn desktop_caps() -> SurfaceCapabilities {
    SurfaceCapabilities {
        formats: vec![
            TextureFormat::Bgra8Unorm,
            TextureFormat::Bgra8UnormSrgb,
            TextureFormat::Rgba8UnormSrgb,
        ],
        present_modes: vec![PresentMode::Mailbox, PresentMode::Fifo],
        alpha_modes: vec![CompositeAlphaMode::Opaque, CompositeAlphaMode::PreMultiplied],
    }
}

#[test]
fn surface_config_for_800_by_600() {
    let config = DefaultConf::surface_config(&desktop_caps(), &PhysicalSize { width: 800, height: 600 });
    assert_eq!(config.width, 800);
    assert_eq!(config.height, 600);
    assert_eq!(config.format, TextureFormat::Bgra8UnormSrgb);
    assert_eq!(config.present_mode, PresentMode::Mailbox);
    assert_eq!(config.alpha_mode, CompositeAlphaMode::Opaque);
    assert_eq!(config.usage, TextureUsages::render_attachment());
    assert_eq!(config.desired_maximum_frame_latency, 2);
    assert_eq!(FRAME_LATENCY, 2);
    assert!(config.view_formats.is_empty());
}

#[test]
fn surface_config_without_an_srgb_format_takes_the_first() {
    let caps = SurfaceCapabilities {
        formats: vec![TextureFormat::Rgb10a2Unorm, TextureFormat::Rgba16Float],
        present_modes: vec![PresentMode::Fifo],
        alpha_modes: vec![CompositeAlphaMode::Inherit],
    };
    let config = DefaultConf::surface_config(&caps, &PhysicalSize { width: 1, height: 1 });
    assert_eq!(config.format, TextureFormat::Rgb10a2Unorm);
    assert_eq!(config.present_mode, PresentMode::Fifo);
    assert_eq!(config.alpha_mode, CompositeAlphaMode::Inherit);
    assert_eq!((config.width, config.height), (1, 1));
}

#[test]
fn surface_config_keeps_a_zero_area_size() {
    let config = DefaultConf::surface_config(&desktop_caps(), &PhysicalSize { width: 0, height: 0 });
    assert_eq!((config.width, config.height), (0, 0));
}

#[test]
fn capabilities_are_usable_only_with_all_three_lists() {
    assert!(desktop_caps().is_usable());
    let mut caps = desktop_caps();
    caps.formats.clear();
    assert!(!caps.is_usable());
    let mut caps = desktop_caps();
    caps.present_modes.clear();
    assert!(!caps.is_usable());
    let mut caps = desktop_caps();
    caps.alpha_modes.clear();
    assert!(!caps.is_usable());
}

#[test]
fn render_attachment_is_the_only_usage() {
    let usage = TextureUsages::render_attachment();
    assert!(usage.render_attachment);
    assert!(!usage.copy_src && !usage.copy_dst && !usage.texture_binding && !usage.storage_binding);
}

#[test]
fn primitives_are_filled_triangles_with_back_faces_culled() {
    let p = DefaultConf::primitives();
    assert_eq!(p.topology, PrimitiveTopology::TriangleList);
    assert_eq!(p.strip_index_format, None);
    assert_eq!(p.front_face, FrontFace::Ccw);
    assert_eq!(p.cull_mode, Some(Face::Back));
    assert_eq!(p.polygon_mode, PolygonMode::Fill);
    assert!(!p.unclipped_depth);
    assert!(!p.conservative);
}

#[test]
fn multisample_is_a_single_sample() {
    let m = DefaultConf::multisample();
    assert_eq!(m.count, 1);
    assert_eq!(m.mask, !0);
    assert!(!m.alpha_to_coverage_enabled);
}

#[test]
fn adapter_is_high_performance_and_compatible_with_the_surface() {
    let options = DefaultConf::adapter(17_u8);
    assert_eq!(options.power_preference, PowerPreference::HighPerformance);
    assert!(!options.force_fallback_adapter);
    assert_eq!(options.compatible_surface, Some(17));
}

#[test]
fn device_descriptor_passes_the_limits_on() {
    let mut limits = wgpu::Limits::default();
    limits.max_bind_groups = 3;
    let expected = limits.clone();
    let desc = DefaultConf::device_dec(limits);
    assert_eq!(desc.label, None);
    assert_eq!(desc.required_features, Features::empty());
    assert_eq!(desc.required_features, Features { features_wgpu: 0, features_webgpu: 0 });
    assert_eq!(desc.required_limits, expected);
    assert_eq!(desc.memory_hints, MemoryHints::Performance);
    assert_eq!(desc.trace, Trace::Off);
}

#[test]
fn device_request_asks_for_the_default_limits_and_no_feature() {
    let desc = DefaultConf::device_request();
    assert_eq!(desc.label, None);
    assert_eq!(desc.required_features, Features::empty());
    assert_eq!(desc.required_limits, wgpu::Limits::default());
    assert_eq!(desc.memory_hints, MemoryHints::Performance);
    assert_eq!(desc.trace, Trace::Off);
}
