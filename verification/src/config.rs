//! The fixed choices of the presentation pipeline: how an adapter and a
//! device are requested, how the surface is configured, and how primitives
//! are assembled and sampled.
//!
//! The types here hold, as plain values, what the GPU layer is handed. A
//! texture format and a set of device limits stay values of `wgpu`, carried
//! through unread.

use vstd::prelude::*;
use crate::format::{preferred_format, select_format};

verus! {

#[verifier::external_type_specification]
#[verifier::external_body]
pub struct ExLimits(wgpu::Limits);

/// The physical size of a window, in pixels.
#[derive(Clone, Copy, Debug, PartialEq, Eq, Structural)]
pub struct PhysicalSize {
    pub width: u32,
    pub height: u32,
}

/// When a presented frame becomes visible.
#[derive(Clone, Copy, Debug, PartialEq, Eq, Structural)]
pub enum PresentMode {
    AutoVsync,
    AutoNoVsync,
    Fifo,
    FifoRelaxed,
    Immediate,
    Mailbox,
}

/// How the alpha channel of a frame is treated when it is composited.
#[derive(Clone, Copy, Debug, PartialEq, Eq, Structural)]
pub enum CompositeAlphaMode {
    Auto,
    Opaque,
    PreMultiplied,
    PostMultiplied,
    Inherit,
}

/// The ways a texture may be used, one flag each.
#[derive(Clone, Copy, Debug, PartialEq, Eq, Structural)]
pub struct TextureUsages {
    pub copy_src: bool,
    pub copy_dst: bool,
    pub texture_binding: bool,
    pub storage_binding: bool,
    pub render_attachment: bool,
}

impl TextureUsages {
    /// The usage of a texture that is only drawn to.
    pub open spec fn spec_render_attachment() -> TextureUsages {
        TextureUsages {
            copy_src: false,
            copy_dst: false,
            texture_binding: false,
            storage_binding: false,
            render_attachment: true,
        }
    }

    /// The usage of a texture that is only drawn to.
    #[verifier::when_used_as_spec(spec_render_attachment)]
    pub fn render_attachment() -> (r: TextureUsages)
        ensures
            r == Self::spec_render_attachment(),
    {
        TextureUsages {
            copy_src: false,
            copy_dst: false,
            texture_binding: false,
            storage_binding: false,
            render_attachment: true,
        }
    }
}

/// What a surface reports that it supports with a given adapter, each list
/// in the surface's order of preference.
#[derive(Debug)]
pub struct SurfaceCapabilities {
    pub formats: Vec<wgpu::TextureFormat>,
    pub present_modes: Vec<PresentMode>,
    pub alpha_modes: Vec<CompositeAlphaMode>,
}

impl SurfaceCapabilities {
    /// A surface can be configured only if it offers at least one format, one
    /// present mode and one alpha mode.
    pub open spec fn spec_is_usable(&self) -> bool {
        &&& self.formats@.len() > 0
        &&& self.present_modes@.len() > 0
        &&& self.alpha_modes@.len() > 0
    }

    /// Whether the surface offers at least one format, one present mode and
    /// one alpha mode.
    #[verifier::when_used_as_spec(spec_is_usable)]
    pub fn is_usable(&self) -> (r: bool)
        ensures
            r == self.spec_is_usable(),
    {
        self.formats.len() > 0 && self.present_modes.len() > 0 && self.alpha_modes.len() > 0
    }
}

/// How a surface presents: format, size, present mode, alpha mode, and the
/// number of frames that may be queued.
#[derive(Debug)]
pub struct SurfaceConfiguration {
    pub usage: TextureUsages,
    pub format: wgpu::TextureFormat,
    pub width: u32,
    pub height: u32,
    pub present_mode: PresentMode,
    pub desired_maximum_frame_latency: u32,
    pub alpha_mode: CompositeAlphaMode,
    pub view_formats: Vec<wgpu::TextureFormat>,
}

/// The number of frames that the presentation engine is asked to queue.
pub const FRAME_LATENCY: u32 = 2;

/// How vertices are assembled into primitives.
#[derive(Clone, Copy, Debug, PartialEq, Eq, Structural)]
pub enum PrimitiveTopology {
    PointList,
    LineList,
    LineStrip,
    TriangleList,
    TriangleStrip,
}

/// The winding order that marks the front of a triangle.
#[derive(Clone, Copy, Debug, PartialEq, Eq, Structural)]
pub enum FrontFace {
    Ccw,
    Cw,
}

/// A side of a triangle.
#[derive(Clone, Copy, Debug, PartialEq, Eq, Structural)]
pub enum Face {
    Front,
    Back,
}

/// How a polygon is rasterized.
#[derive(Clone, Copy, Debug, PartialEq, Eq, Structural)]
pub enum PolygonMode {
    Fill,
    Line,
    Point,
}

/// The width of an index.
#[derive(Clone, Copy, Debug, PartialEq, Eq, Structural)]
pub enum IndexFormat {
    Uint16,
    Uint32,
}

/// The primitive-assembly and rasterization state of a render pipeline.
#[derive(Clone, Copy, Debug, PartialEq, Eq, Structural)]
pub struct PrimitiveState {
    pub topology: PrimitiveTopology,
    pub strip_index_format: Option<IndexFormat>,
    pub front_face: FrontFace,
    pub cull_mode: Option<Face>,
    pub unclipped_depth: bool,
    pub polygon_mode: PolygonMode,
    pub conservative: bool,
}

/// The multisampling state of a render pipeline.
#[derive(Clone, Copy, Debug, PartialEq, Eq, Structural)]
pub struct MultisampleState {
    pub count: u32,
    pub mask: u64,
    pub alpha_to_coverage_enabled: bool,
}

/// Which adapter to prefer where several are present.
#[derive(Clone, Copy, Debug, PartialEq, Eq, Structural)]
pub enum PowerPreference {
    NoPreference,
    LowPower,
    HighPerformance,
}

/// What is asked of an adapter. `S` is the surface that it must be able to
/// present to.
#[derive(Debug)]
pub struct RequestAdapterOptions<S> {
    pub power_preference: PowerPreference,
    pub force_fallback_adapter: bool,
    pub compatible_surface: Option<S>,
}

/// A set of optional device features, as the two words of flags that the GPU
/// layer keeps.
#[derive(Clone, Copy, Debug, PartialEq, Eq, Structural)]
pub struct Features {
    pub features_wgpu: u64,
    pub features_webgpu: u64,
}

impl Features {
    /// The set without any feature.
    pub open spec fn spec_empty() -> Features {
        Features { features_wgpu: 0, features_webgpu: 0 }
    }

    /// The set without any feature.
    #[verifier::when_used_as_spec(spec_empty)]
    pub fn empty() -> (r: Features)
        ensures
            r == Self::spec_empty(),
    {
        Features { features_wgpu: 0, features_webgpu: 0 }
    }
}

/// What a device should favour when it allocates memory.
#[derive(Clone, Copy, Debug, PartialEq, Eq, Structural)]
pub enum MemoryHints {
    Performance,
    MemoryUsage,
}

/// Whether the calls made on a device are traced.
#[derive(Clone, Copy, Debug, PartialEq, Eq, Structural)]
pub enum Trace {
    Off,
}

/// What is asked of a device.
#[derive(Debug)]
pub struct DeviceDescriptor {
    pub label: Option<&'static str>,
    pub required_features: Features,
    pub required_limits: wgpu::Limits,
    pub memory_hints: MemoryHints,
    pub trace: Trace,
}

/// Trusted: calls `wgpu::Limits::default`, which gives the limits that
/// `wgpu` takes every adapter to meet. Nothing is claimed of their values.
#[verifier::external_body]
pub(crate) fn default_limits() -> (r: wgpu::Limits) {
    wgpu::Limits::default()
}

/// A set of choices for the presentation pipeline.
///
/// Whatever the choices, a surface configuration has the size it was asked
/// for and takes its format, present mode and alpha mode from what the surface
/// offers; a device descriptor passes the limits on; and the adapter is asked
/// to be compatible with the surface.
pub trait Configuration {
    /// The configuration of a surface of the given size.
    fn surface_config(caps: &SurfaceCapabilities, size: &PhysicalSize) -> (r: SurfaceConfiguration)
        requires
            caps.is_usable(),
        ensures
            r.width == size.width,
            r.height == size.height,
            caps.formats@.contains(r.format),
            caps.present_modes@.contains(r.present_mode),
            caps.alpha_modes@.contains(r.alpha_mode),
    ;

    /// How primitives are assembled and rasterized.
    fn primitives() -> PrimitiveState;

    /// How the color target is sampled.
    fn multisample() -> (r: MultisampleState)
        ensures
            r.count >= 1,
    ;

    /// The request for a device with the given limits.
    fn device_dec(limits: wgpu::Limits) -> (r: DeviceDescriptor)
        ensures
            r.required_limits == limits,
    ;

    /// The request for an adapter that can present to `surface`.
    fn adapter<S>(surface: S) -> (r: RequestAdapterOptions<S>)
        ensures
            r.compatible_surface == Some(surface),
    ;
}

/// The choices this pipeline is built with.
pub struct DefaultConf;

impl DefaultConf {
    /// The request for the device that the pipeline runs on: the default
    /// limits of `wgpu`, no optional feature, memory allocated for speed, no
    /// tracing.
    pub fn device_request() -> (r: DeviceDescriptor)
        ensures
            r.label is None,
            r.required_features == Features::empty(),
            r.memory_hints == MemoryHints::Performance,
            r.trace == Trace::Off,
    {
        Self::device_dec(default_limits())
    }

    /// The primitive state of the pipeline: a list of triangles, front faces
    /// wound counter-clockwise, back faces culled, polygons filled.
    pub open spec fn spec_primitives() -> PrimitiveState {
        PrimitiveState {
            topology: PrimitiveTopology::TriangleList,
            strip_index_format: None,
            front_face: FrontFace::Ccw,
            cull_mode: Some(Face::Back),
            unclipped_depth: false,
            polygon_mode: PolygonMode::Fill,
            conservative: false,
        }
    }

    /// The multisampling state of the pipeline: one sample, every sample
    /// enabled.
    pub open spec fn spec_multisample() -> MultisampleState {
        MultisampleState { count: 1, mask: u64::MAX, alpha_to_coverage_enabled: false }
    }

    /// The configuration that `surface_config` gives a surface: the preferred
    /// format, the first present mode and the first alpha mode that the surface
    /// offers, the size asked for, no further view format.
    pub open spec fn spec_surface_config(
        caps: SurfaceCapabilities,
        size: PhysicalSize,
        r: SurfaceConfiguration,
    ) -> bool {
        &&& r.usage == TextureUsages::render_attachment()
        &&& r.format == preferred_format(caps.formats@)
        &&& r.width == size.width
        &&& r.height == size.height
        &&& r.present_mode == caps.present_modes@[0]
        &&& r.desired_maximum_frame_latency == FRAME_LATENCY
        &&& r.alpha_mode == caps.alpha_modes@[0]
        &&& r.view_formats@ == Seq::<wgpu::TextureFormat>::empty()
    }
}

impl Configuration for DefaultConf {
    fn primitives() -> (r: PrimitiveState)
        ensures
            r == Self::spec_primitives(),
    {
        PrimitiveState {
            topology: PrimitiveTopology::TriangleList,
            strip_index_format: None,
            front_face: FrontFace::Ccw,
            cull_mode: Some(Face::Back),
            unclipped_depth: false,
            polygon_mode: PolygonMode::Fill,
            conservative: false,
        }
    }

    fn adapter<S>(surface: S) -> (r: RequestAdapterOptions<S>)
        ensures
            r.power_preference == PowerPreference::HighPerformance,
            r.force_fallback_adapter == false,
    {
        RequestAdapterOptions {
            power_preference: PowerPreference::HighPerformance,
            force_fallback_adapter: false,
            compatible_surface: Some(surface),
        }
    }

    fn multisample() -> (r: MultisampleState)
        ensures
            r == Self::spec_multisample(),
    {
        MultisampleState { count: 1, mask: u64::MAX, alpha_to_coverage_enabled: false }
    }

    fn device_dec(limits: wgpu::Limits) -> (r: DeviceDescriptor)
        ensures
            r.label is None,
            r.required_features == Features::empty(),
            r.memory_hints == MemoryHints::Performance,
            r.trace == Trace::Off,
    {
        DeviceDescriptor {
            label: None,
            required_features: Features::empty(),
            required_limits: limits,
            memory_hints: MemoryHints::Performance,
            trace: Trace::Off,
        }
    }

    fn surface_config(caps: &SurfaceCapabilities, size: &PhysicalSize) -> (r: SurfaceConfiguration)
        ensures
            Self::spec_surface_config(*caps, *size, r),
    {
        let format = select_format(&caps.formats).unwrap();
        proof {
            crate::format::lemma_preferred_format_offered(caps.formats@);
        }
        SurfaceConfiguration {
            usage: TextureUsages::render_attachment(),
            format,
            width: size.width,
            height: size.height,
            present_mode: caps.present_modes[0],
            desired_maximum_frame_latency: FRAME_LATENCY,
            alpha_mode: caps.alpha_modes[0],
            view_formats: Vec::new(),
        }
    }
}

} // verus!
