//! The render pipeline and the resources it draws from, as the descriptions
//! that the GPU layer creates them from.

use vstd::prelude::*;
use crate::config::{Configuration, DefaultConf, MultisampleState, PrimitiveState};
use crate::model::{vertex_formats, vertex_layout, VertexBufferLayout};

verus! {

/// The name of the vertex stage's entry point in the shader.
pub const VERTEX_ENTRY_POINT: &'static str = "vs_main";

/// The name of the fragment stage's entry point in the shader.
pub const FRAGMENT_ENTRY_POINT: &'static str = "fs_main";

/// The binding slot of the uniform buffer.
pub const UNIFORM_BINDING: u32 = 0;

/// The size of the uniform block in bytes: four 32-bit values.
pub const UNIFORM_SIZE: u64 = 16;

/// The alignment that a uniform buffer's layout asks of a block.
pub const UNIFORM_ALIGNMENT: u64 = 16;

/// The ways a buffer may be used, one flag each.
#[derive(Clone, Copy, Debug, PartialEq, Eq, Structural)]
pub struct BufferUsages {
    pub copy_dst: bool,
    pub index: bool,
    pub vertex: bool,
    pub uniform: bool,
}

/// A buffer that is created with its contents: its label, its size in bytes
/// and its usage.
#[derive(Clone, Copy, Debug)]
pub struct BufferDescriptor {
    pub label: &'static str,
    pub size: u64,
    pub usage: BufferUsages,
}

/// The shader stages that can see a binding, one flag each.
#[derive(Clone, Copy, Debug, PartialEq, Eq, Structural)]
pub struct ShaderStages {
    pub vertex: bool,
    pub fragment: bool,
    pub compute: bool,
}

/// How a shader reads a bound buffer.
#[derive(Clone, Copy, Debug, PartialEq, Eq, Structural)]
pub enum BufferBindingType {
    Uniform,
    Storage { read_only: bool },
}

/// One buffer binding of a bind-group layout.
#[derive(Clone, Copy, Debug, PartialEq, Eq, Structural)]
pub struct BindGroupLayoutEntry {
    pub binding: u32,
    pub visibility: ShaderStages,
    pub ty: BufferBindingType,
    pub has_dynamic_offset: bool,
    pub min_binding_size: Option<u64>,
    pub count: Option<u32>,
}

/// The layout of a bind group.
#[derive(Debug)]
pub struct BindGroupLayoutDescriptor {
    pub label: &'static str,
    pub entries: Vec<BindGroupLayoutEntry>,
}

/// One entry of a bind group: the whole of the uniform buffer, bound to a
/// slot.
#[derive(Clone, Copy, Debug, PartialEq, Eq, Structural)]
pub struct BindGroupEntry {
    pub binding: u32,
}

/// A bind group.
#[derive(Debug)]
pub struct BindGroupDescriptor {
    pub label: &'static str,
    pub entries: Vec<BindGroupEntry>,
}

/// The layout of a pipeline: how many bind-group layouts it refers to, and
/// how many push-constant ranges.
#[derive(Clone, Copy, Debug)]
pub struct PipelineLayoutDescriptor {
    pub label: &'static str,
    pub bind_group_layouts: u32,
    pub push_constant_ranges: u32,
}

/// How a fragment's color is combined with what the target holds.
#[derive(Clone, Copy, Debug, PartialEq, Eq, Structural)]
pub enum BlendState {
    Replace,
    AlphaBlending,
    PremultipliedAlphaBlending,
}

/// The channels of a color target that are written, one flag each.
#[derive(Clone, Copy, Debug, PartialEq, Eq, Structural)]
pub struct ColorWrites {
    pub red: bool,
    pub green: bool,
    pub blue: bool,
    pub alpha: bool,
}

/// One color target of a render pipeline.
#[derive(Debug)]
pub struct ColorTargetState {
    pub format: wgpu::TextureFormat,
    pub blend: Option<BlendState>,
    pub write_mask: ColorWrites,
}

/// A render pipeline.
#[derive(Debug)]
pub struct RenderPipelineDescriptor {
    pub label: &'static str,
    pub vertex_entry_point: &'static str,
    pub fragment_entry_point: &'static str,
    pub buffers: Vec<VertexBufferLayout>,
    pub targets: Vec<Option<ColorTargetState>>,
    pub primitive: PrimitiveState,
    pub depth_stencil: bool,
    pub multisample: MultisampleState,
    pub multiview: Option<u32>,
}

/// What `build` makes: the layout of the uniform bind group, the layout of
/// the pipeline, and the pipeline.
#[derive(Debug)]
pub struct Pipeline {
    pub bind_group_layout: BindGroupLayoutDescriptor,
    pub layout: PipelineLayoutDescriptor,
    pub render_pipeline: RenderPipelineDescriptor,
}

/// The one binding of the uniform bind group: a uniform buffer that the
/// fragment stage sees, without a dynamic offset.
pub open spec fn uniform_entry() -> BindGroupLayoutEntry {
    BindGroupLayoutEntry {
        binding: UNIFORM_BINDING,
        visibility: ShaderStages { vertex: false, fragment: true, compute: false },
        ty: BufferBindingType::Uniform,
        has_dynamic_offset: false,
        min_binding_size: None,
        count: None,
    }
}

impl RenderPipelineDescriptor {
    /// The pipeline draws the quad's vertices to one color target of the
    /// format `surface_format`, replacing what the target holds in all four
    /// channels, without a depth or stencil attachment.
    pub open spec fn draws_to(&self, surface_format: wgpu::TextureFormat) -> bool {
        &&& self.label@ == "render_pipeline"@
        &&& self.vertex_entry_point@ == VERTEX_ENTRY_POINT@
        &&& self.fragment_entry_point@ == FRAGMENT_ENTRY_POINT@
        &&& self.buffers@.len() == 1
        &&& self.buffers@[0].packs(vertex_formats())
        &&& self.buffers@[0].array_stride == 24
        &&& self.targets@.len() == 1
        &&& self.targets@[0] matches Some(target)
        &&& target.format == surface_format
        &&& target.blend == Some(BlendState::Replace)
        &&& target.write_mask == (ColorWrites { red: true, green: true, blue: true, alpha: true })
        &&& self.primitive == DefaultConf::spec_primitives()
        &&& !self.depth_stencil
        &&& self.multisample == DefaultConf::spec_multisample()
        &&& self.multiview is None
    }
}

impl Pipeline {
    /// The pipeline is the one that `build` makes for `surface_format`.
    pub open spec fn built_for(&self, surface_format: wgpu::TextureFormat) -> bool {
        &&& self.bind_group_layout.label@ == "uniforms_bindgroup_layout"@
        &&& self.bind_group_layout.entries@ == seq![uniform_entry()]
        &&& self.layout.label@ == "pipeline_layout"@
        &&& self.layout.bind_group_layouts == 1
        &&& self.layout.push_constant_ranges == 0
        &&& self.render_pipeline.draws_to(surface_format)
    }
}

/// Describes the render pipeline for a surface of the given format, with the
/// layouts it refers to.
pub fn build(surface_format: wgpu::TextureFormat) -> (r: Pipeline)
    ensures
        r.built_for(surface_format),
{
    let mut entries: Vec<BindGroupLayoutEntry> = Vec::new();
    entries.push(
        BindGroupLayoutEntry {
            binding: UNIFORM_BINDING,
            visibility: ShaderStages { vertex: false, fragment: true, compute: false },
            ty: BufferBindingType::Uniform,
            has_dynamic_offset: false,
            min_binding_size: None,
            count: None,
        },
    );
    assert(entries@ =~= seq![uniform_entry()]);
    let mut buffers: Vec<VertexBufferLayout> = Vec::new();
    buffers.push(vertex_layout());
    let mut targets: Vec<Option<ColorTargetState>> = Vec::new();
    targets.push(
        Some(
            ColorTargetState {
                format: surface_format,
                blend: Some(BlendState::Replace),
                write_mask: ColorWrites { red: true, green: true, blue: true, alpha: true },
            },
        ),
    );
    Pipeline {
        bind_group_layout: BindGroupLayoutDescriptor {
            label: "uniforms_bindgroup_layout",
            entries,
        },
        layout: PipelineLayoutDescriptor {
            label: "pipeline_layout",
            bind_group_layouts: 1,
            push_constant_ranges: 0,
        },
        render_pipeline: RenderPipelineDescriptor {
            label: "render_pipeline",
            vertex_entry_point: VERTEX_ENTRY_POINT,
            fragment_entry_point: FRAGMENT_ENTRY_POINT,
            buffers,
            targets,
            primitive: DefaultConf::primitives(),
            depth_stencil: false,
            multisample: DefaultConf::multisample(),
            multiview: None,
        },
    }
}

/// The bind group that goes with the pipeline: the uniform buffer at the
/// pipeline's one binding.
pub fn uniform_bind_group() -> (r: BindGroupDescriptor)
    ensures
        r.label@ == "uniforms_bind_group"@,
        r.entries@ == seq![BindGroupEntry { binding: UNIFORM_BINDING }],
{
    let mut entries: Vec<BindGroupEntry> = Vec::new();
    entries.push(BindGroupEntry { binding: UNIFORM_BINDING });
    assert(entries@ =~= seq![BindGroupEntry { binding: UNIFORM_BINDING }]);
    BindGroupDescriptor { label: "uniforms_bind_group", entries }
}

} // verus!
