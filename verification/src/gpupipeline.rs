//! The render state and the steps that a frame and a resize take.
//!
//! `State` holds what the renderer knows between events: the surface
//! configuration, the window's size, the last uniform block, and the
//! descriptions of the resources that were created for it. The caller owns the
//! GPU objects themselves: it acquires the frame and reads the clock, hands
//! the outcome to `render`, and carries out what `render` answers.

use vstd::prelude::*;
use crate::config::{
    CompositeAlphaMode, Configuration, DefaultConf, IndexFormat, PhysicalSize, PresentMode,
    SurfaceCapabilities, SurfaceConfiguration, TextureUsages, FRAME_LATENCY,
};
use crate::format::{srgb_variant, view_format};
use crate::model::{count, INDEX_COUNT, INDEX_SIZE, VERTEX_COUNT};
use crate::pipeline::{
    build, uniform_bind_group, BindGroupDescriptor, BindGroupEntry, BufferDescriptor,
    BufferUsages, Pipeline, UNIFORM_BINDING, UNIFORM_SIZE,
};

verus! {

/// The graphics context could not be set up.
#[derive(Clone, Copy, Debug, PartialEq, Eq, Structural)]
pub enum FatalError {
    /// No adapter or device is to be had that can present to the window's
    /// surface.
    DeviceUnavailable,
}

/// Why a surface did not yield the next frame.
#[derive(Clone, Copy, Debug, PartialEq, Eq, Structural)]
pub enum SurfaceError {
    Timeout,
    Outdated,
    Lost,
    OutOfMemory,
    Other,
}

/// What the renderer is doing between two events.
#[derive(Clone, Copy, Debug, PartialEq, Eq, Structural)]
pub enum Phase {
    /// The last redraw, if there was one, presented its frame.
    Ready,
    /// The surface did not yield a frame for the last redraw.
    FrameLost,
}

/// The time that has passed since the context was created: whole seconds and
/// the nanoseconds beyond them.
#[derive(Clone, Copy, Debug, PartialEq, Eq, Structural)]
pub struct Elapsed {
    pub secs: u64,
    pub subsec_nanos: u32,
}

impl Elapsed {
    /// The time in nanoseconds.
    pub open spec fn nanos(self) -> nat {
        (self.secs * 1_000_000_000 + self.subsec_nanos) as nat
    }
}

/// The block of values that the fragment stage reads: the size of the screen
/// in pixels, the time since the context was created, and a padding word that
/// brings the block to sixteen bytes. The shader takes each as a 32-bit float.
#[derive(Clone, Copy, Debug)]
pub struct Uniforms {
    pub screen_size: [u32; 2],
    pub time: Elapsed,
    pub _padding: u32,
}

impl Uniforms {
    /// The block for a window of the given size at the given time.
    pub open spec fn spec_update(elapsed: Elapsed, size: PhysicalSize) -> Uniforms {
        Uniforms { screen_size: [size.width, size.height], time: elapsed, _padding: 0 }
    }

    /// The block before the first frame: all zero.
    pub open spec fn spec_zero() -> Uniforms {
        Uniforms {
            screen_size: [0u32, 0u32],
            time: Elapsed { secs: 0, subsec_nanos: 0 },
            _padding: 0,
        }
    }

    /// The block before the first frame: all zero.
    #[verifier::when_used_as_spec(spec_zero)]
    pub fn zero() -> (r: Uniforms)
        ensures
            r == Self::spec_zero(),
    {
        Uniforms {
            screen_size: [0u32, 0u32],
            time: Elapsed { secs: 0, subsec_nanos: 0 },
            _padding: 0,
        }
    }

    /// The block for a window of the given size at the given time. The
    /// padding is zero.
    #[verifier::when_used_as_spec(spec_update)]
    pub fn update(elapsed: Elapsed, size: PhysicalSize) -> (r: Uniforms)
        ensures
            r == Self::spec_update(elapsed, size),
            r.screen_size[0] == size.width,
            r.screen_size[1] == size.height,
            r.time == elapsed,
            r._padding == 0,
    {
        Uniforms { screen_size: [size.width, size.height], time: elapsed, _padding: 0 }
    }
}

/// The GPU backends that an instance may use, one flag each.
#[derive(Clone, Copy, Debug, PartialEq, Eq, Structural)]
pub struct Backends {
    pub vulkan: bool,
    pub gl: bool,
    pub metal: bool,
    pub dx12: bool,
    pub browser_webgpu: bool,
}

/// The color that a frame is cleared to, one whole number for each channel.
#[derive(Clone, Copy, Debug, PartialEq, Eq, Structural)]
pub struct ClearColor {
    pub r: i32,
    pub g: i32,
    pub b: i32,
    pub a: i32,
}

/// What one frame does: the view it draws through, the color it clears to,
/// the uniform block it writes at the start of the uniform buffer, and the one
/// indexed draw it issues.
#[derive(Debug)]
pub struct Frame {
    pub view_format: wgpu::TextureFormat,
    pub clear_color: ClearColor,
    pub uniforms: Uniforms,
    pub uniforms_offset: u64,
    pub bind_group_index: u32,
    pub vertex_buffer_slot: u32,
    pub index_format: IndexFormat,
    pub first_index: u32,
    pub index_count: u32,
    pub base_vertex: i32,
    pub first_instance: u32,
    pub instance_count: u32,
}

/// What the caller does after a redraw was decided.
#[derive(Debug)]
pub enum RenderAction {
    /// Encode, submit and present this frame.
    Draw(Frame),
    /// Present nothing this time.
    Skip,
    /// Stop the process and report why the surface gave no frame.
    Abort(SurfaceError),
}

/// What the renderer knows between two events.
#[derive(Debug)]
pub struct State {
    pub config: SurfaceConfiguration,
    pub index_buffer: BufferDescriptor,
    pub num_indices: u32,
    pub num_vertices: u32,
    pub pipeline: Pipeline,
    pub size: PhysicalSize,
    pub surface_format: wgpu::TextureFormat,
    pub uniforms: Uniforms,
    pub uniforms_bind_group: BindGroupDescriptor,
    pub uniforms_buffer: BufferDescriptor,
    pub vertex_buffer: BufferDescriptor,
    pub phase: Phase,
}

/// Turns what an acquisition found into a result: whatever was not found,
/// the device is unavailable.
pub fn require<T>(found: Option<T>) -> (r: Result<T, FatalError>)
    ensures
        found is Some ==> r == Ok::<T, FatalError>(found->0),
        found is None ==> r == Err::<T, FatalError>(FatalError::DeviceUnavailable),
{
    match found {
        Some(value) => Ok(value),
        None => Err(FatalError::DeviceUnavailable),
    }
}

impl State {
    /// The backends of first rank: Vulkan, Metal, DX12 and the browser's
    /// WebGPU.
    pub open spec fn spec_backends() -> Backends {
        Backends { vulkan: true, gl: false, metal: true, dx12: true, browser_webgpu: true }
    }

    /// The backends that the instance is restricted to.
    #[verifier::when_used_as_spec(spec_backends)]
    pub fn backends() -> (r: Backends)
        ensures
            r == Self::spec_backends(),
    {
        Backends { vulkan: true, gl: false, metal: true, dx12: true, browser_webgpu: true }
    }

    /// The background of every frame: black, with zero alpha.
    pub open spec fn spec_clear_color() -> ClearColor {
        ClearColor { r: 0, g: 0, b: 0, a: 0 }
    }

    /// The background of every frame. Each color channel is an 8-bit level
    /// divided by 255 in whole numbers, which leaves zero.
    #[verifier::when_used_as_spec(spec_clear_color)]
    pub fn clear_color() -> (r: ClearColor)
        ensures
            r == Self::spec_clear_color(),
    {
        ClearColor { r: 109 / 255, g: 208 / 255, b: 250 / 255, a: 0 }
    }

    /// The resources are those of the quad.
    pub open spec fn resources_wf(&self) -> bool {
        &&& self.num_vertices == VERTEX_COUNT
        &&& self.num_indices == INDEX_COUNT
        &&& self.vertex_buffer.label@ == "vertex_buffer"@
        &&& self.vertex_buffer.size == self.num_vertices * 24
        &&& self.vertex_buffer.usage == (BufferUsages {
            copy_dst: false,
            index: false,
            vertex: true,
            uniform: false,
        })
        &&& self.index_buffer.label@ == "index_buffer"@
        &&& self.index_buffer.size == self.num_indices * INDEX_SIZE
        &&& self.index_buffer.usage == (BufferUsages {
            copy_dst: false,
            index: true,
            vertex: false,
            uniform: false,
        })
        &&& self.uniforms_buffer.label@ == "uniforms_buffer"@
        &&& self.uniforms_buffer.size == UNIFORM_SIZE
        &&& self.uniforms_buffer.usage == (BufferUsages {
            copy_dst: true,
            index: false,
            vertex: false,
            uniform: true,
        })
        &&& self.uniforms_bind_group.label@ == "uniforms_bind_group"@
        &&& self.uniforms_bind_group.entries@ == seq![BindGroupEntry { binding: UNIFORM_BINDING }]
    }

    /// What holds of a state between events: the surface is configured with
    /// the window's current size and with the format that the pipeline draws
    /// to, the resources are those of the quad, and the padding of the uniform
    /// block is zero.
    pub open spec fn wf(&self) -> bool {
        &&& self.config.width == self.size.width
        &&& self.config.height == self.size.height
        &&& self.config.format == self.surface_format
        &&& self.config.usage == TextureUsages::render_attachment()
        &&& self.config.desired_maximum_frame_latency == FRAME_LATENCY
        &&& self.pipeline.built_for(self.surface_format)
        &&& self.resources_wf()
        &&& self.uniforms._padding == 0
    }

    /// The configuration that a surface of format `format` is given when the
    /// window has the size `size`: presented in step with the display, alpha
    /// left to the surface, and the sRGB form of the format allowed for views.
    pub open spec fn reconfigured(
        format: wgpu::TextureFormat,
        size: PhysicalSize,
        r: SurfaceConfiguration,
    ) -> bool {
        &&& r.usage == TextureUsages::render_attachment()
        &&& r.format == format
        &&& r.view_formats@ == seq![srgb_variant(format)]
        &&& r.alpha_mode == CompositeAlphaMode::Auto
        &&& r.width == size.width
        &&& r.height == size.height
        &&& r.desired_maximum_frame_latency == FRAME_LATENCY
        &&& r.present_mode == PresentMode::AutoVsync
    }

    /// Sets the render state up for a window of the given size, from what its
    /// surface reports. Fails exactly when the surface offers no format, no
    /// present mode or no alpha mode, which is what a surface reports that the
    /// adapter cannot present to.
    pub fn new(caps: &SurfaceCapabilities, size: PhysicalSize) -> (r: Result<State, FatalError>)
        ensures
            !caps.is_usable() ==> r == Err::<State, FatalError>(FatalError::DeviceUnavailable),
            caps.is_usable() ==> r is Ok,
            r matches Ok(state) ==> {
                &&& state.wf()
                &&& DefaultConf::spec_surface_config(*caps, size, state.config)
                &&& state.size == size
                &&& state.uniforms == Uniforms::zero()
                &&& state.phase == Phase::Ready
            },
    {
        if !caps.is_usable() {
            return Err(FatalError::DeviceUnavailable);
        }
        let config = DefaultConf::surface_config(caps, &size);
        let surface_format = config.format;
        let pipeline = build(surface_format);
        let num_vertices = count(VERTEX_COUNT).unwrap();
        let num_indices = count(INDEX_COUNT).unwrap();
        let vertex_stride = pipeline.render_pipeline.buffers[0].array_stride;
        Ok(
            State {
                config,
                index_buffer: BufferDescriptor {
                    label: "index_buffer",
                    size: num_indices as u64 * INDEX_SIZE,
                    usage: BufferUsages { copy_dst: false, index: true, vertex: false, uniform: false },
                },
                num_indices,
                num_vertices,
                pipeline,
                size,
                surface_format,
                uniforms: Uniforms::zero(),
                uniforms_bind_group: uniform_bind_group(),
                uniforms_buffer: BufferDescriptor {
                    label: "uniforms_buffer",
                    size: UNIFORM_SIZE,
                    usage: BufferUsages { copy_dst: true, index: false, vertex: false, uniform: true },
                },
                vertex_buffer: BufferDescriptor {
                    label: "vertex_buffer",
                    size: num_vertices as u64 * vertex_stride,
                    usage: BufferUsages { copy_dst: false, index: false, vertex: true, uniform: false },
                },
                phase: Phase::Ready,
            },
        )
    }

    /// The configuration that the surface is given for the current size.
    pub fn configure_surface(&self) -> (r: SurfaceConfiguration)
        ensures
            Self::reconfigured(self.surface_format, self.size, r),
    {
        let mut view_formats: Vec<wgpu::TextureFormat> = Vec::new();
        view_formats.push(view_format(&self.surface_format));
        assert(view_formats@ =~= seq![srgb_variant(self.surface_format)]);
        SurfaceConfiguration {
            usage: TextureUsages::render_attachment(),
            format: self.surface_format,
            view_formats,
            alpha_mode: CompositeAlphaMode::Auto,
            width: self.size.width,
            height: self.size.height,
            desired_maximum_frame_latency: FRAME_LATENCY,
            present_mode: PresentMode::AutoVsync,
        }
    }

    /// The state after the window took the size `new_size`.
    pub open spec fn resized(self, new_size: PhysicalSize, r: State) -> bool {
        &&& Self::reconfigured(self.surface_format, new_size, r.config)
        &&& r.size == new_size
        &&& r.index_buffer == self.index_buffer
        &&& r.num_indices == self.num_indices
        &&& r.num_vertices == self.num_vertices
        &&& r.pipeline == self.pipeline
        &&& r.surface_format == self.surface_format
        &&& r.uniforms == self.uniforms
        &&& r.uniforms_bind_group == self.uniforms_bind_group
        &&& r.uniforms_buffer == self.uniforms_buffer
        &&& r.vertex_buffer == self.vertex_buffer
        &&& r.phase == Phase::Ready
    }

    /// Takes the window's new size and reconfigures the surface for it, whatever
    /// the size. The caller applies the new `config` to the surface before the
    /// next frame.
    pub fn resize(&mut self, new_size: PhysicalSize)
        ensures
            old(self).wf() ==> final(self).wf(),
            old(self).resized(new_size, *final(self)),
            final(self).config.width == new_size.width,
            final(self).config.height == new_size.height,
    {
        self.size = new_size;
        self.config = self.configure_surface();
        self.phase = Phase::Ready;
    }

    /// The frame that is drawn at the time `elapsed`.
    pub open spec fn frame(self, elapsed: Elapsed, r: Frame) -> bool {
        &&& r.view_format == srgb_variant(self.surface_format)
        &&& r.clear_color == Self::clear_color()
        &&& r.uniforms == Uniforms::update(elapsed, self.size)
        &&& r.uniforms_offset == 0
        &&& r.bind_group_index == 0
        &&& r.vertex_buffer_slot == 0
        &&& r.index_format == IndexFormat::Uint16
        &&& r.first_index == 0
        &&& r.index_count == self.num_indices
        &&& r.base_vertex == 0
        &&& r.first_instance == 0
        &&& r.instance_count == 1
    }

    /// The state after a redraw at the time `elapsed`, for which the surface
    /// yielded a frame or failed to. A frame that is drawn takes a new uniform
    /// block; a lost one leaves the block as it was.
    pub open spec fn after_render(self, acquired: Result<(), SurfaceError>, elapsed: Elapsed) -> State {
        match acquired {
            Ok(_) => State {
                uniforms: Uniforms::update(elapsed, self.size),
                phase: Phase::Ready,
                ..self
            },
            Err(_) => State { phase: Phase::FrameLost, ..self },
        }
    }

    /// What `render` answers: a frame where the surface yielded one; where it
    /// did not, the error in a debug build, and nothing to do otherwise.
    pub open spec fn answers(
        self,
        acquired: Result<(), SurfaceError>,
        elapsed: Elapsed,
        debug: bool,
        action: RenderAction,
    ) -> bool {
        match acquired {
            Ok(_) => action matches RenderAction::Draw(frame) && self.frame(elapsed, frame),
            Err(e) => if debug {
                action matches RenderAction::Abort(reported) && reported == e
            } else {
                action is Skip
            },
        }
    }

    /// Decides one redraw. `acquired` says whether the surface yielded the
    /// next frame, `elapsed` is the time since the context was created, and
    /// `debug` says whether a lost frame is fatal.
    pub fn render(&mut self, acquired: Result<(), SurfaceError>, elapsed: Elapsed, debug: bool) -> (action:
        RenderAction)
        ensures
            old(self).wf() ==> final(self).wf(),
            *final(self) == old(self).after_render(acquired, elapsed),
            old(self).answers(acquired, elapsed, debug, action),
            action matches RenderAction::Draw(frame) ==> frame.uniforms == final(self).uniforms,
            old(self).uniforms.time.nanos() <= elapsed.nanos() ==> old(self).uniforms.time.nanos()
                <= final(self).uniforms.time.nanos() <= elapsed.nanos(),
    {
        match acquired {
            Err(e) => {
                self.phase = Phase::FrameLost;
                if debug {
                    RenderAction::Abort(e)
                } else {
                    RenderAction::Skip
                }
            },
            Ok(_) => {
                self.uniforms = Uniforms::update(elapsed, self.size);
                self.phase = Phase::Ready;
                RenderAction::Draw(
                    Frame {
                        view_format: view_format(&self.surface_format),
                        clear_color: Self::clear_color(),
                        uniforms: self.uniforms,
                        uniforms_offset: 0,
                        bind_group_index: 0,
                        vertex_buffer_slot: 0,
                        index_format: IndexFormat::Uint16,
                        first_index: 0,
                        index_count: self.num_indices,
                        base_vertex: 0,
                        first_instance: 0,
                        instance_count: 1,
                    },
                )
            },
        }
    }
}

impl State {
    /// The state after a run of redraws, each given by whether the surface
    /// yielded a frame and by the time that was read for it.
    pub open spec fn after_redraws(self, redraws: Seq<(Result<(), SurfaceError>, Elapsed)>) -> State
        decreases redraws.len(),
    {
        if redraws.len() == 0 {
            self
        } else {
            self.after_redraws(redraws.drop_last()).after_render(redraws.last().0, redraws.last().1)
        }
    }
}

/// The times read for a run of redraws do not go back, and none lies before
/// the time `since`.
pub open spec fn runs_forward(since: Elapsed, redraws: Seq<(Result<(), SurfaceError>, Elapsed)>) -> bool {
    &&& forall|i: int| 0 <= i < redraws.len() ==> since.nanos() <= (#[trigger] redraws[i]).1.nanos()
    &&& forall|i: int, j: int|
        0 <= i <= j < redraws.len() ==> (#[trigger] redraws[i]).1.nanos() <= (
        #[trigger] redraws[j]).1.nanos()
}

/// After a run of redraws whose times do not go back, the time in the
/// uniform block is no earlier than it was at the start and no later than the
/// last time read.
pub proof fn lemma_time_bounded(state: State, redraws: Seq<(Result<(), SurfaceError>, Elapsed)>)
    requires
        runs_forward(state.uniforms.time, redraws),
    ensures
        state.uniforms.time.nanos() <= state.after_redraws(redraws).uniforms.time.nanos(),
        redraws.len() > 0 ==> state.after_redraws(redraws).uniforms.time.nanos()
            <= redraws.last().1.nanos(),
    decreases redraws.len(),
{
    if redraws.len() > 0 {
        let before = redraws.drop_last();
        assert forall|i: int| 0 <= i < before.len() implies state.uniforms.time.nanos() <= (
        #[trigger] before[i]).1.nanos() by {
            assert(before[i] == redraws[i]);
        }
        assert forall|i: int, j: int| 0 <= i <= j < before.len() implies (#[trigger] before[i]).1.nanos()
            <= (#[trigger] before[j]).1.nanos() by {
            assert(before[i] == redraws[i]);
            assert(before[j] == redraws[j]);
        }
        lemma_time_bounded(state, before);
        if before.len() > 0 {
            assert(before.last() == redraws[before.len() - 1]);
        }
    }
}

/// The time in the uniform block never goes back from one redraw to the
/// next, as long as the clock that is read for them does not: after `n + 1`
/// redraws it is no earlier than after the first `n`.
pub proof fn lemma_time_monotonic(
    state: State,
    redraws: Seq<(Result<(), SurfaceError>, Elapsed)>,
    n: int,
)
    requires
        runs_forward(state.uniforms.time, redraws),
        0 <= n < redraws.len(),
    ensures
        state.after_redraws(redraws.take(n)).uniforms.time.nanos() <= state.after_redraws(
            redraws.take(n + 1),
        ).uniforms.time.nanos(),
{
    let before = redraws.take(n);
    let upto = redraws.take(n + 1);
    assert(upto.drop_last() =~= before);
    assert(upto.last() == redraws[n]);
    assert forall|i: int| 0 <= i < before.len() implies state.uniforms.time.nanos() <= (
    #[trigger] before[i]).1.nanos() by {
        assert(before[i] == redraws[i]);
    }
    assert forall|i: int, j: int| 0 <= i <= j < before.len() implies (#[trigger] before[i]).1.nanos()
        <= (#[trigger] before[j]).1.nanos() by {
        assert(before[i] == redraws[i]);
        assert(before[j] == redraws[j]);
    }
    lemma_time_bounded(state, before);
    if n > 0 {
        assert(before.last() == redraws[n - 1]);
    }
}

/// A frame that is drawn after the window took a new size carries exactly
/// that size in its uniform block, and the surface is configured with it.
pub proof fn lemma_frame_has_window_size(
    state: State,
    new_size: PhysicalSize,
    resized: State,
    elapsed: Elapsed,
)
    requires
        state.resized(new_size, resized),
    ensures
        resized.config.width == new_size.width,
        resized.config.height == new_size.height,
        resized.after_render(Ok(()), elapsed).uniforms.screen_size[0] == new_size.width,
        resized.after_render(Ok(()), elapsed).uniforms.screen_size[1] == new_size.height,
        resized.after_render(Ok(()), elapsed).uniforms.time == elapsed,
        resized.after_render(Ok(()), elapsed).uniforms._padding == 0,
{
}

} // verus!
