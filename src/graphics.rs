use vstd::prelude::*;
use vstd::math::max;
use crate::mesh::{
    index_bytes, indices_in_range, lemma_index_list_valid, native_bytes,
    spec_vertex_index_list, vertex_index_list, VERTEX_COUNT,
};

verus! {

/// When a rendered image becomes visible.
#[derive(Clone, Copy, Debug, PartialEq, Eq, Structural)]
pub enum PresentMode {
    /// Wait for vertical sync, queueing images in order.
    Fifo,
    /// Wait for vertical sync, replacing the queued image.
    Mailbox,
    /// Show at once, possibly tearing.
    Immediate,
}

/// The part of a surface configuration that the frame logic decides.
#[derive(Clone, Copy, Debug, PartialEq, Eq, Structural)]
pub struct SurfaceConfig {
    pub width: u32,
    pub height: u32,
    pub present_mode: PresentMode,
    pub desired_maximum_frame_latency: u32,
}

/// Number of frames that may be queued ahead of presentation.
pub const MAX_FRAME_LATENCY: u32 = 2;

/// A drawable dimension: at least one pixel.
pub open spec fn clamp_dimension(d: u32) -> u32 {
    if d >= 1 { d } else { 1 }
}

/// The configuration set up for a window of drawable size `size`.
pub open spec fn initial_config(size: (u32, u32)) -> SurfaceConfig {
    SurfaceConfig {
        width: clamp_dimension(size.0),
        height: clamp_dimension(size.1),
        present_mode: PresentMode::Fifo,
        desired_maximum_frame_latency: MAX_FRAME_LATENCY,
    }
}

fn clamp_dim(d: u32) -> (r: u32)
    ensures
        r == clamp_dimension(d),
{
    if d >= 1 { d } else { 1 }
}

/// The index format bound for an indexed draw.
#[derive(Clone, Copy, Debug, PartialEq, Eq, Structural)]
pub enum IndexFormat {
    Uint16,
    Uint32,
}

/// One step of the frame protocol, performed in order against the GPU.
#[derive(Clone, Copy, Debug, PartialEq, Eq, Structural)]
pub enum FrameStep {
    /// Acquire the next presentable surface image; failure is fatal.
    AcquireImage,
    /// Begin a render pass on that image, cleared to opaque black.
    BeginPassClearBlack,
    /// Bind the fixed pipeline.
    SetPipeline,
    /// Bind the whole vertex buffer at `slot`.
    SetVertexBuffer { slot: u32 },
    /// Bind the whole index buffer.
    SetIndexBuffer { format: IndexFormat },
    /// Draw indices `first_index..index_end`, instances `first_instance..instance_end`.
    DrawIndexed { first_index: u32, index_end: u32, base_vertex: i32, first_instance: u32, instance_end: u32 },
    /// Draw vertices `first_vertex..vertex_end`, instances `first_instance..instance_end`.
    Draw { first_vertex: u32, vertex_end: u32, first_instance: u32, instance_end: u32 },
    /// End the render pass.
    EndPass,
    /// Submit the recorded commands to the queue.
    Submit,
    /// Present the acquired image.
    Present,
}

/// The steps of one frame over `index_count` indices and `vertex_count` vertices.
pub open spec fn frame_steps(index_count: u32, vertex_count: u32) -> Seq<FrameStep> {
    seq![
        FrameStep::AcquireImage,
        FrameStep::BeginPassClearBlack,
        FrameStep::SetPipeline,
        FrameStep::SetVertexBuffer { slot: 0 },
        FrameStep::SetIndexBuffer { format: IndexFormat::Uint16 },
        FrameStep::DrawIndexed {
            first_index: 0,
            index_end: index_count,
            base_vertex: 0,
            first_instance: 0,
            instance_end: 1,
        },
        FrameStep::Draw { first_vertex: 0, vertex_end: vertex_count, first_instance: 0, instance_end: 1 },
        FrameStep::EndPass,
        FrameStep::Submit,
        FrameStep::Present,
    ]
}

/// How vertices are assembled into primitives.
#[derive(Clone, Copy, Debug, PartialEq, Eq, Structural)]
pub enum PrimitiveTopology {
    PointList,
    LineList,
    TriangleList,
    TriangleStrip,
}

/// Which winding order makes a triangle face the viewer.
#[derive(Clone, Copy, Debug, PartialEq, Eq, Structural)]
pub enum FrontFace {
    Ccw,
    Cw,
}

/// A side of a triangle.
#[derive(Clone, Copy, Debug, PartialEq, Eq, Structural)]
pub enum Face {
    Front,
    Back,
}

/// The fixed state of the render pipeline, beside its shaders.
#[derive(Clone, Copy, Debug, PartialEq, Eq, Structural)]
pub struct PipelineSettings {
    pub topology: PrimitiveTopology,
    pub front_face: FrontFace,
    pub cull_mode: Option<Face>,
    pub depth_stencil: bool,
    pub sample_count: u32,
}

/// Entry point of the vertex shader.
pub const VERTEX_ENTRY_POINT: &'static str = "vs_main";

/// Entry point of the fragment shader.
pub const FRAGMENT_ENTRY_POINT: &'static str = "fs_main";

/// Triangle lists, counter-clockwise front faces, back faces culled, no
/// depth or stencil test, one sample per pixel.
pub open spec fn spec_pipeline_settings() -> PipelineSettings {
    PipelineSettings {
        topology: PrimitiveTopology::TriangleList,
        front_face: FrontFace::Ccw,
        cull_mode: Some(Face::Back),
        depth_stencil: false,
        sample_count: 1,
    }
}

/// The fixed state that the render pipeline is compiled with.
pub fn pipeline_settings() -> (r: PipelineSettings)
    ensures
        r == spec_pipeline_settings(),
{
    PipelineSettings {
        topology: PrimitiveTopology::TriangleList,
        front_face: FrontFace::Ccw,
        cull_mode: Some(Face::Back),
        depth_stencil: false,
        sample_count: 1,
    }
}

/// What a graphics context is: its configuration and its buffer contents.
pub struct ContextView {
    pub config: SurfaceConfig,
    pub vertex_count: u32,
    pub indices: Seq<u16>,
    pub index_bytes: Seq<u8>,
}

/// The surface configuration and the GPU buffer contents of a window's
/// graphics context. The buffers are filled once, when it is created.
pub struct GraphicsContext {
    surface_configuration: SurfaceConfig,
    vertex_count: u32,
    vertex_indices: Vec<u16>,
    vertex_index_bytes: Vec<u8>,
}

impl View for GraphicsContext {
    type V = ContextView;

    closed spec fn view(&self) -> ContextView {
        ContextView {
            config: self.surface_configuration,
            vertex_count: self.vertex_count,
            indices: self.vertex_indices@,
            index_bytes: self.vertex_index_bytes@,
        }
    }
}

/// The context created for a window of drawable size `size`.
pub open spec fn initial_context(size: (u32, u32), index_bytes: Seq<u8>) -> ContextView {
    ContextView {
        config: initial_config(size),
        vertex_count: VERTEX_COUNT,
        indices: spec_vertex_index_list(),
        index_bytes,
    }
}

/// The context after a resize to `size`.
pub open spec fn resized(c: ContextView, size: (u32, u32)) -> ContextView {
    ContextView {
        config: SurfaceConfig {
            width: clamp_dimension(size.0),
            height: clamp_dimension(size.1),
            ..c.config
        },
        ..c
    }
}

/// A call on a graphics context, as far as its model is concerned.
pub enum ContextCall {
    Resize((u32, u32)),
    Draw,
}

/// The context after `calls`, made in order from `c`.
pub open spec fn after_calls(c: ContextView, calls: Seq<ContextCall>) -> ContextView
    decreases calls.len(),
{
    if calls.len() == 0 {
        c
    } else {
        let prev = after_calls(c, calls.drop_last());
        match calls.last() {
            ContextCall::Resize(size) => resized(prev, size),
            ContextCall::Draw => prev,
        }
    }
}

/// A resize leaves the surface `max(1, width)` by `max(1, height)` pixels,
/// whatever the sizes given; a resize to nothing gives one pixel by one.
pub proof fn lemma_resize_clamps(c: ContextView, width: u32, height: u32)
    ensures
        resized(c, (width, height)).config.width == max(1, width as int),
        resized(c, (width, height)).config.height == max(1, height as int),
        resized(c, (0, 0)).config.width == 1,
        resized(c, (0, 0)).config.height == 1,
{
}

/// Resizing twice to one size leaves the context as resizing once does.
pub proof fn lemma_resize_idempotent(c: ContextView, size: (u32, u32))
    ensures
        resized(resized(c, size), size) == resized(c, size),
{
}

/// Whatever resizes and draws follow the creation of a context, its vertex
/// and index buffers keep the contents that were uploaded then, and it
/// stays well formed.
pub proof fn lemma_buffers_fixed(
    size: (u32, u32),
    index_bytes: Seq<u8>,
    calls: Seq<ContextCall>,
)
    requires
        initial_context(size, index_bytes).wf(),
    ensures
        after_calls(initial_context(size, index_bytes), calls).vertex_count == VERTEX_COUNT,
        after_calls(initial_context(size, index_bytes), calls).indices == spec_vertex_index_list(),
        after_calls(initial_context(size, index_bytes), calls).index_bytes == index_bytes,
        after_calls(initial_context(size, index_bytes), calls).wf(),
    decreases calls.len(),
{
    if calls.len() > 0 {
        lemma_buffers_fixed(size, index_bytes, calls.drop_last());
    }
}

impl ContextView {
    /// The index buffer holds the index list, every index names a vertex,
    /// and the indices can be counted in a `u32`.
    pub open spec fn wf(self) -> bool {
        &&& native_bytes(self.indices, self.index_bytes)
        &&& indices_in_range(self.indices, self.vertex_count as nat)
        &&& self.indices.len() <= u32::MAX
        &&& self.config.width >= 1
        &&& self.config.height >= 1
    }
}

impl GraphicsContext {
    /// Sets up the context for a window of drawable size `window_size`:
    /// the configuration, with each dimension at least one pixel, and the
    /// contents of the vertex and index buffers.
    pub fn new(window_size: (u32, u32)) -> (r: GraphicsContext)
        ensures
            r@ == initial_context(window_size, r@.index_bytes),
            r@.wf(),
    {
        let vertex_indices = vertex_index_list();
        let vertex_index_bytes = index_bytes(&vertex_indices);
        proof {
            lemma_index_list_valid();
        }
        GraphicsContext {
            surface_configuration: SurfaceConfig {
                width: clamp_dim(window_size.0),
                height: clamp_dim(window_size.1),
                present_mode: PresentMode::Fifo,
                desired_maximum_frame_latency: MAX_FRAME_LATENCY,
            },
            vertex_count: VERTEX_COUNT,
            vertex_indices,
            vertex_index_bytes,
        }
    }

    /// Sets the surface to `new_size`, each dimension at least one pixel.
    pub fn resize(&mut self, new_size: (u32, u32))
        ensures
            final(self)@ == resized(old(self)@, new_size),
            final(self)@.config.width == clamp_dimension(new_size.0),
            final(self)@.config.height == clamp_dimension(new_size.1),
            old(self)@.wf() ==> final(self)@.wf(),
    {
        self.surface_configuration.width = clamp_dim(new_size.0);
        self.surface_configuration.height = clamp_dim(new_size.1);
    }

    /// The steps of one frame: acquire an image, clear it to black, draw the
    /// index list and then the vertex list with the fixed pipeline, submit
    /// and present. The context itself is left as it was.
    pub fn draw(&mut self) -> (r: Vec<FrameStep>)
        ensures
            final(self)@ == old(self)@,
            r@ == frame_steps(old(self)@.indices.len() as u32, old(self)@.vertex_count),
    {
        let index_count = self.vertex_indices.len() as u32;
        let r = vec![
            FrameStep::AcquireImage,
            FrameStep::BeginPassClearBlack,
            FrameStep::SetPipeline,
            FrameStep::SetVertexBuffer { slot: 0 },
            FrameStep::SetIndexBuffer { format: IndexFormat::Uint16 },
            FrameStep::DrawIndexed {
                first_index: 0,
                index_end: index_count,
                base_vertex: 0,
                first_instance: 0,
                instance_end: 1,
            },
            FrameStep::Draw {
                first_vertex: 0,
                vertex_end: self.vertex_count,
                first_instance: 0,
                instance_end: 1,
            },
            FrameStep::EndPass,
            FrameStep::Submit,
            FrameStep::Present,
        ];
        assert(r@ =~= frame_steps(index_count, self.vertex_count));
        r
    }

    /// The current surface configuration.
    pub fn surface_configuration(&self) -> (r: SurfaceConfig)
        ensures
            r == self@.config,
    {
        self.surface_configuration
    }

    /// Number of vertices in the vertex buffer.
    pub fn vertex_count(&self) -> (r: u32)
        ensures
            r == self@.vertex_count,
    {
        self.vertex_count
    }

    /// The contents of the index buffer.
    pub fn vertex_index_bytes(&self) -> (r: Vec<u8>)
        ensures
            r@ == self@.index_bytes,
    {
        self.vertex_index_bytes.clone()
    }
}

} // verus!
