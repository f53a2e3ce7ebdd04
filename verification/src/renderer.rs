//! The composition root: owns device, surface, render pass, pipeline,
//! vertex buffer and frame slots; builds them in dependency order at
//! startup, drives the per-frame path, and tears everything down in strict
//! reverse-dependency order.

use vstd::prelude::*;
use crate::actions::GpuAction;
use crate::buffer::{
    bind_buffer, plan_allocation, request_buffer, BufferError, GpuBuffer, VERTEX_USAGE,
};
use crate::extent::{clamp_extent_spec, Extent2D, SurfaceCaps};
use crate::frame::{begin_frame_ok, FenceWait, FrameError, FrameScheduler};
use crate::memory::{selected_memory_type, MemoryRequirements, MemoryTypeInfo, CPU_VISIBLE};
use crate::pipeline::{
    create_pipeline, CullMode, FrontFace, PipelineConfig, PipelineDescriptor, PipelineError,
    PrimitiveTopology, ShaderCompileResult, ShaderStage, VertexAttribute, VertexLayout,
};
use crate::swapchain::{
    configure_actions, configure_next, configure_result, selected_format, select_format,
    AcquireOutcome, PresentOutcome, SurfaceFormat, SwapchainError, SwapchainManager,
};

verus! {

/// The number of frames in flight: a design constant, never
/// runtime-variable.
pub const FRAMES_IN_FLIGHT: usize = 3;

/// Bytes of one vertex: a three-component position and a four-component
/// color, four bytes per component.
pub const VERTEX_BYTES: u64 = 28;

/// Bytes of one triangle: three vertices.
pub const TRIANGLE_BYTES: u64 = 3 * VERTEX_BYTES;

/// The fixed capacity of the vertex buffer, in triangles; growth means
/// replacing the buffer, never resizing it.
pub const MAX_TRIANGLES: u64 = 1024;

/// The byte length the vertex buffer is created with.
pub const VERTEX_BUFFER_BYTES: u64 = MAX_TRIANGLES * TRIANGLE_BYTES;

/// One queue family the adapter reports: whether it can run graphics work
/// and whether it can present to the surface.
#[derive(Clone, Copy, Debug, PartialEq, Eq, Structural)]
pub struct QueueFamilyInfo {
    pub supports_graphics: bool,
    pub supports_surface: bool,
}

/// Everything the device and adapter report at startup that the engine's
/// decisions depend on.
#[derive(Debug)]
pub struct DeviceProfile {
    pub queue_families: Vec<QueueFamilyInfo>,
    pub surface_formats: Vec<SurfaceFormat>,
    pub caps: SurfaceCaps,
    pub memory_types: Vec<MemoryTypeInfo>,
}

impl DeviceProfile {
    /// The capability bounds are non-degenerate and the memory-type count
    /// fits the requirement mask's width.
    pub open spec fn wf(self) -> bool {
        &&& self.caps.wf()
        &&& self.memory_types@.len() <= 64
    }
}

/// The device responses consumed during startup, in the order the
/// construction sequence asks for them.
#[derive(Debug)]
pub struct StartupOutcomes {
    /// Whether opening the device on the selected queue family succeeded.
    pub device_open: bool,
    /// The surface's verdict on the initial swapchain configuration.
    pub swapchain_applied: bool,
    /// What the shader compiler returned for the vertex shader source.
    pub vertex_shader: ShaderCompileResult,
    /// What the shader compiler returned for the fragment shader source.
    pub fragment_shader: ShaderCompileResult,
    /// The device's verdict on the assembled pipeline descriptor.
    pub pipeline_accepted: bool,
    /// What the device reported the created vertex buffer needs.
    pub vertex_buffer_requirements: MemoryRequirements,
    /// Whether creating the vertex buffer handle succeeded.
    pub buffer_created: bool,
    /// Whether allocating the backing memory succeeded.
    pub allocation_ok: bool,
}

/// How startup fails. Every variant aborts initialization; none is retried.
#[derive(Clone, Copy, Debug, PartialEq, Eq, Structural)]
pub enum StartupError {
    /// No queue family supports both graphics work and the surface.
    NoCompatibleQueueFamily,
    /// The device could not be opened.
    DeviceOpenFailed,
    /// The initial swapchain configuration was rejected.
    Swapchain(SwapchainError),
    /// Shader compilation or pipeline creation failed.
    Pipeline(PipelineError),
    /// The vertex buffer could not be created, matched or backed.
    Buffer(BufferError),
}

/// The load behavior of the render pass's color attachment.
#[derive(Clone, Copy, Debug, PartialEq, Eq, Structural)]
pub enum LoadOp {
    Clear,
    Load,
}

/// The store behavior of the render pass's color attachment.
#[derive(Clone, Copy, Debug, PartialEq, Eq, Structural)]
pub enum StoreOp {
    Store,
    DontCare,
}

/// The render pass: one single-sampled color attachment, cleared on load
/// and stored for presentation, with no depth attachment.
#[derive(Clone, Copy, Debug, PartialEq, Eq, Structural)]
pub struct RenderPassDesc {
    pub color_load: LoadOp,
    pub color_store: StoreOp,
    pub samples: u32,
    pub has_depth: bool,
}

/// The device responses one frame consumes.
#[derive(Clone, Copy, Debug, PartialEq, Eq, Structural)]
pub struct FrameOutcomes {
    /// What acquiring the next presentable image returned.
    pub acquire: AcquireOutcome,
    /// The outcome of the bounded wait on the slot's fence.
    pub fence_wait: FenceWait,
    /// What presenting the submitted image returned.
    pub present: PresentOutcome,
    /// The surface's verdict when this frame has to reconfigure the
    /// swapchain.
    pub reconfigure_applied: bool,
}

/// How one frame ended.
#[derive(Clone, Copy, Debug, PartialEq, Eq, Structural)]
pub enum FrameStatus {
    /// The frame was recorded, submitted and presented.
    Completed { slot: usize },
    /// The frame was recorded and submitted, but presentation reported the
    /// swapchain outdated, so it was reconfigured.
    CompletedOutdated { slot: usize },
    /// Acquisition reported the swapchain outdated or timed out: nothing
    /// was submitted, the swapchain was reconfigured, and the counter still
    /// advanced.
    SkippedOutdated,
}

/// What one frame decided: its status and the device commands to perform.
#[derive(Debug, PartialEq, Eq)]
pub struct FrameReport {
    pub status: FrameStatus,
    pub actions: Vec<GpuAction>,
}

/// The first queue family at or after `start` that supports both graphics
/// work and the surface.
pub open spec fn first_graphics_family(families: Seq<QueueFamilyInfo>, start: int) -> Option<int>
    decreases families.len() - start,
{
    if start < 0 || start >= families.len() {
        None
    } else if families[start].supports_graphics && families[start].supports_surface {
        Some(start)
    } else {
        first_graphics_family(families, start + 1)
    }
}

/// Selects the queue family the device is opened on: the first that
/// supports both graphics work and the surface.
pub fn find_queue_family(families: &Vec<QueueFamilyInfo>) -> (r: Option<usize>)
    ensures
        match r {
            Some(i) => first_graphics_family(families@, 0) == Some(i as int) && families@[
                i as int
            ].supports_graphics && families@[i as int].supports_surface,
            None => first_graphics_family(families@, 0) is None,
        },
{
    let mut idx: usize = 0;
    while idx < families.len()
        invariant
            idx <= families@.len(),
            first_graphics_family(families@, 0) == first_graphics_family(families@, idx as int),
        decreases families@.len() - idx,
    {
        if families[idx].supports_graphics && families[idx].supports_surface {
            return Some(idx);
        }
        idx = idx + 1;
    }
    None
}

/// The error startup reports for given device responses, or `None` when
/// construction goes through — each check in the order the construction
/// sequence reaches it.
pub open spec fn startup_error(
    profile: DeviceProfile,
    requested: Extent2D,
    outcomes: StartupOutcomes,
) -> Option<StartupError> {
    if first_graphics_family(profile.queue_families@, 0) is None {
        Some(StartupError::NoCompatibleQueueFamily)
    } else if !outcomes.device_open {
        Some(StartupError::DeviceOpenFailed)
    } else if requested.is_zero_area() {
        Some(StartupError::Swapchain(SwapchainError::ZeroExtent))
    } else if !outcomes.swapchain_applied {
        Some(StartupError::Swapchain(SwapchainError::ConfigurationFailed))
    } else if outcomes.vertex_shader is Failed {
        Some(StartupError::Pipeline(PipelineError::ShaderCompilationError(ShaderStage::Vertex)))
    } else if outcomes.fragment_shader is Failed {
        Some(StartupError::Pipeline(PipelineError::ShaderCompilationError(ShaderStage::Fragment)))
    } else if !outcomes.pipeline_accepted {
        Some(StartupError::Pipeline(PipelineError::PipelineCreationFailed))
    } else if !outcomes.buffer_created {
        Some(StartupError::Buffer(BufferError::BufferCreationFailed))
    } else if selected_memory_type(
        profile.memory_types@,
        outcomes.vertex_buffer_requirements.type_mask,
        CPU_VISIBLE,
    ) is None {
        Some(StartupError::Buffer(BufferError::NoCompatibleMemoryType))
    } else if !outcomes.allocation_ok {
        Some(StartupError::Buffer(BufferError::AllocationFailed))
    } else {
        None
    }
}

/// The device commands a successful startup performs, in dependency order;
/// the transient shader modules are destroyed right after the pipeline is
/// created.
pub open spec fn setup_trace(
    queue_family: int,
    effective: Extent2D,
    memory_type_index: int,
    allocation_size: u64,
) -> Seq<GpuAction> {
    seq![
        GpuAction::OpenDevice { queue_family: queue_family as usize },
        GpuAction::ConfigureSwapchain { extent: effective },
        GpuAction::CreateRenderPass,
        GpuAction::CreatePipelineLayout,
        GpuAction::CompileShader { stage: ShaderStage::Vertex },
        GpuAction::CompileShader { stage: ShaderStage::Fragment },
        GpuAction::CreateShaderModule { stage: ShaderStage::Vertex },
        GpuAction::CreateShaderModule { stage: ShaderStage::Fragment },
        GpuAction::CreateGraphicsPipeline,
        GpuAction::DestroyShaderModule { stage: ShaderStage::Vertex },
        GpuAction::DestroyShaderModule { stage: ShaderStage::Fragment },
        GpuAction::CreateBuffer { byte_length: VERTEX_BUFFER_BYTES, usage: VERTEX_USAGE },
        GpuAction::AllocateMemory {
            memory_type_index: memory_type_index as usize,
            size: allocation_size,
        },
        GpuAction::BindBufferMemory { offset: 0 },
        GpuAction::CreateCommandPool { slot: 0 },
        GpuAction::CreateCommandPool { slot: 1 },
        GpuAction::CreateCommandPool { slot: 2 },
        GpuAction::CreateSemaphore { slot: 0 },
        GpuAction::CreateFence { slot: 0 },
        GpuAction::AllocateCommandBuffer { slot: 0 },
        GpuAction::CreateSemaphore { slot: 1 },
        GpuAction::CreateFence { slot: 1 },
        GpuAction::AllocateCommandBuffer { slot: 1 },
        GpuAction::CreateSemaphore { slot: 2 },
        GpuAction::CreateFence { slot: 2 },
        GpuAction::AllocateCommandBuffer { slot: 2 },
    ]
}

/// The commands one recorded-and-submitted frame performs: framebuffer for
/// the acquired image, fence wait and reset, command-pool reset, the host
/// write of the vertex data, recording with viewport and scissor set from
/// the current extent before the draw, submission and presentation.
pub open spec fn frame_trace(
    slot: int,
    extent: Extent2D,
    write_bytes: u64,
    vertex_count: u32,
) -> Seq<GpuAction> {
    seq![
        GpuAction::CreateFramebuffer { extent },
        GpuAction::WaitFence { slot: slot as usize },
        GpuAction::ResetFence { slot: slot as usize },
        GpuAction::ResetCommandPool { slot: slot as usize },
        GpuAction::MapMemory,
        GpuAction::WriteBuffer { byte_length: write_bytes },
        GpuAction::FlushMemory,
        GpuAction::UnmapMemory,
        GpuAction::BeginCommands { slot: slot as usize },
        GpuAction::SetViewport { extent },
        GpuAction::SetScissor { extent },
        GpuAction::BindPipeline,
        GpuAction::BindVertexBuffer,
        GpuAction::BeginRenderPass { extent },
        GpuAction::Draw { vertex_count },
        GpuAction::EndRenderPass,
        GpuAction::FinishCommands { slot: slot as usize },
        GpuAction::Submit { slot: slot as usize },
        GpuAction::Present { slot: slot as usize },
        GpuAction::DestroyFramebuffer,
    ]
}

/// What one frame records stays ordered for correctness, not only
/// completeness: the fence wait precedes the host write of the vertex
/// buffer, so the buffer is never written while the slot's prior submission
/// is unconfirmed; viewport and scissor carry the frame's current extent
/// and are set before the draw, so no frame draws with a stale viewport;
/// the draw lies between the render-pass markers; and submission precedes
/// presentation.
pub proof fn lemma_frame_trace_order(
    slot: int,
    extent: Extent2D,
    write_bytes: u64,
    vertex_count: u32,
)
    ensures
        ({
            let t = frame_trace(slot, extent, write_bytes, vertex_count);
            &&& t.len() == 20
            &&& t[1] == GpuAction::WaitFence { slot: slot as usize }
            &&& t[5] == GpuAction::WriteBuffer { byte_length: write_bytes }
            &&& t[9] == GpuAction::SetViewport { extent }
            &&& t[10] == GpuAction::SetScissor { extent }
            &&& t[13] == GpuAction::BeginRenderPass { extent }
            &&& t[14] == GpuAction::Draw { vertex_count }
            &&& t[15] == GpuAction::EndRenderPass
            &&& t[17] == GpuAction::Submit { slot: slot as usize }
            &&& t[18] == GpuAction::Present { slot: slot as usize }
        }),
{
}

/// The commands teardown performs: a device-idle wait first, then every
/// owned object destroyed in reverse-dependency order — buffer memory and
/// buffer, synchronization primitives, pipeline, pipeline layout, render
/// pass, command pools — then the swapchain unconfigured and the surface
/// destroyed; the device and instance end with ownership.
pub open spec fn teardown_trace() -> Seq<GpuAction> {
    seq![
        GpuAction::WaitIdle,
        GpuAction::FreeMemory,
        GpuAction::DestroyBuffer,
        GpuAction::DestroySemaphore { slot: 0 },
        GpuAction::DestroySemaphore { slot: 1 },
        GpuAction::DestroySemaphore { slot: 2 },
        GpuAction::DestroyFence { slot: 0 },
        GpuAction::DestroyFence { slot: 1 },
        GpuAction::DestroyFence { slot: 2 },
        GpuAction::DestroyPipeline,
        GpuAction::DestroyPipelineLayout,
        GpuAction::DestroyRenderPass,
        GpuAction::DestroyCommandPool { slot: 0 },
        GpuAction::DestroyCommandPool { slot: 1 },
        GpuAction::DestroyCommandPool { slot: 2 },
        GpuAction::UnconfigureSwapchain,
        GpuAction::DestroySurface,
    ]
}

/// Whether an action releases a resource: everything teardown performs
/// after its initial device-idle wait.
pub open spec fn is_release_action(a: GpuAction) -> bool {
    ||| a is FreeMemory
    ||| a is DestroyBuffer
    ||| a is DestroySemaphore
    ||| a is DestroyFence
    ||| a is DestroyPipeline
    ||| a is DestroyPipelineLayout
    ||| a is DestroyRenderPass
    ||| a is DestroyCommandPool
    ||| a is UnconfigureSwapchain
    ||| a is DestroySurface
}

/// Destroying a live renderer waits for device idle before any release:
/// the teardown trace begins with the idle wait, and everything after it is
/// a release, in exactly the reverse-dependency order of `teardown_trace`.
pub proof fn lemma_teardown_wait_idle_first()
    ensures
        teardown_trace().len() == 17,
        teardown_trace()[0] == GpuAction::WaitIdle,
        forall|i: int| 1 <= i < teardown_trace().len() ==> is_release_action(#[trigger] teardown_trace()[i]),
        forall|i: int| 1 <= i < teardown_trace().len() ==> teardown_trace()[i] != GpuAction::WaitIdle,
{
    assert forall|i: int|
        1 <= i < teardown_trace().len() implies is_release_action(#[trigger] teardown_trace()[i])
        && teardown_trace()[i] != GpuAction::WaitIdle by {
        if i == 1 {
        } else if i == 2 {
        } else if i == 3 {
        } else if i == 4 {
        } else if i == 5 {
        } else if i == 6 {
        } else if i == 7 {
        } else if i == 8 {
        } else if i == 9 {
        } else if i == 10 {
        } else if i == 11 {
        } else if i == 12 {
        } else if i == 13 {
        } else if i == 14 {
        } else if i == 15 {
        } else {
            assert(i == 16);
        }
    }
}

/// The renderer: every GPU object the application owns, with the state the
/// per-frame decisions depend on.
#[derive(Debug)]
pub struct Renderer {
    /// What the device reported at startup; capabilities are fixed for the
    /// device's lifetime.
    pub profile: DeviceProfile,
    /// The queue family the device was opened on.
    pub queue_family: usize,
    /// The selected surface format tag.
    pub format_id: u32,
    /// The surface and its configuration state.
    pub swapchain: SwapchainManager,
    /// The most recently requested extent; the next reconfiguration clamps
    /// it against the capabilities.
    pub dimensions: Extent2D,
    /// The viewport and scissor extent; always the configured extent, so a
    /// recorded frame can never carry a stale viewport.
    pub viewport: Extent2D,
    /// The render pass the pipeline is bound to.
    pub render_pass: RenderPassDesc,
    /// The graphics pipeline; immutable, and a plain extent change never
    /// recreates it.
    pub pipeline: PipelineDescriptor,
    /// The vertex buffer with its bound backing memory.
    pub vertex_buffer: GpuBuffer,
    /// The frame ring.
    pub scheduler: FrameScheduler,
}

impl Renderer {
    /// The renderer's invariant: the profile is well-formed, the swapchain
    /// is configured, the viewport matches the configured extent, the ring
    /// has exactly the design count of slots, and the vertex buffer has its
    /// fixed creation length.
    pub open spec fn wf(self) -> bool {
        &&& self.profile.wf()
        &&& self.swapchain.configured
        &&& self.viewport == self.swapchain.config.extent
        &&& self.scheduler.wf()
        &&& self.scheduler.frames_in_flight == FRAMES_IN_FLIGHT
        &&& self.vertex_buffer.byte_length == VERTEX_BUFFER_BYTES
    }

    /// Builds the renderer: selects the queue family, opens the device,
    /// picks the surface format, configures the swapchain against the
    /// capabilities, creates render pass and pipeline layout, compiles both
    /// shaders and bakes the pipeline (destroying the transient modules),
    /// creates and binds the vertex buffer, and creates the frame ring with
    /// every fence signaled. Each step's failure aborts with the matching
    /// error; on success the returned commands are the full dependency-
    /// ordered setup sequence.
    pub fn new(
        profile: DeviceProfile,
        requested: Extent2D,
        outcomes: StartupOutcomes,
    ) -> (r: Result<(Renderer, Vec<GpuAction>), StartupError>)
        requires
            profile.wf(),
        ensures
            r is Err <==> startup_error(profile, requested, outcomes) is Some,
            r matches Err(e) ==> Some(e) == startup_error(profile, requested, outcomes),
            r matches Ok(ok) ==> {
                let rd = ok.0;
                &&& rd.wf()
                &&& rd.profile == profile
                &&& Some(rd.queue_family as int) == first_graphics_family(
                    profile.queue_families@,
                    0,
                )
                &&& rd.format_id == selected_format(profile.surface_formats@)
                &&& rd.dimensions == requested
                &&& rd.swapchain.config.extent == clamp_extent_spec(requested, profile.caps)
                &&& rd.viewport == rd.swapchain.config.extent
                &&& rd.render_pass == (RenderPassDesc {
                    color_load: LoadOp::Clear,
                    color_store: StoreOp::Store,
                    samples: 1,
                    has_depth: false,
                })
                &&& outcomes.vertex_shader matches ShaderCompileResult::Compiled(v)
                    && rd.pipeline.vertex_shader@ == v@
                &&& outcomes.fragment_shader matches ShaderCompileResult::Compiled(f)
                    && rd.pipeline.fragment_shader@ == f@
                &&& rd.pipeline.topology == PrimitiveTopology::TriangleList
                &&& rd.pipeline.cull_mode == CullMode::Back
                &&& rd.pipeline.front_face == FrontFace::CounterClockwise
                &&& rd.pipeline.blend_enabled
                &&& !rd.pipeline.alpha_to_coverage
                &&& rd.pipeline.depth_test is None
                &&& rd.pipeline.vertex_stride == VERTEX_BYTES as u32
                &&& rd.pipeline.vertex_attributes@ == seq![
                    VertexAttribute { location: 0, offset: 0 },
                    VertexAttribute { location: 1, offset: 12 },
                ]
                &&& rd.vertex_buffer.byte_length == VERTEX_BUFFER_BYTES
                &&& rd.vertex_buffer.usage == VERTEX_USAGE
                &&& Some(rd.vertex_buffer.plan.memory_type_index as int) == selected_memory_type(
                    profile.memory_types@,
                    outcomes.vertex_buffer_requirements.type_mask,
                    CPU_VISIBLE,
                )
                &&& rd.vertex_buffer.plan.allocation_size
                    == outcomes.vertex_buffer_requirements.size
                &&& rd.vertex_buffer.plan.bind_offset == 0
                &&& rd.scheduler.frame_counter == 0
                &&& forall|i: int|
                    0 <= i < FRAMES_IN_FLIGHT ==> rd.scheduler.slots@[i].fence_signaled
                &&& ok.1@ == setup_trace(
                    rd.queue_family as int,
                    rd.swapchain.config.extent,
                    rd.vertex_buffer.plan.memory_type_index as int,
                    rd.vertex_buffer.plan.allocation_size,
                )
            },
    {
        let queue_family: usize = match find_queue_family(&profile.queue_families) {
            Some(family) => family,
            None => {
                return Err(StartupError::NoCompatibleQueueFamily);
            },
        };
        if !outcomes.device_open {
            return Err(StartupError::DeviceOpenFailed);
        }
        let format_id: u32 = select_format(&profile.surface_formats);

        let mut swapchain = SwapchainManager::new();
        let (configure_res, _configure_actions) = swapchain.configure(
            &profile.caps,
            format_id,
            requested,
            outcomes.swapchain_applied,
        );
        let effective: Extent2D = match configure_res {
            Ok(extent) => extent,
            Err(e) => {
                return Err(StartupError::Swapchain(e));
            },
        };

        let render_pass = RenderPassDesc {
            color_load: LoadOp::Clear,
            color_store: StoreOp::Store,
            samples: 1,
            has_depth: false,
        };

        let pipeline: PipelineDescriptor = match create_pipeline(
            outcomes.vertex_shader,
            outcomes.fragment_shader,
            default_pipeline_config(),
            outcomes.pipeline_accepted,
        ) {
            Ok(descriptor) => descriptor,
            Err(e) => {
                return Err(StartupError::Pipeline(e));
            },
        };

        let request = match request_buffer(VERTEX_BUFFER_BYTES, VERTEX_USAGE, CPU_VISIBLE) {
            Ok(req) => req,
            Err(e) => {
                return Err(StartupError::Buffer(e));
            },
        };
        if !outcomes.buffer_created {
            return Err(StartupError::Buffer(BufferError::BufferCreationFailed));
        }
        let plan = match plan_allocation(
            &request,
            &outcomes.vertex_buffer_requirements,
            &profile.memory_types,
        ) {
            Ok(plan) => plan,
            Err(e) => {
                proof {
                    crate::memory::lemma_memory_selection_sound(
                        profile.memory_types@,
                        outcomes.vertex_buffer_requirements.type_mask,
                        CPU_VISIBLE,
                    );
                }
                return Err(StartupError::Buffer(e));
            },
        };
        if !outcomes.allocation_ok {
            return Err(StartupError::Buffer(BufferError::AllocationFailed));
        }
        let vertex_buffer: GpuBuffer = bind_buffer(&request, &plan);

        let scheduler = FrameScheduler::new(FRAMES_IN_FLIGHT);

        let mut actions: Vec<GpuAction> = Vec::new();
        actions.push(GpuAction::OpenDevice { queue_family });
        actions.push(GpuAction::ConfigureSwapchain { extent: effective });
        actions.push(GpuAction::CreateRenderPass);
        actions.push(GpuAction::CreatePipelineLayout);
        actions.push(GpuAction::CompileShader { stage: ShaderStage::Vertex });
        actions.push(GpuAction::CompileShader { stage: ShaderStage::Fragment });
        actions.push(GpuAction::CreateShaderModule { stage: ShaderStage::Vertex });
        actions.push(GpuAction::CreateShaderModule { stage: ShaderStage::Fragment });
        actions.push(GpuAction::CreateGraphicsPipeline);
        actions.push(GpuAction::DestroyShaderModule { stage: ShaderStage::Vertex });
        actions.push(GpuAction::DestroyShaderModule { stage: ShaderStage::Fragment });
        actions.push(
            GpuAction::CreateBuffer { byte_length: VERTEX_BUFFER_BYTES, usage: VERTEX_USAGE },
        );
        actions.push(
            GpuAction::AllocateMemory {
                memory_type_index: plan.memory_type_index,
                size: plan.allocation_size,
            },
        );
        actions.push(GpuAction::BindBufferMemory { offset: 0 });
        actions.push(GpuAction::CreateCommandPool { slot: 0 });
        actions.push(GpuAction::CreateCommandPool { slot: 1 });
        actions.push(GpuAction::CreateCommandPool { slot: 2 });
        actions.push(GpuAction::CreateSemaphore { slot: 0 });
        actions.push(GpuAction::CreateFence { slot: 0 });
        actions.push(GpuAction::AllocateCommandBuffer { slot: 0 });
        actions.push(GpuAction::CreateSemaphore { slot: 1 });
        actions.push(GpuAction::CreateFence { slot: 1 });
        actions.push(GpuAction::AllocateCommandBuffer { slot: 1 });
        actions.push(GpuAction::CreateSemaphore { slot: 2 });
        actions.push(GpuAction::CreateFence { slot: 2 });
        actions.push(GpuAction::AllocateCommandBuffer { slot: 2 });
        proof {
            assert(actions@ =~= setup_trace(
                queue_family as int,
                effective,
                plan.memory_type_index as int,
                plan.allocation_size,
            ));
        }

        let renderer = Renderer {
            profile,
            queue_family,
            format_id,
            swapchain,
            dimensions: requested,
            viewport: effective,
            render_pass,
            pipeline,
            vertex_buffer,
            scheduler,
        };
        Ok((renderer, actions))
    }

    /// Reconfigures the swapchain for the current requested dimensions and,
    /// on success, updates the viewport to the new effective extent. On any
    /// failure the configuration and viewport are unchanged. Everything
    /// else — pipeline, render pass, buffer, frame ring — is untouched: a
    /// plain extent change never requires pipeline recreation.
    pub fn renew_swapchain(&mut self, applied: bool) -> (r: (
        Result<Extent2D, SwapchainError>,
        Vec<GpuAction>,
    ))
        requires
            old(self).wf(),
        ensures
            final(self).wf(),
            final(self).swapchain == configure_next(
                old(self).swapchain,
                old(self).profile.caps,
                old(self).format_id,
                old(self).dimensions,
                applied,
            ),
            r.0 == configure_result(old(self).profile.caps, old(self).dimensions, applied),
            r.1@ == configure_actions(
                old(self).swapchain,
                old(self).profile.caps,
                old(self).dimensions,
            ),
            final(self).viewport == final(self).swapchain.config.extent,
            final(self).dimensions == old(self).dimensions,
            final(self).profile == old(self).profile,
            final(self).format_id == old(self).format_id,
            final(self).pipeline == old(self).pipeline,
            final(self).render_pass == old(self).render_pass,
            final(self).vertex_buffer == old(self).vertex_buffer,
            final(self).scheduler == old(self).scheduler,
    {
        let requested: Extent2D = self.dimensions;
        let (res, attempted) = self.swapchain.configure(
            &self.profile.caps,
            self.format_id,
            requested,
            applied,
        );
        if let Ok(extent) = res {
            self.viewport = extent;
        }
        (res, attempted)
    }

    /// Handles a resize event: remembers the new requested extent and
    /// reconfigures. A zero-area extent is remembered but rejected for
    /// configuration — deferred until a later resize delivers a usable
    /// extent — and an out-of-bounds extent is clamped, not rejected.
    pub fn on_resize(&mut self, new_extent: Extent2D, applied: bool) -> (r: (
        Result<Extent2D, SwapchainError>,
        Vec<GpuAction>,
    ))
        requires
            old(self).wf(),
        ensures
            final(self).wf(),
            final(self).dimensions == new_extent,
            final(self).swapchain == configure_next(
                old(self).swapchain,
                old(self).profile.caps,
                old(self).format_id,
                new_extent,
                applied,
            ),
            r.0 == configure_result(old(self).profile.caps, new_extent, applied),
            r.1@ == configure_actions(old(self).swapchain, old(self).profile.caps, new_extent),
            final(self).viewport == final(self).swapchain.config.extent,
            r.0 matches Ok(extent) ==> extent == clamp_extent_spec(
                new_extent,
                old(self).profile.caps,
            ) && final(self).viewport == extent,
            final(self).profile == old(self).profile,
            final(self).format_id == old(self).format_id,
            final(self).pipeline == old(self).pipeline,
            final(self).render_pass == old(self).render_pass,
            final(self).vertex_buffer == old(self).vertex_buffer,
            final(self).scheduler == old(self).scheduler,
    {
        self.dimensions = new_extent;
        self.renew_swapchain(applied)
    }

    /// Runs one frame against the given device responses, uploading and
    /// drawing `triangle_count` triangles.
    ///
    /// An outdated or timed-out acquisition skips the frame entirely — no
    /// submission, no presentation — reconfigures the swapchain, and still
    /// advances the counter by exactly one. A fence-wait timeout is
    /// reported as `FrameTimeout`, with the slot untouched and the counter
    /// advanced. Otherwise the frame is recorded — viewport and scissor set
    /// from the current extent before the draw — submitted and presented;
    /// an outdated presentation reconfigures the swapchain afterwards. In
    /// every case the counter advances by exactly one.
    pub fn render_frame(&mut self, outcomes: &FrameOutcomes, triangle_count: u32) -> (r: Result<
        FrameReport,
        FrameError,
    >)
        requires
            old(self).wf(),
            old(self).scheduler.frame_counter < u64::MAX,
            triangle_count as u64 <= MAX_TRIANGLES,
        ensures
            final(self).wf(),
            final(self).scheduler.frame_counter == old(self).scheduler.frame_counter + 1,
            final(self).dimensions == old(self).dimensions,
            final(self).profile == old(self).profile,
            final(self).format_id == old(self).format_id,
            final(self).pipeline == old(self).pipeline,
            final(self).render_pass == old(self).render_pass,
            final(self).vertex_buffer == old(self).vertex_buffer,
            r is Err <==> outcomes.acquire is Image && !begin_frame_ok(
                old(self).scheduler.slots@,
                old(self).scheduler.frame_counter,
                old(self).scheduler.frames_in_flight,
                outcomes.fence_wait,
            ),
            r is Err ==> {
                &&& r == Err::<FrameReport, FrameError>(FrameError::FrameTimeout)
                &&& final(self).scheduler.slots@ == old(self).scheduler.slots@
                &&& final(self).swapchain == old(self).swapchain
                &&& final(self).viewport == old(self).viewport
            },
            (outcomes.acquire is Outdated || outcomes.acquire is Timeout) ==> {
                &&& r matches Ok(report)
                &&& report.status == FrameStatus::SkippedOutdated
                &&& report.actions@ == configure_actions(
                    old(self).swapchain,
                    old(self).profile.caps,
                    old(self).dimensions,
                )
                &&& final(self).scheduler.slots@ == old(self).scheduler.slots@
                &&& final(self).swapchain == configure_next(
                    old(self).swapchain,
                    old(self).profile.caps,
                    old(self).format_id,
                    old(self).dimensions,
                    outcomes.reconfigure_applied,
                )
            },
            (outcomes.acquire is Image && begin_frame_ok(
                old(self).scheduler.slots@,
                old(self).scheduler.frame_counter,
                old(self).scheduler.frames_in_flight,
                outcomes.fence_wait,
            )) ==> {
                let slot = old(self).scheduler.current_slot();
                let recorded = frame_trace(
                    slot,
                    old(self).swapchain.config.extent,
                    (triangle_count as u64 * TRIANGLE_BYTES) as u64,
                    (3 * triangle_count) as u32,
                );
                &&& r matches Ok(report)
                &&& final(self).scheduler.slots@ == old(self).scheduler.slots@.update(
                    slot,
                    crate::frame::FrameSlot { fence_signaled: false },
                )
                &&& triangle_count as u64 * TRIANGLE_BYTES <= final(self).vertex_buffer.byte_length
                &&& (outcomes.present is Presented ==> {
                    &&& report.status == FrameStatus::Completed { slot: slot as usize }
                    &&& report.actions@ == recorded
                    &&& final(self).swapchain == old(self).swapchain
                    &&& final(self).viewport == old(self).viewport
                })
                &&& (outcomes.present is Outdated ==> {
                    &&& report.status == FrameStatus::CompletedOutdated { slot: slot as usize }
                    &&& report.actions@ == recorded + configure_actions(
                        old(self).swapchain,
                        old(self).profile.caps,
                        old(self).dimensions,
                    )
                    &&& final(self).swapchain == configure_next(
                        old(self).swapchain,
                        old(self).profile.caps,
                        old(self).format_id,
                        old(self).dimensions,
                        outcomes.reconfigure_applied,
                    )
                })
            },
    {
        match outcomes.acquire {
            AcquireOutcome::Outdated | AcquireOutcome::Timeout => {
                self.scheduler.skip_frame();
                let (_res, attempted) = self.renew_swapchain(outcomes.reconfigure_applied);
                return Ok(FrameReport { status: FrameStatus::SkippedOutdated, actions: attempted });
            },
            AcquireOutcome::Image { index: _ } => {},
        }

        let extent: Extent2D = self.viewport;
        let slot: usize = match self.scheduler.begin_frame(outcomes.fence_wait) {
            Ok(slot) => slot,
            Err(e) => {
                return Err(e);
            },
        };

        let write_bytes: u64 = (triangle_count as u64) * TRIANGLE_BYTES;
        let vertex_count: u32 = 3 * triangle_count;

        let mut actions: Vec<GpuAction> = Vec::new();
        actions.push(GpuAction::CreateFramebuffer { extent });
        actions.push(GpuAction::WaitFence { slot });
        actions.push(GpuAction::ResetFence { slot });
        actions.push(GpuAction::ResetCommandPool { slot });
        actions.push(GpuAction::MapMemory);
        actions.push(GpuAction::WriteBuffer { byte_length: write_bytes });
        actions.push(GpuAction::FlushMemory);
        actions.push(GpuAction::UnmapMemory);
        actions.push(GpuAction::BeginCommands { slot });
        actions.push(GpuAction::SetViewport { extent });
        actions.push(GpuAction::SetScissor { extent });
        actions.push(GpuAction::BindPipeline);
        actions.push(GpuAction::BindVertexBuffer);
        actions.push(GpuAction::BeginRenderPass { extent });
        actions.push(GpuAction::Draw { vertex_count });
        actions.push(GpuAction::EndRenderPass);
        actions.push(GpuAction::FinishCommands { slot });
        actions.push(GpuAction::Submit { slot });
        actions.push(GpuAction::Present { slot });
        actions.push(GpuAction::DestroyFramebuffer);
        proof {
            assert(actions@ =~= frame_trace(slot as int, extent, write_bytes, vertex_count));
        }

        match outcomes.present {
            PresentOutcome::Presented => {
                Ok(FrameReport { status: FrameStatus::Completed { slot }, actions })
            },
            PresentOutcome::Outdated => {
                let (_res, attempted) = self.renew_swapchain(outcomes.reconfigure_applied);
                let mut combined = actions;
                let mut rest = attempted;
                combined.append(&mut rest);
                Ok(FrameReport { status: FrameStatus::CompletedOutdated { slot }, actions: combined })
            },
        }
    }

    /// Tears the renderer down: waits for device idle first, then destroys
    /// every owned object in reverse-dependency order, exactly the sequence
    /// of `teardown_trace`.
    pub fn destroy(self) -> (r: Vec<GpuAction>)
        ensures
            r@ == teardown_trace(),
    {
        let mut actions: Vec<GpuAction> = Vec::new();
        actions.push(GpuAction::WaitIdle);
        actions.push(GpuAction::FreeMemory);
        actions.push(GpuAction::DestroyBuffer);
        actions.push(GpuAction::DestroySemaphore { slot: 0 });
        actions.push(GpuAction::DestroySemaphore { slot: 1 });
        actions.push(GpuAction::DestroySemaphore { slot: 2 });
        actions.push(GpuAction::DestroyFence { slot: 0 });
        actions.push(GpuAction::DestroyFence { slot: 1 });
        actions.push(GpuAction::DestroyFence { slot: 2 });
        actions.push(GpuAction::DestroyPipeline);
        actions.push(GpuAction::DestroyPipelineLayout);
        actions.push(GpuAction::DestroyRenderPass);
        actions.push(GpuAction::DestroyCommandPool { slot: 0 });
        actions.push(GpuAction::DestroyCommandPool { slot: 1 });
        actions.push(GpuAction::DestroyCommandPool { slot: 2 });
        actions.push(GpuAction::UnconfigureSwapchain);
        actions.push(GpuAction::DestroySurface);
        proof {
            assert(actions@ =~= teardown_trace());
        }
        actions
    }
}

/// Builds the fixed pipeline configuration every pipeline of this renderer
/// uses: triangle list, alpha blending enabled, no alpha-to-coverage, no
/// depth attachment, and the position-and-color vertex layout.
pub fn default_pipeline_config() -> (r: PipelineConfig)
    ensures
        r.topology == PrimitiveTopology::TriangleList,
        r.blend_enabled,
        !r.alpha_to_coverage,
        !r.depth_attachment,
        r.vertex_layout.stride == VERTEX_BYTES as u32,
        r.vertex_layout.attributes@ == seq![
            VertexAttribute { location: 0, offset: 0 },
            VertexAttribute { location: 1, offset: 12 },
        ],
{
    let mut attributes: Vec<VertexAttribute> = Vec::new();
    attributes.push(VertexAttribute { location: 0, offset: 0 });
    attributes.push(VertexAttribute { location: 1, offset: 12 });
    proof {
        assert(attributes@ =~= seq![
            VertexAttribute { location: 0, offset: 0 },
            VertexAttribute { location: 1, offset: 12 },
        ]);
    }
    PipelineConfig {
        topology: PrimitiveTopology::TriangleList,
        blend_enabled: true,
        alpha_to_coverage: false,
        depth_attachment: false,
        vertex_layout: VertexLayout { stride: 28, attributes },
    }
}

} // verus!
