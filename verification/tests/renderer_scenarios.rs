use troxel_core::actions::GpuAction;
use troxel_core::buffer::BufferError;
use troxel_core::extent::{Extent2D, SurfaceCaps};
use troxel_core::frame::{FenceWait, FrameError};
use troxel_core::memory::{MemoryRequirements, MemoryTypeInfo, CPU_VISIBLE, DEVICE_LOCAL};
use troxel_core::pipeline::{PipelineError, ShaderCompileResult, ShaderStage};
use troxel_core::renderer::{
    DeviceProfile, FrameOutcomes, FrameStatus, QueueFamilyInfo, Renderer, StartupError,
    StartupOutcomes, FRAMES_IN_FLIGHT, TRIANGLE_BYTES, VERTEX_BUFFER_BYTES,
};
use troxel_core::swapchain::{AcquireOutcome, PresentOutcome, SurfaceFormat, SwapchainError};

fn ext(width: u32, height: u32) -> Extent2D {
    Extent2D { width, height }
}

fn profile() -> DeviceProfile {
    DeviceProfile {
        queue_families: vec![
            QueueFamilyInfo { supports_graphics: false, supports_surface: true },
            QueueFamilyInfo { supports_graphics: true, supports_surface: true },
        ],
        surface_formats: vec![
            SurfaceFormat { id: 4, srgb: false },
            SurfaceFormat { id: 9, srgb: true },
        ],
        caps: SurfaceCaps { min_extent: ext(1, 1), max_extent: ext(4096, 4096) },
        memory_types: vec![
            MemoryTypeInfo { property_flags: DEVICE_LOCAL },
            MemoryTypeInfo { property_flags: CPU_VISIBLE },
        ],
    }
}

fn outcomes() -> StartupOutcomes {
    StartupOutcomes {
        device_open: true,
        swapchain_applied: true,
        vertex_shader: ShaderCompileResult::Compiled(vec![1, 2, 3]),
        fragment_shader: ShaderCompileResult::Compiled(vec![4, 5]),
        pipeline_accepted: true,
        vertex_buffer_requirements: MemoryRequirements {
            size: VERTEX_BUFFER_BYTES + 64,
            type_mask: 0b10,
        },
        buffer_created: true,
        allocation_ok: true,
    }
}

fn frame_ok() -> FrameOutcomes {
    FrameOutcomes {
        acquire: AcquireOutcome::Image { index: 0 },
        fence_wait: FenceWait::Signaled,
        present: PresentOutcome::Presented,
        reconfigure_applied: true,
    }
}

fn start(extent: Extent2D) -> (Renderer, Vec<GpuAction>) {
    Renderer::new(profile(), extent, outcomes()).unwrap()
}

#[test]
fn startup_selects_queue_family_format_and_memory() {
    let (renderer, setup) = start(ext(512, 512));
    assert_eq!(renderer.queue_family, 1);
    assert_eq!(renderer.format_id, 9);
    assert!(renderer.swapchain.configured);
    assert_eq!(renderer.swapchain.config.extent, ext(512, 512));
    assert_eq!(renderer.viewport, ext(512, 512));
    assert_eq!(renderer.vertex_buffer.byte_length, VERTEX_BUFFER_BYTES);
    assert_eq!(renderer.vertex_buffer.plan.memory_type_index, 1);
    assert_eq!(renderer.vertex_buffer.plan.allocation_size, VERTEX_BUFFER_BYTES + 64);
    assert_eq!(renderer.vertex_buffer.plan.bind_offset, 0);
    assert_eq!(renderer.scheduler.frames_in_flight, FRAMES_IN_FLIGHT);
    assert_eq!(setup[0], GpuAction::OpenDevice { queue_family: 1 });
    assert_eq!(setup[1], GpuAction::ConfigureSwapchain { extent: ext(512, 512) });
    // The transient shader modules go right after pipeline creation.
    let created = setup
        .iter()
        .position(|a| *a == GpuAction::CreateGraphicsPipeline)
        .unwrap();
    assert_eq!(
        setup[created + 1],
        GpuAction::DestroyShaderModule { stage: ShaderStage::Vertex }
    );
    assert_eq!(
        setup[created + 2],
        GpuAction::DestroyShaderModule { stage: ShaderStage::Fragment }
    );
}

#[test]
fn startup_pins_fixed_function_pipeline_state() {
    let (renderer, _) = start(ext(512, 512));
    let p = &renderer.pipeline;
    assert_eq!(p.vertex_shader, vec![1, 2, 3]);
    assert_eq!(p.fragment_shader, vec![4, 5]);
    assert_eq!(p.vertex_stride, 28);
    assert_eq!(p.vertex_attributes.len(), 2);
    assert_eq!(p.vertex_attributes[1].offset, 12);
    assert!(p.blend_enabled);
    assert!(p.depth_test.is_none());
}

#[test]
fn startup_fails_without_compatible_queue_family() {
    let mut bad = profile();
    bad.queue_families = vec![QueueFamilyInfo { supports_graphics: true, supports_surface: false }];
    let r = Renderer::new(bad, ext(512, 512), outcomes());
    assert_eq!(r.unwrap_err(), StartupError::NoCompatibleQueueFamily);
}

#[test]
fn startup_fails_when_device_does_not_open() {
    let mut o = outcomes();
    o.device_open = false;
    assert_eq!(
        Renderer::new(profile(), ext(512, 512), o).unwrap_err(),
        StartupError::DeviceOpenFailed
    );
}

#[test]
fn startup_rejects_zero_extent() {
    assert_eq!(
        Renderer::new(profile(), ext(0, 512), outcomes()).unwrap_err(),
        StartupError::Swapchain(SwapchainError::ZeroExtent)
    );
}

#[test]
fn startup_reports_each_shader_stage() {
    let mut o = outcomes();
    o.vertex_shader = ShaderCompileResult::Failed;
    assert_eq!(
        Renderer::new(profile(), ext(512, 512), o).unwrap_err(),
        StartupError::Pipeline(PipelineError::ShaderCompilationError(ShaderStage::Vertex))
    );
    let mut o = outcomes();
    o.fragment_shader = ShaderCompileResult::Failed;
    assert_eq!(
        Renderer::new(profile(), ext(512, 512), o).unwrap_err(),
        StartupError::Pipeline(PipelineError::ShaderCompilationError(ShaderStage::Fragment))
    );
}

#[test]
fn startup_reports_pipeline_and_buffer_failures() {
    let mut o = outcomes();
    o.pipeline_accepted = false;
    assert_eq!(
        Renderer::new(profile(), ext(512, 512), o).unwrap_err(),
        StartupError::Pipeline(PipelineError::PipelineCreationFailed)
    );
    let mut o = outcomes();
    o.buffer_created = false;
    assert_eq!(
        Renderer::new(profile(), ext(512, 512), o).unwrap_err(),
        StartupError::Buffer(BufferError::BufferCreationFailed)
    );
    let mut o = outcomes();
    o.vertex_buffer_requirements.type_mask = 0b01;
    assert_eq!(
        Renderer::new(profile(), ext(512, 512), o).unwrap_err(),
        StartupError::Buffer(BufferError::NoCompatibleMemoryType)
    );
    let mut o = outcomes();
    o.allocation_ok = false;
    assert_eq!(
        Renderer::new(profile(), ext(512, 512), o).unwrap_err(),
        StartupError::Buffer(BufferError::AllocationFailed)
    );
}

#[test]
fn first_frame_advances_counter_and_leaves_other_fences_signaled() {
    let (mut renderer, _) = start(ext(512, 512));
    let report = renderer.render_frame(&frame_ok(), 3).unwrap();
    assert_eq!(report.status, FrameStatus::Completed { slot: 0 });
    assert_eq!(renderer.scheduler.frame_counter, 1);
    assert!(!renderer.scheduler.slots[0].fence_signaled);
    assert!(renderer.scheduler.slots[1].fence_signaled);
    assert!(renderer.scheduler.slots[2].fence_signaled);
}

#[test]
fn frame_sets_viewport_from_current_extent_before_drawing() {
    let (mut renderer, _) = start(ext(512, 512));
    renderer.on_resize(ext(800, 600), true).0.unwrap();
    let report = renderer.render_frame(&frame_ok(), 2).unwrap();
    let actions = &report.actions;
    let viewport_at = actions
        .iter()
        .position(|a| *a == GpuAction::SetViewport { extent: ext(800, 600) })
        .expect("viewport set from the current extent");
    let scissor_at = actions
        .iter()
        .position(|a| *a == GpuAction::SetScissor { extent: ext(800, 600) })
        .unwrap();
    let draw_at = actions
        .iter()
        .position(|a| *a == GpuAction::Draw { vertex_count: 6 })
        .unwrap();
    assert!(viewport_at < draw_at);
    assert!(scissor_at < draw_at);
    // The host write of the vertex data precedes recording.
    let write_at = actions
        .iter()
        .position(|a| *a == GpuAction::WriteBuffer { byte_length: 2 * TRIANGLE_BYTES })
        .unwrap();
    let begin_at = actions
        .iter()
        .position(|a| *a == GpuAction::BeginCommands { slot: 0 })
        .unwrap();
    assert!(write_at < begin_at);
    // Submission precedes presentation.
    let submit_at = actions.iter().position(|a| *a == GpuAction::Submit { slot: 0 }).unwrap();
    let present_at = actions.iter().position(|a| *a == GpuAction::Present { slot: 0 }).unwrap();
    assert!(submit_at < present_at);
}

#[test]
fn outdated_acquire_skips_frame_reconfigures_and_still_advances_counter() {
    let (mut renderer, _) = start(ext(512, 512));
    let io = FrameOutcomes { acquire: AcquireOutcome::Outdated, ..frame_ok() };
    let report = renderer.render_frame(&io, 3).unwrap();
    assert_eq!(report.status, FrameStatus::SkippedOutdated);
    // No submission and no presentation happened.
    assert!(!report.actions.iter().any(|a| matches!(a, GpuAction::Submit { .. })));
    assert!(!report.actions.iter().any(|a| matches!(a, GpuAction::Present { .. })));
    // The swapchain was reconfigured: old images retired, then reapplied.
    assert_eq!(
        report.actions,
        vec![
            GpuAction::RetireSwapchain,
            GpuAction::ConfigureSwapchain { extent: ext(512, 512) },
        ]
    );
    // The counter still advanced by exactly one, and no fence was touched.
    assert_eq!(renderer.scheduler.frame_counter, 1);
    assert!(renderer.scheduler.slots[0].fence_signaled);
}

#[test]
fn outdated_present_reconfigures_after_the_frame() {
    let (mut renderer, _) = start(ext(512, 512));
    let io = FrameOutcomes { present: PresentOutcome::Outdated, ..frame_ok() };
    let report = renderer.render_frame(&io, 1).unwrap();
    assert_eq!(report.status, FrameStatus::CompletedOutdated { slot: 0 });
    let submit_at = report.actions.iter().position(|a| *a == GpuAction::Submit { slot: 0 }).unwrap();
    let retire_at = report.actions.iter().position(|a| *a == GpuAction::RetireSwapchain).unwrap();
    assert!(submit_at < retire_at);
    assert_eq!(renderer.scheduler.frame_counter, 1);
    assert!(!renderer.scheduler.slots[0].fence_signaled);
}

#[test]
fn frame_timeout_is_reported_and_counter_still_advances() {
    let (mut renderer, _) = start(ext(512, 512));
    for _ in 0..3 {
        renderer.render_frame(&frame_ok(), 1).unwrap();
    }
    // Slot 0's fence is still pending and the bounded wait reports no
    // signal: a GPU hang must surface as an error, not a silent hang.
    let io = FrameOutcomes { fence_wait: FenceWait::TimedOut, ..frame_ok() };
    assert_eq!(renderer.render_frame(&io, 1), Err(FrameError::FrameTimeout));
    assert_eq!(renderer.scheduler.frame_counter, 4);
}

#[test]
fn resize_round_trip_restores_extent_and_viewport() {
    let (mut renderer, _) = start(ext(512, 512));
    let first = renderer.on_resize(ext(300, 200), true).0.unwrap();
    let viewport_after_first = renderer.viewport;
    renderer.on_resize(ext(1024, 768), true).0.unwrap();
    let third = renderer.on_resize(ext(300, 200), true).0.unwrap();
    assert_eq!(first, third);
    assert_eq!(renderer.viewport, viewport_after_first);
    assert_eq!(renderer.swapchain.config.extent, ext(300, 200));
}

#[test]
fn resize_clamps_out_of_bounds_extent() {
    let (mut renderer, _) = start(ext(512, 512));
    let effective = renderer.on_resize(ext(100_000, 100_000), true).0.unwrap();
    assert_eq!(effective, ext(4096, 4096));
    assert_eq!(renderer.viewport, ext(4096, 4096));
}

#[test]
fn resize_to_zero_area_is_deferred_not_configured() {
    let (mut renderer, _) = start(ext(512, 512));
    let (res, actions) = renderer.on_resize(ext(0, 0), true);
    assert_eq!(res, Err(SwapchainError::ZeroExtent));
    assert!(actions.is_empty());
    // The previous configuration and viewport stay in force.
    assert_eq!(renderer.swapchain.config.extent, ext(512, 512));
    assert_eq!(renderer.viewport, ext(512, 512));
    assert_eq!(renderer.dimensions, ext(0, 0));
}

#[test]
fn teardown_waits_for_idle_then_destroys_in_reverse_dependency_order() {
    let (renderer, _) = start(ext(512, 512));
    let trace = renderer.destroy();
    assert_eq!(trace[0], GpuAction::WaitIdle);
    assert_eq!(
        trace,
        vec![
            GpuAction::WaitIdle,
            GpuAction::FreeMemory,
            GpuAction::DestroyBuffer,
            GpuAction::DestroySemaphore { slot: 0 },
            GpuAction::DestroySemaphore { slot: 1 },
            GpuAction::DestroySemaphore { slot: 2 },
            GpuAction::DestroyFence { slot: 0 },
            GpuAction::DestroyFence { slot: 1 },
            GpuAction::DestroyFence { slot: 2 },
            GpuAction::DestroyPipeline,
            GpuAction::DestroyPipelineLayout,
            GpuAction::DestroyRenderPass,
            GpuAction::DestroyCommandPool { slot: 0 },
            GpuAction::DestroyCommandPool { slot: 1 },
            GpuAction::DestroyCommandPool { slot: 2 },
            GpuAction::UnconfigureSwapchain,
            GpuAction::DestroySurface,
        ]
    );
}
