use troxel_core::actions::GpuAction;
use troxel_core::extent::{clamp_extent, Extent2D, SurfaceCaps};
use troxel_core::frame::{FenceWait, FrameError, FrameScheduler};
use troxel_core::swapchain::{
    select_format, SurfaceFormat, SwapchainError, SwapchainManager, FALLBACK_FORMAT_ID,
};

fn ext(width: u32, height: u32) -> Extent2D {
    Extent2D { width, height }
}

fn caps() -> SurfaceCaps {
    SurfaceCaps { min_extent: ext(16, 16), max_extent: ext(4096, 2160) }
}

#[test]
fn extent_inside_bounds_passes_through() {
    assert_eq!(clamp_extent(ext(512, 512), &caps()), ext(512, 512));
}

#[test]
fn extent_outside_bounds_is_clamped_not_rejected() {
    assert_eq!(clamp_extent(ext(1, 9999), &caps()), ext(16, 2160));
    assert_eq!(clamp_extent(ext(8192, 8), &caps()), ext(4096, 16));
}

#[test]
fn configure_clamps_and_enters_configured_state() {
    let mut sm = SwapchainManager::new();
    assert!(!sm.configured);
    let (res, actions) = sm.configure(&caps(), 7, ext(10_000, 10_000), true);
    assert_eq!(res, Ok(ext(4096, 2160)));
    assert!(sm.configured);
    assert_eq!(sm.config.format_id, 7);
    assert_eq!(sm.config.extent, ext(4096, 2160));
    assert_eq!(
        actions,
        vec![GpuAction::ConfigureSwapchain { extent: ext(4096, 2160) }]
    );
}

#[test]
fn zero_area_extent_is_rejected_without_device_commands() {
    let mut sm = SwapchainManager::new();
    let (res, actions) = sm.configure(&caps(), 0, ext(0, 600), true);
    assert_eq!(res, Err(SwapchainError::ZeroExtent));
    assert!(!sm.configured);
    assert!(actions.is_empty());
}

#[test]
fn refused_configuration_keeps_previous_state() {
    let mut sm = SwapchainManager::new();
    sm.configure(&caps(), 3, ext(640, 480), true).0.unwrap();
    let before = sm;
    let (res, _) = sm.configure(&caps(), 3, ext(800, 600), false);
    assert_eq!(res, Err(SwapchainError::ConfigurationFailed));
    assert_eq!(sm, before);
}

#[test]
fn reconfigure_retires_old_images_before_creating_new_ones() {
    let mut sm = SwapchainManager::new();
    sm.configure(&caps(), 3, ext(640, 480), true).0.unwrap();
    let first = sm;
    let (res, actions) = sm.configure(&caps(), 3, ext(640, 480), true);
    assert_eq!(res, Ok(ext(640, 480)));
    // Idempotent: same effective extent, equal state.
    assert_eq!(sm, first);
    // The old images are retired before the new configuration is applied.
    assert_eq!(
        actions,
        vec![
            GpuAction::RetireSwapchain,
            GpuAction::ConfigureSwapchain { extent: ext(640, 480) },
        ]
    );
}

#[test]
fn format_selection_prefers_first_srgb() {
    let formats = vec![
        SurfaceFormat { id: 10, srgb: false },
        SurfaceFormat { id: 11, srgb: true },
        SurfaceFormat { id: 12, srgb: true },
    ];
    assert_eq!(select_format(&formats), 11);
}

#[test]
fn format_selection_falls_back_to_first_then_default() {
    let formats = vec![SurfaceFormat { id: 10, srgb: false }, SurfaceFormat { id: 12, srgb: false }];
    assert_eq!(select_format(&formats), 10);
    assert_eq!(select_format(&Vec::new()), FALLBACK_FORMAT_ID);
}

#[test]
fn slot_assignment_is_counter_mod_frames_in_flight() {
    let mut fs = FrameScheduler::new(3);
    let mut seen: Vec<usize> = Vec::new();
    for _ in 0..7 {
        let slot = fs.begin_frame(FenceWait::Signaled).unwrap();
        seen.push(slot);
    }
    assert_eq!(seen, vec![0, 1, 2, 0, 1, 2, 0]);
    assert_eq!(fs.frame_counter, 7);
}

#[test]
fn fresh_scheduler_fences_are_signaled() {
    let fs = FrameScheduler::new(3);
    assert!(fs.slots.iter().all(|s| s.fence_signaled));
    assert_eq!(fs.frame_counter, 0);
}

#[test]
fn begin_frame_resets_only_its_own_slot() {
    let mut fs = FrameScheduler::new(3);
    fs.begin_frame(FenceWait::Signaled).unwrap();
    assert!(!fs.slots[0].fence_signaled);
    assert!(fs.slots[1].fence_signaled);
    assert!(fs.slots[2].fence_signaled);
}

#[test]
fn unsignaled_slot_with_timed_out_wait_is_a_frame_timeout() {
    let mut fs = FrameScheduler::new(3);
    for _ in 0..3 {
        fs.begin_frame(FenceWait::Signaled).unwrap();
    }
    // Slot 0 comes around again with its fence still pending and the
    // bounded wait reporting no signal: the slot must not be reused.
    let r = fs.begin_frame(FenceWait::TimedOut);
    assert_eq!(r, Err(FrameError::FrameTimeout));
    // The counter still advanced exactly once; the slot was untouched.
    assert_eq!(fs.frame_counter, 4);
    assert!(!fs.slots[0].fence_signaled);
}

#[test]
fn pending_slot_reused_once_its_fence_signals() {
    let mut fs = FrameScheduler::new(3);
    for _ in 0..3 {
        fs.begin_frame(FenceWait::Signaled).unwrap();
    }
    // The wait sees slot 0's fence signal: the prior submission completed,
    // so recording may reuse the slot.
    assert_eq!(fs.begin_frame(FenceWait::Signaled), Ok(0));
}

#[test]
fn skip_frame_advances_counter_without_touching_slots() {
    let mut fs = FrameScheduler::new(3);
    fs.begin_frame(FenceWait::Signaled).unwrap();
    fs.skip_frame();
    assert_eq!(fs.frame_counter, 2);
    assert!(!fs.slots[0].fence_signaled);
    assert!(fs.slots[1].fence_signaled);
    // The skipped frame consumed slot 1's turn: the next frame uses slot 2.
    assert_eq!(fs.begin_frame(FenceWait::Signaled), Ok(2));
}
