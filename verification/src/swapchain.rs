//! Swapchain management: surface format selection, configuration against
//! device capabilities, and the configured/unconfigured state machine.

use vstd::prelude::*;
use crate::actions::GpuAction;
use crate::extent::{clamp_extent, clamp_extent_spec, Extent2D, SurfaceCaps};

verus! {

/// One surface format the device supports: an identifying tag and whether
/// its channel type is sRGB.
#[derive(Clone, Copy, Debug, PartialEq, Eq, Structural)]
pub struct SurfaceFormat {
    pub id: u32,
    pub srgb: bool,
}

/// The format tag assumed when the device reports no supported format at
/// all.
pub const FALLBACK_FORMAT_ID: u32 = 0;

/// The presentation mode of a configured swapchain.
#[derive(Clone, Copy, Debug, PartialEq, Eq, Structural)]
pub enum PresentMode {
    Fifo,
    Immediate,
}

/// The image usage of a configured swapchain, in the library's flag space:
/// its images serve as color attachments.
pub const COLOR_ATTACHMENT_USAGE: u32 = 1;

/// How configuration fails. A zero-area extent is the library's own check;
/// a refused configuration is the device's verdict, fatal for that attempt
/// but retriable with the next extent.
#[derive(Clone, Copy, Debug, PartialEq, Eq, Structural)]
pub enum SwapchainError {
    ZeroExtent,
    ConfigurationFailed,
}

/// What the device reported for an image-acquisition request. `Outdated` and
/// `Timeout` are recoverable: the frame is skipped and the swapchain
/// reconfigured.
#[derive(Clone, Copy, Debug, PartialEq, Eq, Structural)]
pub enum AcquireOutcome {
    Image { index: u32 },
    Outdated,
    Timeout,
}

/// What the device reported for a presentation request. `Outdated` triggers
/// the same reconfiguration path as a failed acquisition.
#[derive(Clone, Copy, Debug, PartialEq, Eq, Structural)]
pub enum PresentOutcome {
    Presented,
    Outdated,
}

/// A full swapchain configuration as applied to the surface.
#[derive(Clone, Copy, Debug, PartialEq, Eq, Structural)]
pub struct SwapchainConfig {
    pub format_id: u32,
    pub extent: Extent2D,
    pub present_mode: PresentMode,
    pub image_usage: u32,
}

/// The surface and its configuration state. Unconfigured at creation;
/// configured by a successful `configure`; unconfigured again only on
/// teardown — transient acquire or present failures never leave the
/// configured state.
#[derive(Clone, Copy, Debug, PartialEq, Eq, Structural)]
pub struct SwapchainManager {
    pub configured: bool,
    pub config: SwapchainConfig,
}

/// The first sRGB format at or after `start`, if any.
pub open spec fn first_srgb_from(formats: Seq<SurfaceFormat>, start: int) -> Option<int>
    decreases formats.len() - start,
{
    if start < 0 || start >= formats.len() {
        None
    } else if formats[start].srgb {
        Some(start)
    } else {
        first_srgb_from(formats, start + 1)
    }
}

/// The format tag selection picks: the first sRGB format; else the first
/// reported format; else the fallback tag.
pub open spec fn selected_format(formats: Seq<SurfaceFormat>) -> u32 {
    match first_srgb_from(formats, 0) {
        Some(i) => formats[i].id,
        None => if formats.len() > 0 {
            formats[0].id
        } else {
            FALLBACK_FORMAT_ID
        },
    }
}

/// Picks the surface format: the first with an sRGB channel type, else the
/// first the device reports, else the fallback.
pub fn select_format(formats: &Vec<SurfaceFormat>) -> (r: u32)
    ensures
        r == selected_format(formats@),
{
    let mut idx: usize = 0;
    while idx < formats.len()
        invariant
            idx <= formats@.len(),
            first_srgb_from(formats@, 0) == first_srgb_from(formats@, idx as int),
            forall|j: int| 0 <= j < idx ==> !formats@[j].srgb,
        decreases formats@.len() - idx,
    {
        if formats[idx].srgb {
            return formats[idx].id;
        }
        idx = idx + 1;
    }
    if formats.len() > 0 {
        formats[0].id
    } else {
        FALLBACK_FORMAT_ID
    }
}

/// The configuration a successful `configure` applies: the requested extent
/// clamped to the capability bounds, FIFO presentation, color-attachment
/// usage.
pub open spec fn planned_config(caps: SurfaceCaps, format_id: u32, requested: Extent2D)
    -> SwapchainConfig {
    SwapchainConfig {
        format_id,
        extent: clamp_extent_spec(requested, caps),
        present_mode: PresentMode::Fifo,
        image_usage: COLOR_ATTACHMENT_USAGE,
    }
}

/// The state after a `configure` call.
pub open spec fn configure_next(
    s: SwapchainManager,
    caps: SurfaceCaps,
    format_id: u32,
    requested: Extent2D,
    applied: bool,
) -> SwapchainManager {
    if requested.is_zero_area() || !applied {
        s
    } else {
        SwapchainManager { configured: true, config: planned_config(caps, format_id, requested) }
    }
}

/// The result of a `configure` call.
pub open spec fn configure_result(caps: SurfaceCaps, requested: Extent2D, applied: bool) -> Result<
    Extent2D,
    SwapchainError,
> {
    if requested.is_zero_area() {
        Err(SwapchainError::ZeroExtent)
    } else if !applied {
        Err(SwapchainError::ConfigurationFailed)
    } else {
        Ok(clamp_extent_spec(requested, caps))
    }
}

/// The device commands a `configure` call attempts: nothing for a zero-area
/// request; otherwise the old images are retired first (when a swapchain was
/// configured) and only then is the new configuration applied.
pub open spec fn configure_actions(
    s: SwapchainManager,
    caps: SurfaceCaps,
    requested: Extent2D,
) -> Seq<GpuAction> {
    if requested.is_zero_area() {
        Seq::empty()
    } else if s.configured {
        seq![
            GpuAction::RetireSwapchain,
            GpuAction::ConfigureSwapchain { extent: clamp_extent_spec(requested, caps) },
        ]
    } else {
        seq![GpuAction::ConfigureSwapchain { extent: clamp_extent_spec(requested, caps) }]
    }
}

impl SwapchainManager {
    /// A fresh, unconfigured surface.
    pub fn new() -> (r: SwapchainManager)
        ensures
            !r.configured,
    {
        SwapchainManager {
            configured: false,
            config: SwapchainConfig {
                format_id: FALLBACK_FORMAT_ID,
                extent: Extent2D { width: 0, height: 0 },
                present_mode: PresentMode::Fifo,
                image_usage: COLOR_ATTACHMENT_USAGE,
            },
        }
    }

    /// Applies a configuration for `requested` against the reported
    /// capabilities, with `applied` the surface's verdict on the attempt. A
    /// zero-area extent is rejected before any device command; an
    /// out-of-bounds extent is clamped, never rejected. On failure the state
    /// is unchanged, so a later attempt with the next extent can retry.
    pub fn configure(
        &mut self,
        caps: &SurfaceCaps,
        format_id: u32,
        requested: Extent2D,
        applied: bool,
    ) -> (r: (Result<Extent2D, SwapchainError>, Vec<GpuAction>))
        requires
            caps.wf(),
        ensures
            *final(self) == configure_next(*old(self), *caps, format_id, requested, applied),
            r.0 == configure_result(*caps, requested, applied),
            r.1@ == configure_actions(*old(self), *caps, requested),
            r.0 is Ok ==> final(self).configured && final(self).config.extent
                == clamp_extent_spec(requested, *caps),
    {
        let mut attempted: Vec<GpuAction> = Vec::new();
        if requested.width == 0 || requested.height == 0 {
            proof {
                assert(attempted@ =~= configure_actions(*old(self), *caps, requested));
            }
            return (Err(SwapchainError::ZeroExtent), attempted);
        }
        let effective: Extent2D = clamp_extent(requested, caps);
        if self.configured {
            attempted.push(GpuAction::RetireSwapchain);
        }
        attempted.push(GpuAction::ConfigureSwapchain { extent: effective });
        proof {
            assert(attempted@ =~= configure_actions(*old(self), *caps, requested));
        }
        if !applied {
            return (Err(SwapchainError::ConfigurationFailed), attempted);
        }
        self.configured = true;
        self.config = SwapchainConfig {
            format_id,
            extent: effective,
            present_mode: PresentMode::Fifo,
            image_usage: COLOR_ATTACHMENT_USAGE,
        };
        (Ok(effective), attempted)
    }

    /// Leaves the configured state; only teardown does this.
    pub fn unconfigure(&mut self)
        ensures
            *final(self) == (SwapchainManager { configured: false, ..*old(self) }),
    {
        self.configured = false;
    }

    /// The extent of the applied configuration.
    pub fn current_extent(&self) -> (r: Extent2D)
        requires
            self.configured,
        ensures
            r == self.config.extent,
    {
        self.config.extent
    }
}

/// Configuring twice in a row with the same capabilities and the same
/// requested extent is idempotent: the second call yields the same effective
/// extent and the same state, and it retires the previous images before
/// applying the new configuration, so images never pile up.
/// Resize round trip: configuring for extent `e1`, then `e2`, then `e1`
/// again — capabilities are fixed for the device's lifetime — restores the
/// state after the first configuration exactly, in particular the effective
/// extent (modulo capability clamping), and with it the viewport, which
/// always equals the configured extent.
pub proof fn lemma_resize_round_trip(
    s: SwapchainManager,
    caps: SurfaceCaps,
    format_id: u32,
    e1: Extent2D,
    e2: Extent2D,
)
    requires
        caps.wf(),
        !e1.is_zero_area(),
        !e2.is_zero_area(),
    ensures
        ({
            let s1 = configure_next(s, caps, format_id, e1, true);
            let s2 = configure_next(s1, caps, format_id, e2, true);
            let s3 = configure_next(s2, caps, format_id, e1, true);
            &&& s3 == s1
            &&& s3.config.extent == clamp_extent_spec(e1, caps)
        }),
{
}

pub proof fn lemma_configure_idempotent(
    s: SwapchainManager,
    caps: SurfaceCaps,
    format_id: u32,
    requested: Extent2D,
)
    requires
        caps.wf(),
        !requested.is_zero_area(),
    ensures
        ({
            let s1 = configure_next(s, caps, format_id, requested, true);
            let s2 = configure_next(s1, caps, format_id, requested, true);
            &&& s2 == s1
            &&& configure_result(caps, requested, true) == Ok::<Extent2D, SwapchainError>(
                s1.config.extent,
            )
            &&& configure_actions(s1, caps, requested) == seq![
                GpuAction::RetireSwapchain,
                GpuAction::ConfigureSwapchain { extent: s1.config.extent },
            ]
        }),
{
}

} // verus!
