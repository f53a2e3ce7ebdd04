//! Per-frame synchronization across a fixed ring of frames in flight: fence
//! waits, slot rotation, and the monotonic frame counter.

use vstd::prelude::*;

verus! {

/// The outcome the device reported for a bounded fence wait. A wait on an
/// already-signaled fence returns at once, so `TimedOut` can only be
/// reported for a fence with pending work.
#[derive(Clone, Copy, Debug, PartialEq, Eq, Structural)]
pub enum FenceWait {
    Signaled,
    TimedOut,
}

/// How the frame path fails. A fence-wait timeout indicates a GPU hang or a
/// driver stall; it is reported, never silently swallowed.
#[derive(Clone, Copy, Debug, PartialEq, Eq, Structural)]
pub enum FrameError {
    FrameTimeout,
}

/// One frame-in-flight slot: command pool, command buffer, submission fence
/// and semaphore. Only the fence's signal state carries a decision, so only
/// it is modeled; `fence_signaled` is false exactly while a submission
/// recorded in this slot has not been confirmed complete.
#[derive(Clone, Copy, Debug, PartialEq, Eq, Structural)]
pub struct FrameSlot {
    pub fence_signaled: bool,
}

/// The scheduler: a fixed ring of `frames_in_flight` slots and a frame
/// counter that advances exactly once per frame, so slot rotation stays
/// deterministic whatever each frame's outcome was.
#[derive(Debug)]
pub struct FrameScheduler {
    pub frames_in_flight: usize,
    pub frame_counter: u64,
    pub slots: Vec<FrameSlot>,
}

/// The slot a frame with this counter value uses.
pub open spec fn slot_index(frame_counter: u64, frames_in_flight: usize) -> int {
    frame_counter as int % frames_in_flight as int
}

/// Whether a frame may proceed into recording: the slot's fence was already
/// signaled, or the bounded wait saw it signal. Reusing a slot whose prior
/// submission is unconfirmed is never allowed.
pub open spec fn begin_frame_ok(
    slots: Seq<FrameSlot>,
    frame_counter: u64,
    frames_in_flight: usize,
    wait: FenceWait,
) -> bool {
    slots[slot_index(frame_counter, frames_in_flight)].fence_signaled || wait
        == FenceWait::Signaled
}

impl FrameScheduler {
    /// The ring is intact: one slot per frame in flight, at least one.
    pub open spec fn wf(self) -> bool {
        &&& self.frames_in_flight >= 1
        &&& self.slots@.len() == self.frames_in_flight
    }

    /// The slot the next `begin_frame` call will use.
    pub open spec fn current_slot(self) -> int {
        slot_index(self.frame_counter, self.frames_in_flight)
    }

    /// A fresh scheduler: counter at zero, every fence created signaled, so
    /// each slot's first frame proceeds without waiting.
    pub fn new(frames_in_flight: usize) -> (r: FrameScheduler)
        requires
            frames_in_flight >= 1,
        ensures
            r.wf(),
            r.frames_in_flight == frames_in_flight,
            r.frame_counter == 0,
            forall|i: int| 0 <= i < frames_in_flight ==> r.slots@[i].fence_signaled,
    {
        let mut slots: Vec<FrameSlot> = Vec::new();
        let mut i: usize = 0;
        while i < frames_in_flight
            invariant
                i <= frames_in_flight,
                slots@.len() == i,
                forall|j: int| 0 <= j < i ==> slots@[j].fence_signaled,
            decreases frames_in_flight - i,
        {
            slots.push(FrameSlot { fence_signaled: true });
            i = i + 1;
        }
        FrameScheduler { frames_in_flight, frame_counter: 0, slots }
    }

    /// Begins a frame: computes the slot from the counter, waits on the
    /// slot's fence with the bounded timeout, and on success resets the
    /// fence (and with it the slot's command pool — other slots' in-flight
    /// work is untouched). A timeout is reported as `FrameTimeout` and the
    /// slot is left as it was. The counter advances exactly once either way.
    pub fn begin_frame(&mut self, wait: FenceWait) -> (r: Result<usize, FrameError>)
        requires
            old(self).wf(),
            old(self).frame_counter < u64::MAX,
        ensures
            final(self).wf(),
            final(self).frames_in_flight == old(self).frames_in_flight,
            final(self).frame_counter == old(self).frame_counter + 1,
            r is Ok <==> begin_frame_ok(
                old(self).slots@,
                old(self).frame_counter,
                old(self).frames_in_flight,
                wait,
            ),
            r matches Ok(slot) ==> {
                &&& slot as int == old(self).current_slot()
                &&& final(self).slots@ == old(self).slots@.update(
                    slot as int,
                    FrameSlot { fence_signaled: false },
                )
            },
            r is Err ==> r == Err::<usize, FrameError>(FrameError::FrameTimeout)
                && final(self).slots@ == old(self).slots@,
    {
        let slot: usize = (self.frame_counter % (self.frames_in_flight as u64)) as usize;
        let signaled: bool = self.slots[slot].fence_signaled;
        self.frame_counter = self.frame_counter + 1;
        if signaled || matches!(wait, FenceWait::Signaled) {
            self.slots.set(slot, FrameSlot { fence_signaled: false });
            Ok(slot)
        } else {
            Err(FrameError::FrameTimeout)
        }
    }

    /// Advances the counter without touching any slot: used when the frame
    /// is skipped before its fence is waited on (an outdated acquisition),
    /// so slot timing stays consistent with fence lifetimes.
    pub fn skip_frame(&mut self)
        requires
            old(self).wf(),
            old(self).frame_counter < u64::MAX,
        ensures
            final(self).wf(),
            final(self).frames_in_flight == old(self).frames_in_flight,
            final(self).frame_counter == old(self).frame_counter + 1,
            final(self).slots@ == old(self).slots@,
    {
        self.frame_counter = self.frame_counter + 1;
    }

    /// Marks a slot's prior submission as confirmed complete: the device
    /// signaled its fence outside a `begin_frame` wait (as a device-idle
    /// wait does for every slot).
    pub fn mark_signaled(&mut self, slot: usize)
        requires
            old(self).wf(),
            slot < old(self).frames_in_flight,
        ensures
            final(self).wf(),
            final(self).frames_in_flight == old(self).frames_in_flight,
            final(self).frame_counter == old(self).frame_counter,
            final(self).slots@ == old(self).slots@.update(
                slot as int,
                FrameSlot { fence_signaled: true },
            ),
    {
        self.slots.set(slot, FrameSlot { fence_signaled: true });
    }
}

/// Slot assignment is the counter modulo the ring size: since every frame
/// advances the counter exactly once, the k-th frame begun after counter
/// value `c0` uses slot `(c0 + k) mod frames_in_flight`.
pub proof fn lemma_slot_rotation(c0: u64, frames_in_flight: usize, k: u64)
    requires
        frames_in_flight >= 1,
        c0 + k <= u64::MAX,
    ensures
        slot_index((c0 + k) as u64, frames_in_flight) == (c0 as int + k as int) % (
        frames_in_flight as int),
        0 <= slot_index((c0 + k) as u64, frames_in_flight) < frames_in_flight,
{
}

/// One `begin_frame` call at the specification level, mirroring its
/// contract: the counter advances by one, and the current slot's fence is
/// reset exactly when the frame may proceed.
pub open spec fn scheduler_step(
    slots: Seq<FrameSlot>,
    frame_counter: u64,
    frames_in_flight: usize,
    wait: FenceWait,
) -> (Seq<FrameSlot>, u64) {
    (
        if begin_frame_ok(slots, frame_counter, frames_in_flight, wait) {
            slots.update(
                slot_index(frame_counter, frames_in_flight),
                FrameSlot { fence_signaled: false },
            )
        } else {
            slots
        },
        (frame_counter + 1) as u64,
    )
}

/// The scheduler state after a whole run of `begin_frame` calls, one per
/// element of `waits`.
pub open spec fn scheduler_run(
    slots: Seq<FrameSlot>,
    frame_counter: u64,
    frames_in_flight: usize,
    waits: Seq<FenceWait>,
) -> (Seq<FrameSlot>, u64)
    decreases waits.len(),
{
    if waits.len() <= 0 {
        (slots, frame_counter)
    } else {
        let stepped = scheduler_step(slots, frame_counter, frames_in_flight, waits[0]);
        scheduler_run(stepped.0, stepped.1, frames_in_flight, waits.drop_first())
    }
}

/// Over any run of `begin_frame` calls, the ring keeps its size and the
/// counter advances exactly once per call.
pub proof fn lemma_run_counter(
    slots: Seq<FrameSlot>,
    frame_counter: u64,
    frames_in_flight: usize,
    waits: Seq<FenceWait>,
)
    requires
        frames_in_flight >= 1,
        slots.len() == frames_in_flight,
        frame_counter + waits.len() <= u64::MAX,
    ensures
        scheduler_run(slots, frame_counter, frames_in_flight, waits).0.len() == frames_in_flight,
        scheduler_run(slots, frame_counter, frames_in_flight, waits).1 == frame_counter
            + waits.len(),
    decreases waits.len(),
{
    if waits.len() > 0 {
        let stepped = scheduler_step(slots, frame_counter, frames_in_flight, waits[0]);
        lemma_run_counter(stepped.0, stepped.1, frames_in_flight, waits.drop_first());
    }
}

/// For every run of N `begin_frame` calls, slot assignment is the counter
/// modulo the ring size: the k-th call of the run, whatever each wait
/// reported, uses slot `(c0 + k) mod frames_in_flight`.
pub proof fn lemma_run_rotation(
    slots: Seq<FrameSlot>,
    frame_counter: u64,
    frames_in_flight: usize,
    waits: Seq<FenceWait>,
    k: int,
)
    requires
        frames_in_flight >= 1,
        slots.len() == frames_in_flight,
        frame_counter + waits.len() <= u64::MAX,
        0 <= k < waits.len(),
    ensures
        ({
            let before_k = scheduler_run(slots, frame_counter, frames_in_flight, waits.take(k));
            slot_index(before_k.1, frames_in_flight) == (frame_counter as int + k) % (
            frames_in_flight as int)
        }),
{
    lemma_run_counter(slots, frame_counter, frames_in_flight, waits.take(k));
}

/// A slot is never reused for recording while its previous submission is
/// unconfirmed: when the slot's fence is unsignaled and the bounded wait did
/// not see it signal, `begin_frame` refuses the frame, so at most one
/// unsignaled submission per slot exists at any time.
pub proof fn lemma_no_unsignaled_reuse(
    slots: Seq<FrameSlot>,
    frame_counter: u64,
    frames_in_flight: usize,
    wait: FenceWait,
)
    requires
        frames_in_flight >= 1,
        slots.len() == frames_in_flight,
    ensures
        !slots[slot_index(frame_counter, frames_in_flight)].fence_signaled && wait
            != FenceWait::Signaled ==> !begin_frame_ok(slots, frame_counter, frames_in_flight, wait),
        begin_frame_ok(slots, frame_counter, frames_in_flight, wait) ==> (slots[slot_index(
            frame_counter,
            frames_in_flight,
        )].fence_signaled || wait == FenceWait::Signaled),
{
}

} // verus!
