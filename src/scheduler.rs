use vstd::prelude::*;

verus! {

pub const NANOS_PER_SECOND: u64 = 1_000_000_000;

/// How long one frame may spend draining the secondary (resource-loading) queue.
pub const SECONDARY_BUDGET_NANOS: u64 = 10_000_000;

/// The planned frame interval.
pub const PLANNED_FRAME_NANOS: u64 = 20_000_000;

/// The per-frame timestamps and budgets of the rendering actor's loop. Times
/// are nanoseconds on a monotonic clock.
#[derive(Debug, Clone, Copy, PartialEq, Eq, Structural)]
pub struct Scheduler {
    /// The target frame interval, `1 s / fps`.
    pub normal_fi: u64,
    pub normal_fps: u32,
    pub frame_begin: u64,
    pub poll_window_events_end: u64,
    pub handle_render_commands_end: u64,
    pub handle_storage_commands_end: u64,
    pub rendering_end: u64,
    pub frame_end: u64,
    /// The budget of the secondary-queue drain.
    pub plan_storage_commands_handling_i: u64,
    pub plan_fi: u64,
}

/// What the secondary-queue drain does next.
#[derive(Debug, Clone, Copy, PartialEq, Eq, Structural)]
pub enum DrainStep {
    /// Take the available item and handle it.
    Consume,
    /// Nothing is available yet but loads are pending: yield briefly, then poll again.
    Pause,
    /// End the drain phase.
    Stop,
}

/// The time from `start` to `now`; a clock that went back counts as no time.
pub open spec fn elapsed(start: u64, now: u64) -> int {
    if now >= start {
        now - start
    } else {
        0
    }
}

/// The drain stops once its budget has elapsed since the phase began, and
/// when the queue is empty with nothing pending; otherwise it consumes an
/// available item, or pauses until one comes.
pub open spec fn drain_decision(
    budget: u64,
    start: u64,
    now: u64,
    item_ready: bool,
    loads_pending: bool,
) -> DrainStep {
    if elapsed(start, now) >= budget {
        DrainStep::Stop
    } else if item_ready {
        DrainStep::Consume
    } else if loads_pending {
        DrainStep::Pause
    } else {
        DrainStep::Stop
    }
}

/// What `make_plan` returns: the rest of the frame interval, or `None` when
/// the frame took longer than the interval.
pub open spec fn frame_remainder(normal_fi: u64, frame_begin: u64, frame_end: u64) -> Option<u64> {
    if frame_end - frame_begin > normal_fi {
        None
    } else {
        Some((normal_fi - (frame_end - frame_begin)) as u64)
    }
}

impl Scheduler {
    /// A scheduler for `fps` frames per second, every timestamp at `now`.
    pub fn new(fps: u32, now: u64) -> (r: Scheduler)
        requires
            fps > 0,
        ensures
            r.normal_fi == NANOS_PER_SECOND / (fps as u64),
            r.normal_fps == fps,
            r.frame_begin == now,
            r.poll_window_events_end == now,
            r.handle_render_commands_end == now,
            r.handle_storage_commands_end == now,
            r.rendering_end == now,
            r.frame_end == now,
            r.plan_storage_commands_handling_i == SECONDARY_BUDGET_NANOS,
            r.plan_fi == PLANNED_FRAME_NANOS,
    {
        let normal_fi = NANOS_PER_SECOND / (fps as u64);
        Scheduler {
            normal_fi,
            normal_fps: fps,
            frame_begin: now,
            poll_window_events_end: now,
            handle_render_commands_end: now,
            handle_storage_commands_end: now,
            rendering_end: now,
            frame_end: now,
            plan_storage_commands_handling_i: SECONDARY_BUDGET_NANOS,
            plan_fi: PLANNED_FRAME_NANOS,
        }
    }

    /// Ends a frame: resets the budgets of the next one and returns how long
    /// to sleep so that the frame lasts the target interval; `None` when the
    /// frame overran it, which is not made up for later.
    pub fn make_plan(&mut self) -> (r: Option<u64>)
        requires
            old(self).frame_begin <= old(self).frame_end,
        ensures
            r == frame_remainder(old(self).normal_fi, old(self).frame_begin, old(self).frame_end),
            *final(self) == (Scheduler {
                plan_storage_commands_handling_i: SECONDARY_BUDGET_NANOS,
                plan_fi: PLANNED_FRAME_NANOS,
                ..*old(self)
            }),
    {
        let frame_i = self.frame_end - self.frame_begin;
        self.plan_storage_commands_handling_i = SECONDARY_BUDGET_NANOS;
        self.plan_fi = PLANNED_FRAME_NANOS;
        if frame_i > self.normal_fi {
            None
        } else {
            Some(self.normal_fi - frame_i)
        }
    }

    /// One decision of the secondary-queue drain that began at `start`, taken
    /// at `now`, under this frame's secondary budget.
    pub fn drain_step(&self, start: u64, now: u64, item_ready: bool, loads_pending: bool) -> (r: DrainStep)
        ensures
            r == drain_decision(self.plan_storage_commands_handling_i, start, now, item_ready, loads_pending),
    {
        let spent: u64 = if now >= start {
            now - start
        } else {
            0
        };
        if spent >= self.plan_storage_commands_handling_i {
            DrainStep::Stop
        } else if item_ready {
            DrainStep::Consume
        } else if loads_pending {
            DrainStep::Pause
        } else {
            DrainStep::Stop
        }
    }
}

} // verus!
