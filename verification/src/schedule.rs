use vstd::prelude::*;

verus! {

/// The length of one simulated frame, in microseconds.
pub const FRAME_MICROS: u64 = 16_000;

/// Decides when the next frame is due. Time is counted in microseconds
/// from any fixed start.
pub struct FrameClock {
    last_step: u64,
}

impl FrameClock {
    /// The time at which the last frame was stepped.
    pub closed spec fn last_step(&self) -> u64 {
        self.last_step
    }

    /// The time that has passed between the last step and `now`; none, if
    /// `now` lies before the last step.
    pub open spec fn elapsed(&self, now: u64) -> int {
        if now >= self.last_step() {
            now - self.last_step()
        } else {
            0
        }
    }

    /// A clock whose last step was at `now`.
    pub fn new(now: u64) -> (clock: FrameClock)
        ensures
            clock.last_step() == now,
    {
        FrameClock { last_step: now }
    }

    /// Whether a frame is to be stepped at `now`: when a whole frame's
    /// length has passed since the last step. However much more has
    /// passed, one step is due and not several: time lost on a slow frame
    /// is skipped, never made up for.
    pub fn is_due(&self, now: u64) -> (due: bool)
        ensures
            due == (self.elapsed(now) >= FRAME_MICROS),
    {
        now >= self.last_step && now - self.last_step >= FRAME_MICROS
    }

    /// Notes that a frame has been stepped, and that the step was done at
    /// `now`: the next frame is counted from there.
    pub fn restart(&mut self, now: u64)
        ensures
            final(self).last_step() == now,
    {
        self.last_step = now;
    }
}

/// A single place in which the newest configuration waits for the next
/// frame boundary. A record delivered later replaces one that still waits.
pub struct ConfigSlot<C> {
    waiting: Option<C>,
}

impl<C> ConfigSlot<C> {
    /// The record that waits to be applied, if any.
    pub closed spec fn waiting(&self) -> Option<C> {
        self.waiting
    }

    /// A slot in which nothing waits.
    pub fn new() -> (slot: ConfigSlot<C>)
        ensures
            slot.waiting().is_none(),
    {
        ConfigSlot { waiting: None }
    }

    /// Delivers a record. Whatever waited before is forgotten.
    pub fn deliver(&mut self, config: C)
        ensures
            final(self).waiting() == Some(config),
    {
        self.waiting = Some(config);
    }

    /// Takes the waiting record out at a frame boundary, leaving the slot
    /// empty: the last record delivered since the previous call, or nothing
    /// if none was.
    pub fn take(&mut self) -> (config: Option<C>)
        ensures
            config == old(self).waiting(),
            final(self).waiting().is_none(),
    {
        self.waiting.take()
    }
}

} // verus!
