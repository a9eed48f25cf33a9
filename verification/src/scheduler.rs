//! Pacing the interpreter against the wall clock.
//!
//! The VIP refreshes its display 60 times a second and spends about 4.54
//! microseconds on a machine cycle.  The emulation runs every step as fast
//! as it can and then sleeps until the VIP would have finished it.  This
//! module decides how long to sleep; whoever owns the clock reads it and
//! does the sleeping.  All times are nanoseconds since the clock was
//! started.
//!
//! ```text
//! |..c.....|..c.....|..............................................|
//!    ^-now ^-due                                                   ^-frame end
//! ```
use vstd::prelude::*;

verus! {

/// The length of a frame in nanoseconds: 60 frames per second.
pub const CHIP8_TARGET_FREQ_NS: u64 = 1_000_000_000 / 60;

/// The length of a machine cycle in nanoseconds: 4.54 microseconds.
pub const CHIP8_CYCLE_NS: u64 = 4540;

/// What to do once a step is over.
#[derive(Debug, Clone, Copy, PartialEq, Eq, Structural)]
pub enum Pace {
    /// The VIP would still be busy: sleep for so many nanoseconds.
    Sleep(u64),
    /// The step took longer than on the VIP, by so many nanoseconds.  This
    /// is worth a warning and nothing more.
    Late(u64),
}

/// What to do once an instruction step is over.
#[derive(Debug, Clone, Copy, PartialEq, Eq, Structural)]
pub enum FrameStep {
    /// The frame goes on, after the pause.
    Continue(Pace),
    /// The step reaches the end of the frame.  Sleep until then, where that
    /// is still ahead, and go on to the next interrupt.
    EndFrame { sleep: Option<u64> },
}

/// When a step that began at `start` and took `cycles` machine cycles is
/// due to end on the VIP, `carried` nanoseconds of an earlier step included.
pub open spec fn due(start: u64, cycles: usize, carried: u64) -> int {
    start + CHIP8_CYCLE_NS * cycles + carried
}

/// The pause between now and a time that is due.
pub open spec fn pace_between(due: u64, now: u64) -> Pace {
    if due >= now {
        Pace::Sleep((due - now) as u64)
    } else {
        Pace::Late((now - due) as u64)
    }
}

/// Computes when a step is due to end, if the clock can still show it.
pub fn due_time(start: u64, cycles: usize, carried: u64) -> (time: Option<u64>)
    ensures
        due(start, cycles, carried) <= u64::MAX ==> time == Some(
            due(start, cycles, carried) as u64,
        ),
        due(start, cycles, carried) > u64::MAX ==> time is None,
{
    if cycles as u64 > (u64::MAX - start) / CHIP8_CYCLE_NS {
        assert(CHIP8_CYCLE_NS * cycles > u64::MAX - start);
        return None;
    }
    let ran = start + CHIP8_CYCLE_NS * cycles as u64;
    if carried > u64::MAX - ran {
        None
    } else {
        Some(ran + carried)
    }
}

/// Decides on the pause between now and a time that is due.
pub fn pace(due: u64, now: u64) -> (p: Pace)
    ensures
        p == pace_between(due, now),
{
    if due >= now {
        Pace::Sleep(due - now)
    } else {
        Pace::Late(now - due)
    }
}

/// The books of a run of so many frames.
pub struct Scheduler {
    /// The number of the frame that is running or about to start.
    pub frame: usize,
    /// The number of frames to run.
    pub frame_count: usize,
    /// When the running frame ends.
    pub frame_end: u64,
    /// The time that the last instruction of the frame before ran past the
    /// end of its frame.  The next interrupt sleeps it off.
    pub remaining_sleep: u64,
}

impl Scheduler {
    /// What holds of a scheduler between any two calls.
    pub open spec fn wf(&self) -> bool {
        self.frame <= self.frame_count
    }

    pub fn new(frame_count: usize) -> (s: Self)
        ensures
            s.wf(),
            s == (Scheduler { frame: 0, frame_count, frame_end: 0, remaining_sleep: 0 }),
    {
        Scheduler { frame: 0, frame_count, frame_end: 0, remaining_sleep: 0 }
    }

    /// Whether all frames have run.
    pub fn finished(&self) -> (done: bool)
        ensures
            done == (self.frame >= self.frame_count),
    {
        self.frame >= self.frame_count
    }

    /// Starts a frame now.  The frame ends a sixtieth of a second later.
    /// Returns whether the clock can still show that time; if it cannot,
    /// nothing changes.
    pub fn begin_frame(&mut self, now: u64) -> (started: bool)
        requires
            old(self).wf(),
        ensures
            final(self).wf(),
            started == (now + CHIP8_TARGET_FREQ_NS <= u64::MAX),
            started ==> *final(self) == (Scheduler {
                frame_end: (now + CHIP8_TARGET_FREQ_NS) as u64,
                ..*old(self)
            }),
            !started ==> *final(self) == *old(self),
    {
        if now > u64::MAX - CHIP8_TARGET_FREQ_NS {
            false
        } else {
            self.frame_end = now + CHIP8_TARGET_FREQ_NS;
            true
        }
    }

    /// When the interrupt that began at `start` and took `cycles` machine
    /// cycles is due to end: what was left over from the frame before is
    /// slept off with it.
    pub fn interrupt_due(&self, start: u64, cycles: usize) -> (time: Option<u64>)
        ensures
            due(start, cycles, self.remaining_sleep) <= u64::MAX ==> time == Some(
                due(start, cycles, self.remaining_sleep) as u64,
            ),
            due(start, cycles, self.remaining_sleep) > u64::MAX ==> time is None,
    {
        due_time(start, cycles, self.remaining_sleep)
    }

    /// Decides what to do after an instruction step that is due to end at
    /// `due`.  A step that reaches the end of the frame ends the frame: what
    /// it runs past the end is kept for the next interrupt, and the frame
    /// counter moves on.  Any other step is paced on its own.
    pub fn after_cycle(&mut self, due: u64, now: u64) -> (step: FrameStep)
        requires
            old(self).wf(),
            old(self).frame < old(self).frame_count,
        ensures
            final(self).wf(),
            due >= old(self).frame_end ==> step == (FrameStep::EndFrame {
                sleep: if old(self).frame_end >= now {
                    Some((old(self).frame_end - now) as u64)
                } else {
                    None
                },
            }) && *final(self) == (Scheduler {
                frame: (old(self).frame + 1) as usize,
                remaining_sleep: (due - old(self).frame_end) as u64,
                ..*old(self)
            }),
            due < old(self).frame_end ==> step == FrameStep::Continue(pace_between(due, now))
                && *final(self) == *old(self),
    {
        if due >= self.frame_end {
            // the step would sleep past the end of the frame: keep the
            // remainder for the interrupt
            self.remaining_sleep = due - self.frame_end;
            self.frame += 1;
            // the step itself may have overrun the end of the frame
            if self.frame_end >= now {
                FrameStep::EndFrame { sleep: Some(self.frame_end - now) }
            } else {
                FrameStep::EndFrame { sleep: None }
            }
        } else {
            FrameStep::Continue(pace(due, now))
        }
    }
}

} // verus!
