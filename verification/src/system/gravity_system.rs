//! Gravity: the piece drops one cell whenever its delay has passed, and
//! the delay shortens as the game goes on.
use vstd::prelude::*;

use crate::world::physics_queue::{queued_moves, PhysicsQueue, PhysicsQueueView};

verus! {

/// An event sent to gravity.
#[derive(Clone, Copy, Debug, PartialEq, Eq, Structural)]
pub enum Gravity {
    /// Restart the wait for the next drop.
    Reset,
    /// Nothing to do.
    Idle,
}

/// The delay between two drops at the start of a game, in microseconds.
pub const START_MOVE_DELAY: u64 = 1_000_000;

/// The delay keeps shortening while it is at least this long, in microseconds.
pub const SHORTEN_WHILE_AT_LEAST: u64 = 300_000;

/// How much the delay shortens after each drop, in microseconds.
pub const SHORTEN_BY: u64 = 5_000;

/// The time waited since the last drop and the delay between drops, both
/// in microseconds.
pub struct GravitySystem {
    pub time_delay: u64,
    pub move_delay: u64,
}

/// `a + b`, saturated at the largest `u64`.
pub open spec fn add_saturated(a: u64, b: u64) -> u64 {
    if a + b > u64::MAX {
        u64::MAX
    } else {
        (a + b) as u64
    }
}

/// The waited time once the frame's event is taken into account.
pub open spec fn waited_before(time_delay: u64, first_event: Option<Gravity>) -> u64 {
    if first_event == Some(Gravity::Reset) {
        0
    } else {
        time_delay
    }
}

impl GravitySystem {
    /// The delay lies between its floor and its start value.
    pub open spec fn wf(&self) -> bool {
        SHORTEN_WHILE_AT_LEAST - SHORTEN_BY <= self.move_delay <= START_MOVE_DELAY
    }

    /// Nothing waited yet, the start delay.
    pub fn new() -> (res: Self)
        ensures
            res.time_delay == 0,
            res.move_delay == START_MOVE_DELAY,
            res.wf(),
    {
        GravitySystem { time_delay: 0, move_delay: START_MOVE_DELAY }
    }

    /// One frame of gravity. The first event of the frame, if it is a
    /// reset, restarts the wait; the frame's time is added to the wait; when
    /// the wait reaches the delay, a drop of one cell is queued, the wait
    /// restarts and the delay shortens while it is long enough. Returns
    /// whether a drop was queued.
    pub fn run(&mut self, first_event: Option<Gravity>, delta_us: u64, queue: &mut PhysicsQueue) -> (res:
        bool)
        ensures
            ({
                let waited = add_saturated(waited_before(old(self).time_delay, first_event), delta_us);
                &&& res == (waited >= old(self).move_delay)
                &&& res ==> {
                    &&& final(queue)@ == (PhysicsQueueView {
                        queue: Some(queued_moves(old(queue)@).push((0i64, -45i64))),
                        ..old(queue)@
                    })
                    &&& final(self).time_delay == 0
                    &&& final(self).move_delay == if old(self).move_delay >= SHORTEN_WHILE_AT_LEAST {
                        (old(self).move_delay - SHORTEN_BY) as u64
                    } else {
                        old(self).move_delay
                    }
                }
                &&& !res ==> {
                    &&& final(queue)@ == old(queue)@
                    &&& final(self).time_delay == waited
                    &&& final(self).move_delay == old(self).move_delay
                }
            }),
            old(self).wf() ==> final(self).wf(),
    {
        if let Some(Gravity::Reset) = first_event {
            self.time_delay = 0;
        }
        self.time_delay = self.time_delay.saturating_add(delta_us);
        if self.time_delay >= self.move_delay {
            queue.add_to_queue((0, -45));
            self.time_delay = 0;
            if self.move_delay >= SHORTEN_WHILE_AT_LEAST {
                self.move_delay = self.move_delay - SHORTEN_BY;
            }
            true
        } else {
            false
        }
    }
}

} // verus!
