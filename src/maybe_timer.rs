//! A timer with an optional deadline, as a poll contract: with a deadline it
//! wakes at the deadline; without one it never completes but still re-arms a
//! short wake-up, so that the loop waiting on it stays responsive.

use vstd::prelude::*;

verus! {

/// How far ahead, in milliseconds, a timer without deadline re-arms itself.
pub const IDLE_REARM_MS: u64 = 5000;

/// The outcome of polling a timer.
#[derive(Clone, Copy, Debug, PartialEq, Eq, Structural)]
pub enum TimerPoll {
    Ready,
    /// Not yet: poll again once the clock reaches `wake_at`.
    Pending { wake_at: u64 },
}

#[derive(Clone, Copy, Debug, PartialEq, Eq, Structural)]
pub struct MaybeTimer {
    pub expires_at: Option<u64>,
    pub yielded_once: bool,
}

/// The result of polling `t` at `now`. A timer completes only after it has
/// yielded once and its deadline has come.
pub open spec fn timer_poll(t: MaybeTimer, now: u64) -> TimerPoll {
    match t.expires_at {
        Some(e) => if t.yielded_once && e <= now {
            TimerPoll::Ready
        } else {
            TimerPoll::Pending { wake_at: e }
        },
        None => TimerPoll::Pending {
            wake_at: if now + IDLE_REARM_MS <= u64::MAX {
                (now + IDLE_REARM_MS) as u64
            } else {
                u64::MAX
            },
        },
    }
}

impl MaybeTimer {
    /// A timer that completes at `expires_at`, or never if there is none.
    pub fn at(expires_at: Option<u64>) -> (r: Self)
        ensures
            r.expires_at == expires_at,
            !r.yielded_once,
    {
        MaybeTimer { expires_at, yielded_once: false }
    }

    pub fn poll(&mut self, now: u64) -> (r: TimerPoll)
        ensures
            r == timer_poll(*old(self), now),
            final(self).expires_at == old(self).expires_at,
            final(self).yielded_once == (old(self).yielded_once || r != TimerPoll::Ready),
    {
        match self.expires_at {
            Some(expires_at) => {
                if self.yielded_once && expires_at <= now {
                    TimerPoll::Ready
                } else {
                    self.yielded_once = true;
                    TimerPoll::Pending { wake_at: expires_at }
                }
            },
            None => {
                self.yielded_once = true;
                TimerPoll::Pending { wake_at: now.saturating_add(IDLE_REARM_MS) }
            },
        }
    }
}

/// A timer without deadline never completes.
pub proof fn lemma_no_deadline_never_ready(t: MaybeTimer, now: u64)
    requires
        t.expires_at.is_none(),
    ensures
        timer_poll(t, now) != TimerPoll::Ready,
{
}

} // verus!
