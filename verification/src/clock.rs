//! The countdown of the current level: stopped, or running since an instant.

use crate::text::{two_digit_string, two_digits};
use crate::time::{clamp_wide, now, DateTime, Duration};
use vstd::prelude::*;
use vstd::string::*;

verus! {

/// The state of a clock. A running clock had `remaining` left at `asof`
/// and has lost one millisecond for each one that has passed since.
#[derive(Clone, Copy, Debug, PartialEq, Eq, Structural)]
pub enum ClockState {
    Paused { remaining: Duration },
    Running { remaining: Duration, asof: DateTime },
}

/// A clock as it travels between machines: whether it is stopped, and how
/// much was left when it was written. No instant is sent, so that the two
/// ends need not agree on the time of day.
#[derive(Clone, Copy, Debug, PartialEq, Eq, Structural)]
pub struct WireClock {
    pub paused: bool,
    pub remaining: Duration,
}

/// The face of a clock with `left` on it: minutes and seconds, each of at
/// least two digits; a negative remainder shows as zero.
pub open spec fn clock_face(left: Duration) -> Seq<char> {
    let secs: int = if left.millis < 0 {
        0
    } else {
        left.millis / 1_000
    };
    two_digits((secs / 60) as nat) + ":"@ + two_digits((secs % 60) as nat)
}

impl ClockState {
    /// What is left on the clock at the instant `at`.
    pub open spec fn time_left(self, at: DateTime) -> Duration {
        match self {
            ClockState::Paused { remaining } => remaining,
            ClockState::Running { remaining, asof } => Duration::of_millis(
                remaining.millis - (at.millis - asof.millis),
            ),
        }
    }

    /// The clock after it is stopped at `at`.
    pub open spec fn paused(self, at: DateTime) -> ClockState {
        match self {
            ClockState::Paused { .. } => self,
            ClockState::Running { .. } => ClockState::Paused { remaining: self.time_left(at) },
        }
    }

    /// The clock after it is set going at `at`.
    pub open spec fn resumed(self, at: DateTime) -> ClockState {
        match self {
            ClockState::Paused { remaining } => ClockState::Running { remaining, asof: at },
            ClockState::Running { .. } => self,
        }
    }

    /// The clock set to `duration` at `at`, stopped or running as before.
    pub open spec fn reset_to(self, duration: Duration, at: DateTime) -> ClockState {
        match self {
            ClockState::Paused { .. } => ClockState::Paused { remaining: duration },
            ClockState::Running { .. } => ClockState::Running { remaining: duration, asof: at },
        }
    }

    /// The clock with `new_length - old_length` added to what is left; the
    /// time that has passed stays passed.
    pub open spec fn stretched(self, old_length: Duration, new_length: Duration) -> ClockState {
        match self {
            ClockState::Paused { remaining } => ClockState::Paused {
                remaining: Duration::of_millis(
                    remaining.millis + (new_length.millis - old_length.millis),
                ),
            },
            ClockState::Running { remaining, asof } => ClockState::Running {
                remaining: Duration::of_millis(
                    remaining.millis + (new_length.millis - old_length.millis),
                ),
                asof,
            },
        }
    }

    /// The clock as written for sending at `at`.
    pub open spec fn wire(self, at: DateTime) -> WireClock {
        WireClock { paused: self is Paused, remaining: self.time_left(at) }
    }

    /// The clock that `w` stands for when it is read at `at`.
    pub open spec fn unwire(w: WireClock, at: DateTime) -> ClockState {
        if w.paused {
            ClockState::Paused { remaining: w.remaining }
        } else {
            ClockState::Running { remaining: w.remaining, asof: at }
        }
    }

    pub fn is_paused(&self) -> (b: bool)
        ensures
            b == (*self is Paused),
    {
        match self {
            ClockState::Paused { .. } => true,
            ClockState::Running { .. } => false,
        }
    }

    pub fn remaining_at(&self, at: DateTime) -> (left: Duration)
        ensures
            left == self.time_left(at),
    {
        match self {
            ClockState::Paused { remaining } => *remaining,
            ClockState::Running { remaining, asof } => Duration {
                millis: clamp_wide(
                    remaining.millis as i128 - (at.millis as i128 - asof.millis as i128),
                ),
            },
        }
    }

    /// What is left on the clock by the system's time. Whatever that time
    /// is, the result is what `time_left` gives for it.
    pub fn remaining(&self) -> (left: Duration)
        ensures
            exists|at: DateTime| left == #[trigger] self.time_left(at),
    {
        let at: DateTime = now();
        let left: Duration = self.remaining_at(at);
        assert(left == self.time_left(at));
        left
    }

    pub fn pause_at(&self, at: DateTime) -> (c: ClockState)
        ensures
            c == self.paused(at),
    {
        match self {
            ClockState::Paused { .. } => *self,
            ClockState::Running { .. } => ClockState::Paused { remaining: self.remaining_at(at) },
        }
    }

    pub fn resume_at(&self, at: DateTime) -> (c: ClockState)
        ensures
            c == self.resumed(at),
    {
        match self {
            ClockState::Paused { remaining } => ClockState::Running {
                remaining: *remaining,
                asof: at,
            },
            ClockState::Running { .. } => *self,
        }
    }

    pub fn reset_at(&self, duration: Duration, at: DateTime) -> (c: ClockState)
        ensures
            c == self.reset_to(duration, at),
    {
        match self {
            ClockState::Paused { .. } => ClockState::Paused { remaining: duration },
            ClockState::Running { .. } => ClockState::Running { remaining: duration, asof: at },
        }
    }

    pub fn stretch(&self, old_length: Duration, new_length: Duration) -> (c: ClockState)
        ensures
            c == self.stretched(old_length, new_length),
    {
        let offset: i128 = new_length.millis as i128 - old_length.millis as i128;
        match self {
            ClockState::Paused { remaining } => ClockState::Paused {
                remaining: Duration { millis: clamp_wide(remaining.millis as i128 + offset) },
            },
            ClockState::Running { remaining, asof } => ClockState::Running {
                remaining: Duration { millis: clamp_wide(remaining.millis as i128 + offset) },
                asof: *asof,
            },
        }
    }

    /// The face of the clock at the instant `at`, as `MM:SS`.
    pub fn display_string_at(&self, at: DateTime) -> (s: String)
        ensures
            s@ == clock_face(self.time_left(at)),
    {
        let left: Duration = self.remaining_at(at);
        let secs: i64 = if left.millis < 0 {
            0
        } else {
            left.num_seconds()
        };
        let mut s: String = two_digit_string((secs / 60) as u64);
        s.append(":");
        let seconds: String = two_digit_string((secs % 60) as u64);
        s.append(seconds.as_str());
        s
    }

    /// The face of the clock by the system's time.
    pub fn to_display_string(&self) -> (s: String)
        ensures
            exists|at: DateTime| s@ == clock_face(#[trigger] self.time_left(at)),
    {
        let at: DateTime = now();
        let s: String = self.display_string_at(at);
        assert(s@ == clock_face(self.time_left(at)));
        s
    }

    /// Writes the clock for sending at `at`: a running clock is sent as
    /// what it has left at that instant.
    pub fn to_wire_at(&self, at: DateTime) -> (w: WireClock)
        ensures
            w == self.wire(at),
    {
        WireClock { paused: self.is_paused(), remaining: self.remaining_at(at) }
    }

    /// Reads a clock that arrives at `at`: a running clock runs from the
    /// instant of its arrival.
    pub fn from_wire_at(w: WireClock, at: DateTime) -> (c: ClockState)
        ensures
            c == ClockState::unwire(w, at),
    {
        if w.paused {
            ClockState::Paused { remaining: w.remaining }
        } else {
            ClockState::Running { remaining: w.remaining, asof: at }
        }
    }

    /// Writes the clock for sending now, by the system's time.
    pub fn to_wire(&self) -> (w: WireClock)
        ensures
            exists|at: DateTime| w == #[trigger] self.wire(at),
    {
        let at: DateTime = now();
        let w: WireClock = self.to_wire_at(at);
        assert(w == self.wire(at));
        w
    }

    /// Reads a clock that arrives now, by the system's time.
    pub fn from_wire(w: WireClock) -> (c: ClockState)
        ensures
            exists|at: DateTime| c == #[trigger] ClockState::unwire(w, at),
    {
        let at: DateTime = now();
        let c: ClockState = ClockState::from_wire_at(w, at);
        assert(c == ClockState::unwire(w, at));
        c
    }
}

impl WireClock {
    /// Puts together the two fields of a received clock. Both are needed:
    /// with either missing there is no clock.
    pub fn from_fields(paused: Option<bool>, remaining: Option<Duration>) -> (w: Option<WireClock>)
        ensures
            w == match (paused, remaining) {
                (Some(p), Some(r)) => Some(WireClock { paused: p, remaining: r }),
                _ => None::<WireClock>,
            },
    {
        match (paused, remaining) {
            (Some(p), Some(r)) => Some(WireClock { paused: p, remaining: r }),
            _ => None,
        }
    }
}

} // verus!
