//! The decisions of the task that moves a tournament on when a level's
//! time is up. The task itself only waits and calls back: it asks how long
//! to wait, sleeps that long or until anything is heard in the room, and
//! then asks what to do.

use crate::model::{sent, Broadcast, BroadcastView, TournamentMessage, TournamentMessageView};
use crate::time::{div_toward_zero, now, DateTime, Duration};
use crate::timers::{from_nobody, Timer, TimerView};
use crate::tournament::TournamentView;
use vstd::prelude::*;

verus! {

/// A break gives its warning when this much of it is left.
pub const WARNING_MILLIS: i64 = 60_000;

/// A level is over when fewer whole seconds than this are left.
pub const FINAL_SECONDS: i64 = 2;

/// What the task carries from one round of waiting to the next.
#[derive(Clone, Copy, Debug, PartialEq, Eq, Structural)]
pub struct Wake {
    /// Whether the task goes on; it stops when its tournament is gone.
    pub keep_running: bool,
    /// Whether the break that is going on has given its warning.
    pub gave_warning: bool,
}

impl TournamentView {
    /// Whether the warning of a break is still to come.
    pub open spec fn awaits_warning(self, gave_warning: bool) -> bool {
        self.current() is Break && !gave_warning
    }

    /// Whether the level is over at `at`.
    pub open spec fn is_over(self, at: DateTime) -> bool {
        div_toward_zero(self.clock_state.time_left(at).millis as int, 1_000) < FINAL_SECONDS
    }

    /// Whether a break's warning is due at `at`.
    pub open spec fn warning_due(self, gave_warning: bool, at: DateTime) -> bool {
        self.awaits_warning(gave_warning) && self.clock_state.time_left(at).millis < WARNING_MILLIS
    }
}

/// How many milliseconds the task is to wait from `at`: until the level
/// ends, or, in a break that has not given its warning, until one minute
/// of it is left. Time that is already up gives no wait. A room without a
/// tournament gives nothing: the task has no more to do.
pub open spec fn wait_millis(room: TimerView, gave_warning: bool, at: DateTime) -> Option<u64> {
    match room.tournament {
        None => None,
        Some(t) => {
            let left: int = t.clock_state.time_left(at).millis as int;
            let wait: int = if t.awaits_warning(gave_warning) {
                left - WARNING_MILLIS
            } else {
                left
            };
            Some(
                if wait < 0 {
                    0u64
                } else {
                    wait as u64
                },
            )
        },
    }
}

/// What the task does when it wakes at `at`. Without a tournament it
/// stops. With the level over it moves to the next one, forgets the
/// warning, and stops if that was the end. In a break whose warning is
/// due it gives the warning, once. Else it does nothing.
pub open spec fn woken(room: TimerView, gave_warning: bool, at: DateTime) -> (
    TimerView,
    Wake,
    Option<BroadcastView>,
) {
    match room.tournament {
        None => (room, Wake { keep_running: false, gave_warning }, None),
        Some(t) => if t.is_over(at) {
            let (next, done, told) = room.level_up(1, at);
            (next, Wake { keep_running: !done, gave_warning: false }, told)
        } else if t.warning_due(gave_warning, at) {
            (
                room,
                Wake { keep_running: true, gave_warning: true },
                from_nobody(TournamentMessageView::OneMinuteWarning),
            )
        } else {
            (room, Wake { keep_running: true, gave_warning }, None)
        },
    }
}

pub fn scheduler_wait_at(room: &Timer, gave_warning: bool, at: DateTime) -> (wait: Option<u64>)
    ensures
        wait == wait_millis(room@, gave_warning, at),
{
    match &room.tournament {
        None => None,
        Some(tournament) => {
            let left: Duration = tournament.clock_state.remaining_at(at);
            let in_break: bool = tournament.structure.get_level(tournament.level).is_break();
            let wait: Duration = if in_break && !gave_warning {
                left.saturating_sub(Duration::milliseconds(WARNING_MILLIS))
            } else {
                left
            };
            if wait.millis < 0 {
                Some(0)
            } else {
                Some(wait.millis as u64)
            }
        },
    }
}

/// How long to wait from now, by the system's time.
pub fn scheduler_wait(room: &Timer, gave_warning: bool) -> (wait: Option<u64>)
    ensures
        exists|at: DateTime| wait == #[trigger] wait_millis(room@, gave_warning, at),
{
    let at: DateTime = now();
    let wait: Option<u64> = scheduler_wait_at(room, gave_warning, at);
    assert(wait == wait_millis(room@, gave_warning, at));
    wait
}

pub fn scheduler_wake_at(room: &mut Timer, gave_warning: bool, at: DateTime) -> (out: (
    Wake,
    Option<Broadcast>,
))
    ensures
        (final(room)@, out.0, sent(out.1)) == woken(old(room)@, gave_warning, at),
        old(room)@.wf() ==> final(room)@.wf(),
{
    let (over, warn): (bool, bool) = match &room.tournament {
        None => {
            return (Wake { keep_running: false, gave_warning }, None);
        },
        Some(tournament) => {
            let left: Duration = tournament.clock_state.remaining_at(at);
            let in_break: bool = tournament.structure.get_level(tournament.level).is_break();
            (
                left.num_seconds() < FINAL_SECONDS,
                in_break && !gave_warning && left.is_shorter_than(
                    Duration::milliseconds(WARNING_MILLIS),
                ),
            )
        },
    };
    if over {
        let (done, told): (bool, Option<Broadcast>) = room.level_up_at(1, at);
        (Wake { keep_running: !done, gave_warning: false }, told)
    } else if warn {
        (
            Wake { keep_running: true, gave_warning: true },
            Some(Broadcast { message: TournamentMessage::OneMinuteWarning, from_device_id: None }),
        )
    } else {
        (Wake { keep_running: true, gave_warning }, None)
    }
}

/// What to do on waking now, by the system's time.
pub fn scheduler_wake(room: &mut Timer, gave_warning: bool) -> (out: (Wake, Option<Broadcast>))
    ensures
        exists|at: DateTime|
            (final(room)@, out.0, sent(out.1)) == #[trigger] woken(old(room)@, gave_warning, at),
        old(room)@.wf() ==> final(room)@.wf(),
{
    let at: DateTime = now();
    let out: (Wake, Option<Broadcast>) = scheduler_wake_at(room, gave_warning, at);
    assert((final(room)@, out.0, sent(out.1)) == woken(old(room)@, gave_warning, at));
    out
}

} // verus!
