//! The record of a tournament that outlives a restart of the server, and
//! the way from a tournament to its record and back.

use crate::clock::ClockState;
use crate::model::{
    Broadcast, BroadcastView, Subscription, SubscriptionView, TournamentMessage,
    TournamentMessageView,
};
use crate::structures::{catalog, structure_by_name};
use crate::time::{now, DateTime, Duration, MILLIS_PER_WEEK};
use crate::timers::{from_nobody, sent_or, Timer, TimerView};
use crate::tournament::{subscription_views, TimerError, Tournament, TournamentView};
use std::collections::HashMap;
use vstd::prelude::*;

verus! {

/// A tournament as it is written down. The clock is written with what was
/// left at the instant of writing and with that instant, so that a clock
/// that runs goes on from there when it is read back, however much later.
#[derive(Debug, PartialEq)]
pub struct StoredTournament {
    pub timer_id: u128,
    pub created: DateTime,
    pub structure_name: String,
    pub level: usize,
    pub clock_paused: bool,
    pub clock_remaining: Duration,
    pub clock_asof: DateTime,
    pub duration_override: Option<Duration>,
    pub subscriptions: HashMap<u128, Subscription>,
}

pub struct StoredTournamentView {
    pub timer_id: u128,
    pub created: DateTime,
    pub structure_name: Seq<char>,
    pub level: nat,
    pub clock_paused: bool,
    pub clock_remaining: Duration,
    pub clock_asof: DateTime,
    pub duration_override: Option<Duration>,
    pub subscriptions: Map<u128, SubscriptionView>,
}

impl View for StoredTournament {
    type V = StoredTournamentView;

    open spec fn view(&self) -> StoredTournamentView {
        StoredTournamentView {
            timer_id: self.timer_id,
            created: self.created,
            structure_name: self.structure_name@,
            level: self.level as nat,
            clock_paused: self.clock_paused,
            clock_remaining: self.clock_remaining,
            clock_asof: self.clock_asof,
            duration_override: self.duration_override,
            subscriptions: subscription_views(self.subscriptions@),
        }
    }
}

impl TournamentView {
    /// The record of the tournament, written at `at`.
    pub open spec fn stored(self, at: DateTime) -> StoredTournamentView {
        StoredTournamentView {
            timer_id: self.timer_id,
            created: self.created,
            structure_name: self.structure_name,
            level: self.level,
            clock_paused: self.clock_state is Paused,
            clock_remaining: self.clock_state.time_left(at),
            clock_asof: at,
            duration_override: self.duration_override,
            subscriptions: self.subscriptions,
        }
    }

    /// Whether the tournament was created no more than a week before `at`.
    pub open spec fn is_recent(self, at: DateTime) -> bool {
        at.millis - self.created.millis <= MILLIS_PER_WEEK
    }
}

impl StoredTournamentView {
    /// The clock that the record holds.
    pub open spec fn clock(self) -> ClockState {
        if self.clock_paused {
            ClockState::Paused { remaining: self.clock_remaining }
        } else {
            ClockState::Running { remaining: self.clock_remaining, asof: self.clock_asof }
        }
    }

    /// The tournament that the record stands for, in the room `timer_id`.
    /// The structure is looked up by its name; a record that names no
    /// known structure, or a level below the first, gives no tournament.
    pub open spec fn restored(self, timer_id: u128) -> Result<TournamentView, TimerError> {
        match catalog(self.structure_name) {
            None => Err(TimerError::StructureNotFound),
            Some(levels) => if self.level < 1 {
                Err(TimerError::BadLevel)
            } else {
                Ok(
                    TournamentView {
                        created: self.created,
                        timer_id,
                        structure_name: self.structure_name,
                        structure: levels,
                        level: self.level,
                        clock_state: self.clock(),
                        duration_override: self.duration_override,
                        subscriptions: self.subscriptions,
                    },
                )
            },
        }
    }
}

impl TimerView {
    /// Putting the tournament of `record` into the room, in place of any
    /// that it has. A record that gives no tournament changes nothing.
    pub open spec fn restore(self, record: StoredTournamentView) -> (
        TimerView,
        Result<Option<BroadcastView>, TimerError>,
    ) {
        match record.restored(self.timer_id) {
            Ok(t) => (self.holding(t), Ok(from_nobody(TournamentMessageView::Started))),
            Err(e) => (self, Err(e)),
        }
    }

    /// The record to keep of the room at `at`: that of its tournament, if
    /// it has one that is recent.
    pub open spec fn stored(self, at: DateTime) -> Option<StoredTournamentView> {
        match self.tournament {
            Some(t) => if t.is_recent(at) {
                Some(t.stored(at))
            } else {
                None
            },
            None => None,
        }
    }
}

/// The view of a record that may be there.
pub open spec fn kept(record: Option<StoredTournament>) -> Option<StoredTournamentView> {
    match record {
        Some(r) => Some(r@),
        None => None,
    }
}

impl StoredTournament {
    pub fn capture_at(value: &Tournament, at: DateTime) -> (record: StoredTournament)
        ensures
            record@ == value@.stored(at),
    {
        StoredTournament {
            timer_id: value.timer_id,
            created: value.created,
            structure_name: value.structure_name.clone(),
            level: value.level,
            clock_paused: value.clock_state.is_paused(),
            clock_remaining: value.clock_state.remaining_at(at),
            clock_asof: at,
            duration_override: value.duration_override,
            subscriptions: value.subscriptions.clone(),
        }
    }

    /// The record of `value`, written now, by the system's time.
    pub fn from_tournament(value: &Tournament) -> (record: StoredTournament)
        ensures
            exists|at: DateTime| record@ == #[trigger] value@.stored(at),
    {
        let at: DateTime = now();
        let record: StoredTournament = StoredTournament::capture_at(value, at);
        assert(record@ == value@.stored(at));
        record
    }
}

impl Tournament {
    pub fn is_recent_at(&self, at: DateTime) -> (recent: bool)
        ensures
            recent == self@.is_recent(at),
    {
        let age: Duration = at.signed_duration_since(self.created);
        !Duration::weeks(1).is_shorter_than(age)
    }

    pub fn from_storage(timer_id: u128, args: StoredTournament) -> (made: Result<
        Tournament,
        TimerError,
    >)
        ensures
            match args@.restored(timer_id) {
                Ok(t) => made is Ok && made->Ok_0@ == t,
                Err(e) => made == Err::<Tournament, TimerError>(e),
            },
            made is Ok ==> made->Ok_0@.wf(),
    {
        match structure_by_name(args.structure_name.as_str()) {
            None => Err(TimerError::StructureNotFound),
            Some(structure) => {
                if args.level < 1 {
                    return Err(TimerError::BadLevel);
                }
                let clock: ClockState = if args.clock_paused {
                    ClockState::Paused { remaining: args.clock_remaining }
                } else {
                    ClockState::Running { remaining: args.clock_remaining, asof: args.clock_asof }
                };
                Ok(
                    Tournament {
                        created: args.created,
                        timer_id,
                        structure_name: args.structure_name,
                        structure,
                        level: args.level,
                        clock_state: clock,
                        duration_override: args.duration_override,
                        subscriptions: args.subscriptions,
                    },
                )
            },
        }
    }
}

impl Timer {
    /// Puts the tournament of `storage` into the room, in place of any
    /// that it has. A record that gives no tournament changes nothing.
    pub fn make_tournament_from_storage(&mut self, storage: StoredTournament) -> (out: Result<
        Option<Broadcast>,
        TimerError,
    >)
        ensures
            (final(self)@, sent_or(out)) == old(self)@.restore(storage@),
            old(self)@.wf() ==> final(self)@.wf(),
    {
        match Tournament::from_storage(self.timer_id, storage) {
            Err(e) => Err(e),
            Ok(tournament) => {
                self.tournament = Some(tournament);
                Ok(Some(Broadcast { message: TournamentMessage::Started, from_device_id: None }))
            },
        }
    }

    /// The record to keep of the room at `at`, if there is one to keep.
    pub fn stored_at(&self, at: DateTime) -> (record: Option<StoredTournament>)
        ensures
            kept(record) == self@.stored(at),
    {
        match &self.tournament {
            Some(tournament) => {
                if tournament.is_recent_at(at) {
                    Some(StoredTournament::capture_at(tournament, at))
                } else {
                    None
                }
            },
            None => None,
        }
    }
}

} // verus!
