//! One run of a structure in a room: the level, the clock, the override of
//! the levels' length and the devices that asked for notifications.

use crate::clock::ClockState;
use crate::level::{Level, LevelView};
use crate::model::{RoundState, RoundStateView, Subscription, SubscriptionView};
use crate::structures::{catalog, level_at, structure_by_name, Structure};
use crate::time::{DateTime, Duration};
use std::collections::HashMap;
use vstd::prelude::*;
use vstd::string::*;

verus! {

/// Why a request on a room could not be met.
#[derive(Clone, Copy, Debug, PartialEq, Eq, Structural)]
pub enum TimerError {
    /// No structure goes by the name that was given.
    StructureNotFound,
    /// The room has no tournament.
    NoTournament,
    /// A stored tournament names a level below the first.
    BadLevel,
}

impl TimerError {
    /// The error in words.
    pub fn message(&self) -> (text: String)
        ensures
            text@ == match *self {
                TimerError::StructureNotFound => "Structure not found"@,
                TimerError::NoTournament => "No running tournament"@,
                TimerError::BadLevel => "Level out of range"@,
            },
    {
        match self {
            TimerError::StructureNotFound => String::from_str("Structure not found"),
            TimerError::NoTournament => String::from_str("No running tournament"),
            TimerError::BadLevel => String::from_str("Level out of range"),
        }
    }
}

/// How a change of level went.
#[derive(Clone, Copy, Debug, PartialEq, Eq, Structural)]
pub enum LevelUpResult {
    /// The new level is the end of the structure.
    Done,
    /// There is no such level; nothing changed.
    Invalid,
    /// The tournament is at the new level, with its clock set.
    Moved,
}

#[derive(Debug, PartialEq)]
pub struct Tournament {
    pub created: DateTime,
    pub timer_id: u128,
    pub structure_name: String,
    pub structure: Structure,
    pub level: usize,
    pub clock_state: ClockState,
    pub duration_override: Option<Duration>,
    /// The devices that get notifications of this tournament.
    pub subscriptions: HashMap<u128, Subscription>,
}

pub struct TournamentView {
    pub created: DateTime,
    pub timer_id: u128,
    pub structure_name: Seq<char>,
    pub structure: Seq<LevelView>,
    pub level: nat,
    pub clock_state: ClockState,
    pub duration_override: Option<Duration>,
    pub subscriptions: Map<u128, SubscriptionView>,
}

/// The subscriptions of a map, each by its view.
pub open spec fn subscription_views(m: Map<u128, Subscription>) -> Map<u128, SubscriptionView> {
    m.map_values(|s: Subscription| s@)
}

impl View for Tournament {
    type V = TournamentView;

    open spec fn view(&self) -> TournamentView {
        TournamentView {
            created: self.created,
            timer_id: self.timer_id,
            structure_name: self.structure_name@,
            structure: self.structure@,
            level: self.level as nat,
            clock_state: self.clock_state,
            duration_override: self.duration_override,
            subscriptions: subscription_views(self.subscriptions@),
        }
    }
}

/// The number `l`, stopped at the highest that a level can have.
pub open spec fn capped_level(l: int) -> int {
    if l > usize::MAX as int {
        usize::MAX as int
    } else {
        l
    }
}

impl TournamentView {
    /// Levels are counted from one, and the levels are those of the
    /// structure that the tournament names.
    pub open spec fn wf(self) -> bool {
        &&& self.level >= 1
        &&& catalog(self.structure_name) == Some(self.structure)
    }

    pub open spec fn current(self) -> LevelView {
        level_at(self.structure, self.level as int)
    }

    pub open spec fn upcoming(self) -> LevelView {
        level_at(self.structure, self.level as int + 1)
    }

    /// How long `level` lasts in this tournament: the override where one
    /// is set, else the level's own length.
    pub open spec fn length_of(self, level: LevelView) -> Duration {
        match self.duration_override {
            Some(d) => d,
            None => level.duration(),
        }
    }

    /// A tournament that starts at `at`: at the first level, with the clock
    /// stopped at that level's full length.
    pub open spec fn fresh(
        timer_id: u128,
        structure_name: Seq<char>,
        structure: Seq<LevelView>,
        at: DateTime,
    ) -> TournamentView {
        TournamentView {
            created: at,
            timer_id,
            structure_name,
            structure,
            level: 1,
            clock_state: ClockState::Paused { remaining: level_at(structure, 1).duration() },
            duration_override: None,
            subscriptions: Map::empty(),
        }
    }

    /// The tournament after a move of `delta` levels at `at`, and how the
    /// move went. A move below the first level changes nothing. A move to
    /// the end of the structure only sets the level. Any other move also
    /// sets the clock to the new level's length, stopped or running as it
    /// was.
    pub open spec fn level_up(self, delta: int, at: DateTime) -> (TournamentView, LevelUpResult) {
        let target: int = capped_level(self.level + delta);
        if target < 1 {
            (self, LevelUpResult::Invalid)
        } else {
            let moved: TournamentView = TournamentView { level: target as nat, ..self };
            let level: LevelView = level_at(self.structure, target);
            if level is Done {
                (moved, LevelUpResult::Done)
            } else {
                (
                    TournamentView {
                        clock_state: self.clock_state.reset_to(self.length_of(level), at),
                        ..moved
                    },
                    LevelUpResult::Moved,
                )
            }
        }
    }

    /// The tournament after its override is set to `duration_override`:
    /// the clock gains the difference between the new and the old length
    /// of the current level, so the time already played stays played.
    pub open spec fn update_settings(self, duration_override: Option<Duration>) -> TournamentView {
        let level: LevelView = self.current();
        let new_length: Duration = match duration_override {
            Some(d) => d,
            None => level.duration(),
        };
        TournamentView {
            clock_state: self.clock_state.stretched(self.length_of(level), new_length),
            duration_override,
            ..self
        }
    }

    pub open spec fn round_state(self) -> RoundStateView {
        RoundStateView {
            cur: self.current(),
            next: self.upcoming(),
            timer_id: self.timer_id,
            level: self.level,
            clock: self.clock_state,
        }
    }
}

impl Clone for Tournament {
    fn clone(&self) -> (res: Self)
        ensures
            res@ == self@,
    {
        Tournament {
            created: self.created,
            timer_id: self.timer_id,
            structure_name: self.structure_name.clone(),
            structure: self.structure.clone(),
            level: self.level,
            clock_state: self.clock_state,
            duration_override: self.duration_override,
            subscriptions: self.subscriptions.clone(),
        }
    }
}

impl Tournament {
    /// Starts a tournament of the structure named `structure_name` at `at`.
    pub fn new_at(timer_id: u128, structure_name: String, at: DateTime) -> (made: Result<
        Tournament,
        TimerError,
    >)
        ensures
            match catalog(structure_name@) {
                Some(levels) => made is Ok && made->Ok_0@ == TournamentView::fresh(
                    timer_id,
                    structure_name@,
                    levels,
                    at,
                ),
                None => made == Err::<Tournament, TimerError>(TimerError::StructureNotFound),
            },
    {
        match structure_by_name(structure_name.as_str()) {
            None => Err(TimerError::StructureNotFound),
            Some(structure) => {
                let clock_state: ClockState = ClockState::Paused {
                    remaining: structure.get_level(1).duration(),
                };
                let tournament: Tournament = Tournament {
                    created: at,
                    timer_id,
                    structure_name,
                    structure,
                    level: 1,
                    clock_state,
                    duration_override: None,
                    subscriptions: HashMap::new(),
                };
                assert(tournament@.subscriptions =~= Map::<u128, SubscriptionView>::empty());
                Ok(tournament)
            },
        }
    }

    pub fn level_up_at(&mut self, delta: i8, at: DateTime) -> (result: LevelUpResult)
        ensures
            (final(self)@, result) == old(self)@.level_up(delta as int, at),
            old(self)@.wf() ==> final(self)@.wf(),
    {
        let wide: i128 = self.level as i128 + delta as i128;
        if wide < 1 {
            return LevelUpResult::Invalid;
        }
        let target: usize = if wide > usize::MAX as i128 {
            usize::MAX
        } else {
            wide as usize
        };
        self.level = target;
        let level: &Level = self.structure.get_level(target);
        if level.is_done() {
            return LevelUpResult::Done;
        }
        let duration: Duration = match self.duration_override {
            Some(d) => d,
            None => level.duration(),
        };
        self.clock_state = self.clock_state.reset_at(duration, at);
        LevelUpResult::Moved
    }

    pub fn update_settings(&mut self, duration_override: Option<Duration>)
        ensures
            final(self)@ == old(self)@.update_settings(duration_override),
            old(self)@.wf() ==> final(self)@.wf(),
    {
        let level: &Level = self.structure.get_level(self.level);
        let current_duration: Duration = match self.duration_override {
            Some(d) => d,
            None => level.duration(),
        };
        let new_duration: Duration = match duration_override {
            Some(d) => d,
            None => level.duration(),
        };
        self.clock_state = self.clock_state.stretch(current_duration, new_duration);
        self.duration_override = duration_override;
    }

    /// Records `payload` as the subscription of `device_id`, in place of
    /// any earlier one.
    pub fn add_subscription(&mut self, device_id: u128, payload: Subscription)
        ensures
            final(self)@ == (TournamentView {
                subscriptions: old(self)@.subscriptions.insert(device_id, payload@),
                ..old(self)@
            }),
    {
        self.subscriptions.insert(device_id, payload);
        assert(final(self)@.subscriptions =~= old(self)@.subscriptions.insert(
            device_id,
            payload@,
        ));
    }

    pub fn remove_subscription(&mut self, device_id: u128)
        ensures
            final(self)@ == (TournamentView {
                subscriptions: old(self)@.subscriptions.remove(device_id),
                ..old(self)@
            }),
    {
        self.subscriptions.remove(&device_id);
        assert(final(self)@.subscriptions =~= old(self)@.subscriptions.remove(device_id));
    }

    pub fn is_subscribed(&self, device_id: u128) -> (subscribed: bool)
        ensures
            subscribed == self@.subscriptions.contains_key(device_id),
    {
        self.subscriptions.contains_key(&device_id)
    }

    pub fn subscription(&self, device_id: u128) -> (found: Option<&Subscription>)
        ensures
            match found {
                Some(s) => self@.subscriptions.contains_key(device_id)
                    && self@.subscriptions[device_id] == s@,
                None => !self@.subscriptions.contains_key(device_id),
            },
    {
        self.subscriptions.get(&device_id)
    }

    pub fn to_roundstate(&self) -> (state: RoundState)
        ensures
            state@ == self@.round_state(),
    {
        let next: Level = if self.level == usize::MAX {
            assert(self.structure@.len() == self.structure.levels.len());
            Level::Done
        } else {
            self.structure.get_level(self.level + 1).clone()
        };
        RoundState {
            timer_id: self.timer_id,
            level: self.level,
            cur: self.structure.get_level(self.level).clone(),
            next,
            clock: self.clock_state,
        }
    }
}

} // verus!
