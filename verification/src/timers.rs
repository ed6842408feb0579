//! A room: the one tournament it may hold, and what each command does to
//! it. Every operation returns the message that the room's listeners are
//! to be told of, if there is one.

use crate::model::{
    sent, Broadcast, BroadcastView, Command, RoundState, Subscription, SubscriptionView,
    TimerCompState, TimerCompStateView, TournamentMessage, TournamentMessageView,
};
use crate::structures::catalog;
use crate::time::{now, DateTime, Duration};
use crate::tournament::{LevelUpResult, TimerError, Tournament, TournamentView};
use vstd::prelude::*;

verus! {

#[derive(Debug, PartialEq)]
pub struct Timer {
    pub timer_id: u128,
    /// The tournament that is going on, if there is one.
    pub tournament: Option<Tournament>,
}

pub struct TimerView {
    pub timer_id: u128,
    pub tournament: Option<TournamentView>,
}

impl View for Timer {
    type V = TimerView;

    open spec fn view(&self) -> TimerView {
        TimerView {
            timer_id: self.timer_id,
            tournament: match self.tournament {
                Some(t) => Some(t@),
                None => None,
            },
        }
    }
}

/// A message that no device is held to have caused.
pub open spec fn from_nobody(message: TournamentMessageView) -> Option<BroadcastView> {
    Some(BroadcastView { message, from_device_id: None })
}

/// A message that `device_id` caused.
pub open spec fn from_device(message: TournamentMessageView, device_id: u128) -> Option<
    BroadcastView,
> {
    Some(BroadcastView { message, from_device_id: Some(device_id) })
}

/// The view of what a request gave: the message that may have been sent,
/// or the reason why the request failed.
pub open spec fn sent_or(out: Result<Option<Broadcast>, TimerError>) -> Result<
    Option<BroadcastView>,
    TimerError,
> {
    match out {
        Ok(b) => Ok(sent(b)),
        Err(e) => Err(e),
    }
}

impl TimerView {
    /// The tournament of a room, if it has one, is well formed and bears
    /// the room's number.
    pub open spec fn wf(self) -> bool {
        self.tournament matches Some(t) ==> t.wf() && t.timer_id == self.timer_id
    }

    /// The room without a tournament.
    pub open spec fn cleared(self) -> TimerView {
        TimerView { tournament: None, ..self }
    }

    /// The room with `t` as its tournament.
    pub open spec fn holding(self, t: TournamentView) -> TimerView {
        TimerView { tournament: Some(t), ..self }
    }

    /// Starting a tournament at `at`. A room that has one keeps it and
    /// tells nobody, whatever the name. An unknown name fails and changes
    /// nothing.
    pub open spec fn make_tournament(self, structure_name: Seq<char>, at: DateTime) -> (
        TimerView,
        Result<Option<BroadcastView>, TimerError>,
    ) {
        if self.tournament is Some {
            (self, Ok(None))
        } else {
            match catalog(structure_name) {
                None => (self, Err(TimerError::StructureNotFound)),
                Some(levels) => (
                    self.holding(TournamentView::fresh(self.timer_id, structure_name, levels, at)),
                    Ok(from_nobody(TournamentMessageView::Started)),
                ),
            }
        }
    }

    pub open spec fn subscribe(self, device_id: u128, payload: SubscriptionView) -> (
        TimerView,
        Option<BroadcastView>,
    ) {
        match self.tournament {
            Some(t) => (
                self.holding(
                    TournamentView {
                        subscriptions: t.subscriptions.insert(device_id, payload),
                        ..t
                    },
                ),
                from_nobody(TournamentMessageView::NotificationChange(device_id)),
            ),
            None => (self, None),
        }
    }

    pub open spec fn unsubscribe(self, device_id: u128) -> (TimerView, Option<BroadcastView>) {
        match self.tournament {
            Some(t) => (
                self.holding(
                    TournamentView { subscriptions: t.subscriptions.remove(device_id), ..t },
                ),
                from_nobody(TournamentMessageView::NotificationChange(device_id)),
            ),
            None => (self, None),
        }
    }

    /// A move of `delta` levels at `at`: the room after it, whether the
    /// room is without a tournament after it, and the message. Reaching
    /// the end of the structure ends the tournament, and with it all its
    /// subscriptions.
    pub open spec fn level_up(self, delta: int, at: DateTime) -> (
        TimerView,
        bool,
        Option<BroadcastView>,
    ) {
        match self.tournament {
            None => (self, true, None),
            Some(t) => {
                let (moved, result) = t.level_up(delta, at);
                match result {
                    LevelUpResult::Invalid => (self, false, None),
                    LevelUpResult::Done => (
                        self.cleared(),
                        true,
                        from_nobody(TournamentMessageView::Ended),
                    ),
                    LevelUpResult::Moved => (
                        self.holding(moved),
                        false,
                        from_nobody(TournamentMessageView::LevelUp(moved.round_state())),
                    ),
                }
            },
        }
    }

    pub open spec fn terminate(self) -> (TimerView, Option<BroadcastView>) {
        (self.cleared(), from_nobody(TournamentMessageView::Ended))
    }

    pub open spec fn update_settings(self, duration_override: Option<Duration>) -> (
        TimerView,
        Option<BroadcastView>,
    ) {
        match self.tournament {
            Some(t) => (
                self.holding(t.update_settings(duration_override)),
                from_nobody(TournamentMessageView::Settings),
            ),
            None => (self, None),
        }
    }

    pub open spec fn resume(self, device_id: u128, at: DateTime) -> (
        TimerView,
        Option<BroadcastView>,
    ) {
        match self.tournament {
            Some(t) => (
                self.holding(TournamentView { clock_state: t.clock_state.resumed(at), ..t }),
                from_device(TournamentMessageView::Resume, device_id),
            ),
            None => (self, None),
        }
    }

    pub open spec fn pause(self, device_id: u128, at: DateTime) -> (
        TimerView,
        Option<BroadcastView>,
    ) {
        match self.tournament {
            Some(t) => (
                self.holding(TournamentView { clock_state: t.clock_state.paused(at), ..t }),
                from_device(TournamentMessageView::Pause, device_id),
            ),
            None => (self, None),
        }
    }

    /// What the command `cmd` of the device `device_id` does at `at`.
    pub open spec fn execute(self, cmd: Command, device_id: u128, at: DateTime) -> (
        TimerView,
        Option<BroadcastView>,
    ) {
        match cmd {
            Command::Resume => self.resume(device_id, at),
            Command::Pause => self.pause(device_id, at),
            Command::PrevLevel => (self.level_up(-1, at).0, self.level_up(-1, at).2),
            Command::NextLevel => (self.level_up(1, at).0, self.level_up(1, at).2),
            Command::Terminate => self.terminate(),
        }
    }

    /// What the device `device_id` is to show of the room.
    pub open spec fn comp_state(self, device_id: u128) -> TimerCompStateView {
        match self.tournament {
            Some(t) => TimerCompStateView::Running {
                subscribed: t.subscriptions.contains_key(device_id),
                state: t.round_state(),
            },
            None => TimerCompStateView::NoTournament,
        }
    }

    pub open spec fn subscription(self, device_id: u128) -> Option<SubscriptionView> {
        match self.tournament {
            Some(t) => if t.subscriptions.contains_key(device_id) {
                Some(t.subscriptions[device_id])
            } else {
                None
            },
            None => None,
        }
    }
}

fn tell_all(message: TournamentMessage) -> (b: Option<Broadcast>)
    ensures
        sent(b) == from_nobody(message@),
{
    Some(Broadcast { message, from_device_id: None })
}

fn tell_others(message: TournamentMessage, device_id: u128) -> (b: Option<Broadcast>)
    ensures
        sent(b) == from_device(message@, device_id),
{
    Some(Broadcast { message, from_device_id: Some(device_id) })
}

impl Clone for Timer {
    fn clone(&self) -> (res: Self)
        ensures
            res@ == self@,
    {
        Timer {
            timer_id: self.timer_id,
            tournament: match &self.tournament {
                Some(t) => Some(t.clone()),
                None => None,
            },
        }
    }
}

impl Timer {
    /// A room that nobody has used yet.
    pub fn new(timer_id: u128) -> (timer: Timer)
        ensures
            timer@ == (TimerView { timer_id, tournament: None }),
    {
        Timer { timer_id, tournament: None }
    }

    pub fn subscription(&self, device_id: u128) -> (found: Option<&Subscription>)
        ensures
            match found {
                Some(s) => self@.subscription(device_id) == Some(s@),
                None => self@.subscription(device_id) is None,
            },
    {
        match &self.tournament {
            Some(tournament) => tournament.subscription(device_id),
            None => None,
        }
    }

    pub fn make_tournament_at(&mut self, structure_name: String, at: DateTime) -> (out: Result<
        Option<Broadcast>,
        TimerError,
    >)
        ensures
            (final(self)@, sent_or(out)) == old(self)@.make_tournament(structure_name@, at),
            old(self)@.wf() ==> final(self)@.wf(),
    {
        if self.tournament.is_none() {
            match Tournament::new_at(self.timer_id, structure_name, at) {
                Err(e) => Err(e),
                Ok(tournament) => {
                    self.tournament = Some(tournament);
                    Ok(tell_all(TournamentMessage::Started))
                },
            }
        } else {
            Ok(None)
        }
    }

    /// Starts a tournament now, by the system's time.
    pub fn make_tournament(&mut self, structure_name: String) -> (out: Result<
        Option<Broadcast>,
        TimerError,
    >)
        ensures
            exists|at: DateTime|
                (final(self)@, sent_or(out)) == #[trigger] old(self)@.make_tournament(
                    structure_name@,
                    at,
                ),
            old(self)@.wf() ==> final(self)@.wf(),
    {
        let at: DateTime = now();
        let ghost name: Seq<char> = structure_name@;
        let out = self.make_tournament_at(structure_name, at);
        assert((final(self)@, sent_or(out)) == old(self)@.make_tournament(name, at));
        out
    }

    pub fn subscribe(&mut self, device_id: u128, payload: Subscription) -> (out: Option<Broadcast>)
        ensures
            (final(self)@, sent(out)) == old(self)@.subscribe(device_id, payload@),
            old(self)@.wf() ==> final(self)@.wf(),
    {
        match self.tournament.take() {
            Some(mut tournament) => {
                tournament.add_subscription(device_id, payload);
                self.tournament = Some(tournament);
                tell_all(TournamentMessage::NotificationChange(device_id))
            },
            None => None,
        }
    }

    pub fn unsubscribe(&mut self, device_id: u128) -> (out: Option<Broadcast>)
        ensures
            (final(self)@, sent(out)) == old(self)@.unsubscribe(device_id),
            old(self)@.wf() ==> final(self)@.wf(),
    {
        match self.tournament.take() {
            Some(mut tournament) => {
                tournament.remove_subscription(device_id);
                self.tournament = Some(tournament);
                tell_all(TournamentMessage::NotificationChange(device_id))
            },
            None => None,
        }
    }

    /// Moves the tournament by `delta` levels. The flag says whether the
    /// room is without a tournament afterwards.
    pub fn level_up_at(&mut self, delta: i8, at: DateTime) -> (out: (bool, Option<Broadcast>))
        ensures
            (final(self)@, out.0, sent(out.1)) == old(self)@.level_up(delta as int, at),
            old(self)@.wf() ==> final(self)@.wf(),
    {
        match self.tournament.take() {
            None => (true, None),
            Some(mut tournament) => {
                match tournament.level_up_at(delta, at) {
                    LevelUpResult::Invalid => {
                        self.tournament = Some(tournament);
                        (false, None)
                    },
                    LevelUpResult::Done => (true, tell_all(TournamentMessage::Ended)),
                    LevelUpResult::Moved => {
                        let state: RoundState = tournament.to_roundstate();
                        self.tournament = Some(tournament);
                        (false, tell_all(TournamentMessage::LevelUp(state)))
                    },
                }
            },
        }
    }

    pub fn terminate(&mut self) -> (out: Option<Broadcast>)
        ensures
            (final(self)@, sent(out)) == old(self)@.terminate(),
            final(self)@.wf(),
    {
        self.tournament = None;
        tell_all(TournamentMessage::Ended)
    }

    pub fn to_timer_comp_state(&self, device: u128) -> (state: TimerCompState)
        ensures
            state@ == self@.comp_state(device),
    {
        match &self.tournament {
            Some(tournament) => {
                let subscribed: bool = tournament.is_subscribed(device);
                TimerCompState::Running { subscribed, state: tournament.to_roundstate() }
            },
            None => TimerCompState::NoTournament,
        }
    }

    pub fn update_settings(&mut self, duration_override: Option<Duration>) -> (out: Option<
        Broadcast,
    >)
        ensures
            (final(self)@, sent(out)) == old(self)@.update_settings(duration_override),
            old(self)@.wf() ==> final(self)@.wf(),
    {
        match self.tournament.take() {
            Some(mut tournament) => {
                tournament.update_settings(duration_override);
                self.tournament = Some(tournament);
                tell_all(TournamentMessage::Settings)
            },
            None => None,
        }
    }

    pub fn resume_tournament_at(&mut self, device_id: u128, at: DateTime) -> (out: Option<
        Broadcast,
    >)
        ensures
            (final(self)@, sent(out)) == old(self)@.resume(device_id, at),
            old(self)@.wf() ==> final(self)@.wf(),
    {
        match self.tournament.take() {
            Some(mut tournament) => {
                tournament.clock_state = tournament.clock_state.resume_at(at);
                self.tournament = Some(tournament);
                tell_others(TournamentMessage::Resume, device_id)
            },
            None => None,
        }
    }

    pub fn pause_tournament_at(&mut self, device_id: u128, at: DateTime) -> (out: Option<
        Broadcast,
    >)
        ensures
            (final(self)@, sent(out)) == old(self)@.pause(device_id, at),
            old(self)@.wf() ==> final(self)@.wf(),
    {
        match self.tournament.take() {
            Some(mut tournament) => {
                tournament.clock_state = tournament.clock_state.pause_at(at);
                self.tournament = Some(tournament);
                tell_others(TournamentMessage::Pause, device_id)
            },
            None => None,
        }
    }

    pub fn execute_at(&mut self, cmd: &Command, device_id: u128, at: DateTime) -> (out: Option<
        Broadcast,
    >)
        ensures
            (final(self)@, sent(out)) == old(self)@.execute(*cmd, device_id, at),
            old(self)@.wf() ==> final(self)@.wf(),
    {
        match cmd {
            Command::Resume => self.resume_tournament_at(device_id, at),
            Command::Pause => self.pause_tournament_at(device_id, at),
            Command::PrevLevel => self.level_up_at(-1, at).1,
            Command::NextLevel => self.level_up_at(1, at).1,
            Command::Terminate => self.terminate(),
        }
    }

    /// Carries out `cmd` now, by the system's time.
    pub fn execute(&mut self, cmd: &Command, device_id: u128) -> (out: Option<Broadcast>)
        ensures
            exists|at: DateTime|
                (final(self)@, sent(out)) == #[trigger] old(self)@.execute(*cmd, device_id, at),
            old(self)@.wf() ==> final(self)@.wf(),
    {
        let at: DateTime = now();
        let out: Option<Broadcast> = self.execute_at(cmd, device_id, at);
        assert((final(self)@, sent(out)) == old(self)@.execute(*cmd, device_id, at));
        out
    }
}

} // verus!
