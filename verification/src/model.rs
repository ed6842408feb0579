//! The values that pass between a room, its viewers and its background
//! tasks.

use crate::clock::ClockState;
use crate::level::{Level, LevelView};
use vstd::prelude::*;

verus! {

/// The key material of a push subscription.
#[derive(Debug, PartialEq)]
pub struct SubscriptionKeys {
    pub auth: String,
    pub p256dh: String,
}

/// Where and how one device receives push notifications. The library
/// carries it to the sender and never looks inside.
#[derive(Debug, PartialEq)]
pub struct Subscription {
    pub endpoint: String,
    pub keys: SubscriptionKeys,
}

pub struct SubscriptionView {
    pub endpoint: Seq<char>,
    pub auth: Seq<char>,
    pub p256dh: Seq<char>,
}

impl View for Subscription {
    type V = SubscriptionView;

    open spec fn view(&self) -> SubscriptionView {
        SubscriptionView {
            endpoint: self.endpoint@,
            auth: self.keys.auth@,
            p256dh: self.keys.p256dh@,
        }
    }
}

impl Clone for SubscriptionKeys {
    fn clone(&self) -> (res: Self)
        ensures
            res == *self,
    {
        SubscriptionKeys { auth: self.auth.clone(), p256dh: self.p256dh.clone() }
    }
}

impl Clone for Subscription {
    fn clone(&self) -> (res: Self)
        ensures
            res == *self,
    {
        Subscription { endpoint: self.endpoint.clone(), keys: self.keys.clone() }
    }
}

/// A short alert for a subscribed device.
#[derive(Debug, PartialEq)]
pub struct Notification {
    pub title: String,
    pub body: String,
}

pub struct NotificationView {
    pub title: Seq<char>,
    pub body: Seq<char>,
}

impl View for Notification {
    type V = NotificationView;

    open spec fn view(&self) -> NotificationView {
        NotificationView { title: self.title@, body: self.body@ }
    }
}

impl Clone for Notification {
    fn clone(&self) -> (res: Self)
        ensures
            res == *self,
    {
        Notification { title: self.title.clone(), body: self.body.clone() }
    }
}

/// All that a viewer needs to draw the current level.
#[derive(Debug, PartialEq)]
pub struct RoundState {
    pub cur: Level,
    pub next: Level,
    pub timer_id: u128,
    pub level: usize,
    pub clock: ClockState,
}

pub struct RoundStateView {
    pub cur: LevelView,
    pub next: LevelView,
    pub timer_id: u128,
    pub level: nat,
    pub clock: ClockState,
}

impl View for RoundState {
    type V = RoundStateView;

    open spec fn view(&self) -> RoundStateView {
        RoundStateView {
            cur: self.cur@,
            next: self.next@,
            timer_id: self.timer_id,
            level: self.level as nat,
            clock: self.clock,
        }
    }
}

impl Clone for RoundState {
    fn clone(&self) -> (res: Self)
        ensures
            res == *self,
    {
        RoundState {
            cur: self.cur.clone(),
            next: self.next.clone(),
            timer_id: self.timer_id,
            level: self.level,
            clock: self.clock,
        }
    }
}

/// What a viewer shows.
#[derive(Debug, PartialEq)]
pub enum TimerCompState {
    Loading,
    NoTournament,
    Running { subscribed: bool, state: RoundState },
    Error(String),
}

pub enum TimerCompStateView {
    Loading,
    NoTournament,
    Running { subscribed: bool, state: RoundStateView },
    Error(Seq<char>),
}

impl View for TimerCompState {
    type V = TimerCompStateView;

    open spec fn view(&self) -> TimerCompStateView {
        match *self {
            TimerCompState::Loading => TimerCompStateView::Loading,
            TimerCompState::NoTournament => TimerCompStateView::NoTournament,
            TimerCompState::Running { subscribed, state } => TimerCompStateView::Running {
                subscribed,
                state: state@,
            },
            TimerCompState::Error(text) => TimerCompStateView::Error(text@),
        }
    }
}

/// A message from a room to one viewer.
#[derive(Debug, PartialEq)]
pub enum DeviceMessage {
    NewState(TimerCompState),
    Beep,
}

pub enum DeviceMessageView {
    NewState(TimerCompStateView),
    Beep,
}

impl View for DeviceMessage {
    type V = DeviceMessageView;

    open spec fn view(&self) -> DeviceMessageView {
        match *self {
            DeviceMessage::NewState(state) => DeviceMessageView::NewState(state@),
            DeviceMessage::Beep => DeviceMessageView::Beep,
        }
    }
}

/// A message from a viewer to its room.
#[derive(Clone, Copy, Debug, PartialEq, Eq, Structural)]
pub enum Command {
    Pause,
    Resume,
    NextLevel,
    PrevLevel,
    Terminate,
}

/// What happened in a room, as told to everyone who listens to it.
#[derive(Debug, PartialEq)]
pub enum TournamentMessage {
    /// The given device turned its notifications on or off.
    NotificationChange(u128),
    Started,
    Ended,
    Pause,
    Resume,
    LevelUp(RoundState),
    /// The settings of the tournament changed.
    Settings,
    /// One minute is left of a break.
    OneMinuteWarning,
}

pub enum TournamentMessageView {
    NotificationChange(u128),
    Started,
    Ended,
    Pause,
    Resume,
    LevelUp(RoundStateView),
    Settings,
    OneMinuteWarning,
}

impl View for TournamentMessage {
    type V = TournamentMessageView;

    open spec fn view(&self) -> TournamentMessageView {
        match *self {
            TournamentMessage::NotificationChange(device) => {
                TournamentMessageView::NotificationChange(device)
            },
            TournamentMessage::Started => TournamentMessageView::Started,
            TournamentMessage::Ended => TournamentMessageView::Ended,
            TournamentMessage::Pause => TournamentMessageView::Pause,
            TournamentMessage::Resume => TournamentMessageView::Resume,
            TournamentMessage::LevelUp(state) => TournamentMessageView::LevelUp(state@),
            TournamentMessage::Settings => TournamentMessageView::Settings,
            TournamentMessage::OneMinuteWarning => TournamentMessageView::OneMinuteWarning,
        }
    }
}

impl Clone for TournamentMessage {
    fn clone(&self) -> (res: Self)
        ensures
            res == *self,
    {
        match self {
            TournamentMessage::NotificationChange(device) => TournamentMessage::NotificationChange(
                *device,
            ),
            TournamentMessage::Started => TournamentMessage::Started,
            TournamentMessage::Ended => TournamentMessage::Ended,
            TournamentMessage::Pause => TournamentMessage::Pause,
            TournamentMessage::Resume => TournamentMessage::Resume,
            TournamentMessage::LevelUp(state) => TournamentMessage::LevelUp(state.clone()),
            TournamentMessage::Settings => TournamentMessage::Settings,
            TournamentMessage::OneMinuteWarning => TournamentMessage::OneMinuteWarning,
        }
    }
}

/// A message on its way to the listeners of a room, with the device that
/// caused it, where one did: that device gets no alert for its own act.
#[derive(Debug, PartialEq)]
pub struct Broadcast {
    pub message: TournamentMessage,
    pub from_device_id: Option<u128>,
}

impl Clone for Broadcast {
    fn clone(&self) -> (res: Self)
        ensures
            res == *self,
    {
        Broadcast { message: self.message.clone(), from_device_id: self.from_device_id }
    }
}

pub struct BroadcastView {
    pub message: TournamentMessageView,
    pub from_device_id: Option<u128>,
}

impl View for Broadcast {
    type V = BroadcastView;

    open spec fn view(&self) -> BroadcastView {
        BroadcastView { message: self.message@, from_device_id: self.from_device_id }
    }
}

/// The view of a message that may have been sent.
pub open spec fn sent(b: Option<Broadcast>) -> Option<BroadcastView> {
    match b {
        Some(b) => Some(b@),
        None => None,
    }
}

} // verus!
