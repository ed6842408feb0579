use pokertimer::clock::ClockState;
use pokertimer::level::Level;
use pokertimer::model::{
    Broadcast, Command, RoundState, Subscription, SubscriptionKeys, TimerCompState,
    TournamentMessage,
};
use pokertimer::structures::Structure;
use pokertimer::time::{DateTime, Duration};
use pokertimer::timers::Timer;
use pokertimer::tournament::{LevelUpResult, TimerError, Tournament};
use std::collections::HashMap;

fn at(millis: i64) -> DateTime {
    DateTime::from_timestamp_millis(millis)
}

fn blinds_20() -> Level {
    Level::Blinds {
        game: "NLHE".to_string(),
        small: 100,
        big: 200,
        ante: None,
        duration: Duration::minutes(20),
    }
}

fn break_10() -> Level {
    Level::Break { duration: Duration::minutes(10) }
}

fn short_structure() -> Structure {
    Structure { levels: vec![blinds_20(), break_10(), Level::Done] }
}

fn short_tournament(clock_state: ClockState) -> Tournament {
    Tournament {
        created: at(0),
        timer_id: 7,
        structure_name: "short".to_string(),
        structure: short_structure(),
        level: 1,
        clock_state,
        duration_override: None,
        subscriptions: HashMap::new(),
    }
}

fn short_room(clock_state: ClockState) -> Timer {
    Timer { timer_id: 7, tournament: Some(short_tournament(clock_state)) }
}

fn subscription(tag: &str) -> Subscription {
    Subscription {
        endpoint: format!("https://push.example/{tag}"),
        keys: SubscriptionKeys { auth: format!("auth-{tag}"), p256dh: format!("key-{tag}") },
    }
}

fn told(message: TournamentMessage) -> Option<Broadcast> {
    Some(Broadcast { message, from_device_id: None })
}

#[test]
fn new_room_has_no_tournament() {
    let room = Timer::new(42);
    assert_eq!(room.timer_id, 42);
    assert!(room.tournament.is_none());
    assert_eq!(room.to_timer_comp_state(1), TimerCompState::NoTournament);
    assert_eq!(room.subscription(1), None);
}

#[test]
fn start_puts_the_first_level_on_a_stopped_clock() {
    let mut room = Timer::new(42);
    let out = room.make_tournament_at("Nightly NLHE".to_string(), at(5_000));
    assert_eq!(out, Ok(told(TournamentMessage::Started)));
    let t = room.tournament.as_ref().unwrap();
    assert_eq!(t.level, 1);
    assert_eq!(t.created, at(5_000));
    assert_eq!(t.timer_id, 42);
    assert_eq!(t.structure_name, "Nightly NLHE");
    assert_eq!(t.structure.levels.len(), 21);
    assert_eq!(t.clock_state, ClockState::Paused { remaining: Duration::minutes(20) });
    assert_eq!(t.duration_override, None);
    assert!(t.subscriptions.is_empty());
}

#[test]
fn start_is_a_no_op_on_a_running_tournament() {
    let mut room = Timer::new(42);
    room.make_tournament_at("Nightly NLHE".to_string(), at(5_000)).unwrap();
    room.execute_at(&Command::NextLevel, 1, at(6_000));
    let before = room.tournament.as_ref().unwrap().to_roundstate();
    assert_eq!(room.make_tournament_at("FARGO Pairs".to_string(), at(9_000)), Ok(None));
    // even a name that is unknown is passed over
    assert_eq!(room.make_tournament_at("unknown".to_string(), at(9_000)), Ok(None));
    assert_eq!(room.tournament.as_ref().unwrap().to_roundstate(), before);
    assert_eq!(room.tournament.as_ref().unwrap().structure_name, "Nightly NLHE");
}

#[test]
fn start_fails_on_an_unknown_structure() {
    let mut room = Timer::new(42);
    assert_eq!(
        room.make_tournament_at("Friday Night".to_string(), at(0)),
        Err(TimerError::StructureNotFound)
    );
    assert!(room.tournament.is_none());
    assert_eq!(room.make_tournament("Friday Night".to_string()), Err(TimerError::StructureNotFound));
    assert!(room.tournament.is_none());
    assert_eq!(
        Tournament::new_at(1, "Friday Night".to_string(), at(0)),
        Err(TimerError::StructureNotFound)
    );
}

#[test]
fn start_by_the_system_clock() {
    let mut room = Timer::new(42);
    assert_eq!(
        room.make_tournament("FARGO Pairs".to_string()),
        Ok(told(TournamentMessage::Started))
    );
    let t = room.tournament.as_ref().unwrap();
    assert!(t.created.timestamp_millis() > 1_577_836_800_000);
    assert_eq!(t.level, 1);
    assert_eq!(t.clock_state, ClockState::Paused { remaining: Duration::minutes(20) });
    assert_eq!(room.make_tournament("FARGO Pairs".to_string()), Ok(None));
}

#[test]
fn error_messages() {
    assert_eq!(TimerError::StructureNotFound.message(), "Structure not found");
    assert_eq!(TimerError::NoTournament.message(), "No running tournament");
    assert_eq!(TimerError::BadLevel.message(), "Level out of range");
}

#[test]
fn resume_and_pause_are_tagged_with_the_device() {
    let mut room = short_room(ClockState::Paused { remaining: Duration::minutes(20) });
    let out = room.execute_at(&Command::Resume, 9, at(1_000));
    assert_eq!(
        out,
        Some(Broadcast { message: TournamentMessage::Resume, from_device_id: Some(9) })
    );
    assert_eq!(
        room.tournament.as_ref().unwrap().clock_state,
        ClockState::Running { remaining: Duration::minutes(20), asof: at(1_000) }
    );
    let out = room.execute_at(&Command::Pause, 8, at(61_000));
    assert_eq!(out, Some(Broadcast { message: TournamentMessage::Pause, from_device_id: Some(8) }));
    assert_eq!(
        room.tournament.as_ref().unwrap().clock_state,
        ClockState::Paused { remaining: Duration::minutes(19) }
    );
}

#[test]
fn pause_then_resume_in_a_room_keeps_the_time() {
    let mut room =
        short_room(ClockState::Running { remaining: Duration::minutes(20), asof: at(0) });
    room.execute_at(&Command::Pause, 1, at(300_000));
    room.execute_at(&Command::Resume, 1, at(300_000));
    let clock = room.tournament.as_ref().unwrap().clock_state;
    assert_eq!(clock.remaining_at(at(300_000)), Duration::minutes(15));
}

#[test]
fn commands_on_an_empty_room_change_nothing() {
    let mut room = Timer::new(3);
    assert_eq!(room.execute_at(&Command::Pause, 1, at(0)), None);
    assert_eq!(room.execute_at(&Command::Resume, 1, at(0)), None);
    assert_eq!(room.execute_at(&Command::NextLevel, 1, at(0)), None);
    assert_eq!(room.execute_at(&Command::PrevLevel, 1, at(0)), None);
    assert_eq!(room.execute(&Command::Pause, 1), None);
    assert_eq!(room.update_settings(Some(Duration::minutes(5))), None);
    assert_eq!(room.subscribe(1, subscription("a")), None);
    assert_eq!(room.unsubscribe(1), None);
    assert_eq!(room.level_up_at(1, at(0)), (true, None));
    assert_eq!(room, Timer::new(3));
}

#[test]
fn previous_level_at_the_first_level_is_a_no_op() {
    let clock = ClockState::Running { remaining: Duration::minutes(20), asof: at(0) };
    let mut room = short_room(clock);
    assert_eq!(room.execute_at(&Command::PrevLevel, 1, at(60_000)), None);
    assert_eq!(room, short_room(clock));
    assert_eq!(room.level_up_at(-1, at(60_000)), (false, None));
    assert_eq!(room.tournament.as_ref().unwrap().level, 1);
    let mut t = short_tournament(clock);
    assert_eq!(t.level_up_at(-1, at(60_000)), LevelUpResult::Invalid);
    assert_eq!(t, short_tournament(clock));
    assert_eq!(t.level_up_at(-128, at(60_000)), LevelUpResult::Invalid);
    assert_eq!(t.level, 1);
}

#[test]
fn next_level_sets_the_clock_and_tells_the_new_state() {
    let mut room =
        short_room(ClockState::Running { remaining: Duration::minutes(20), asof: at(0) });
    let out = room.execute_at(&Command::NextLevel, 1, at(300_000));
    let clock = ClockState::Running { remaining: Duration::minutes(10), asof: at(300_000) };
    assert_eq!(
        out,
        told(TournamentMessage::LevelUp(RoundState {
            cur: break_10(),
            next: Level::Done,
            timer_id: 7,
            level: 2,
            clock,
        }))
    );
    let t = room.tournament.as_ref().unwrap();
    assert_eq!(t.level, 2);
    assert_eq!(t.clock_state, clock);
}

#[test]
fn level_change_keeps_a_stopped_clock_stopped() {
    let mut t = short_tournament(ClockState::Paused { remaining: Duration::seconds(5) });
    assert_eq!(t.level_up_at(1, at(1)), LevelUpResult::Moved);
    assert_eq!(t.level, 2);
    assert_eq!(t.clock_state, ClockState::Paused { remaining: Duration::minutes(10) });
    assert_eq!(t.level_up_at(-1, at(2)), LevelUpResult::Moved);
    assert_eq!(t.level, 1);
    assert_eq!(t.clock_state, ClockState::Paused { remaining: Duration::minutes(20) });
}

#[test]
fn level_change_uses_the_override() {
    let mut t = short_tournament(ClockState::Paused { remaining: Duration::seconds(5) });
    t.duration_override = Some(Duration::minutes(3));
    assert_eq!(t.level_up_at(1, at(1)), LevelUpResult::Moved);
    assert_eq!(t.clock_state, ClockState::Paused { remaining: Duration::minutes(3) });
}

#[test]
fn reaching_the_end_clears_the_room() {
    let mut room =
        short_room(ClockState::Running { remaining: Duration::minutes(20), asof: at(0) });
    room.subscribe(1, subscription("a"));
    room.subscribe(2, subscription("b"));
    room.execute_at(&Command::NextLevel, 1, at(1_000));
    assert_eq!(room.tournament.as_ref().unwrap().level, 2);
    let out = room.execute_at(&Command::NextLevel, 1, at(2_000));
    assert_eq!(out, told(TournamentMessage::Ended));
    assert!(room.tournament.is_none());
    assert_eq!(room.to_timer_comp_state(1), TimerCompState::NoTournament);
    assert_eq!(room.subscription(1), None);
    assert_eq!(room.subscription(2), None);
    // nothing more is told after the end
    assert_eq!(room.execute_at(&Command::NextLevel, 1, at(3_000)), None);
}

#[test]
fn level_numbers_stop_at_the_largest() {
    let mut t = short_tournament(ClockState::Paused { remaining: Duration::seconds(5) });
    t.level = usize::MAX;
    assert_eq!(t.to_roundstate().next, Level::Done);
    assert_eq!(t.level_up_at(1, at(1)), LevelUpResult::Done);
    assert_eq!(t.level, usize::MAX);
    assert_eq!(t.level_up_at(127, at(1)), LevelUpResult::Done);
    assert_eq!(t.level, usize::MAX);
}

#[test]
fn terminate_ends_the_tournament() {
    let mut room = short_room(ClockState::Paused { remaining: Duration::minutes(20) });
    assert_eq!(room.execute_at(&Command::Terminate, 5, at(0)), told(TournamentMessage::Ended));
    assert!(room.tournament.is_none());
    assert_eq!(room.terminate(), told(TournamentMessage::Ended));
    assert!(room.tournament.is_none());
}

#[test]
fn override_mid_level_moves_the_clock_by_the_difference() {
    // a level of twenty minutes, five of them played
    let mut room =
        short_room(ClockState::Running { remaining: Duration::minutes(20), asof: at(0) });
    let now = at(300_000);
    assert_eq!(
        room.tournament.as_ref().unwrap().clock_state.remaining_at(now),
        Duration::minutes(15)
    );
    let out = room.update_settings(Some(Duration::minutes(25)));
    assert_eq!(out, told(TournamentMessage::Settings));
    let t = room.tournament.as_ref().unwrap();
    assert_eq!(t.duration_override, Some(Duration::minutes(25)));
    assert_eq!(t.clock_state.remaining_at(now), Duration::minutes(20));
    assert_eq!(
        t.clock_state,
        ClockState::Running { remaining: Duration::minutes(25), asof: at(0) }
    );
}

#[test]
fn override_can_be_changed_and_removed() {
    let mut t = short_tournament(ClockState::Paused { remaining: Duration::minutes(12) });
    t.update_settings(Some(Duration::minutes(30)));
    assert_eq!(t.clock_state, ClockState::Paused { remaining: Duration::minutes(22) });
    t.update_settings(Some(Duration::minutes(25)));
    assert_eq!(t.clock_state, ClockState::Paused { remaining: Duration::minutes(17) });
    t.update_settings(None);
    assert_eq!(t.clock_state, ClockState::Paused { remaining: Duration::minutes(12) });
    assert_eq!(t.duration_override, None);
    t.update_settings(Some(Duration::minutes(5)));
    assert_eq!(t.clock_state, ClockState::Paused { remaining: Duration::minutes(-3) });
}

#[test]
fn subscribe_and_unsubscribe() {
    let mut room = short_room(ClockState::Paused { remaining: Duration::minutes(20) });
    assert_eq!(
        room.subscribe(11, subscription("a")),
        told(TournamentMessage::NotificationChange(11))
    );
    assert_eq!(room.subscription(11), Some(&subscription("a")));
    assert_eq!(room.subscription(12), None);
    // a second subscription of the device takes the place of the first
    room.subscribe(11, subscription("b"));
    assert_eq!(room.subscription(11), Some(&subscription("b")));
    assert_eq!(room.tournament.as_ref().unwrap().subscriptions.len(), 1);
    assert!(room.tournament.as_ref().unwrap().is_subscribed(11));
    assert_eq!(room.unsubscribe(11), told(TournamentMessage::NotificationChange(11)));
    assert_eq!(room.subscription(11), None);
    assert!(!room.tournament.as_ref().unwrap().is_subscribed(11));
    // a device that is not subscribed is told of the change all the same
    assert_eq!(room.unsubscribe(99), told(TournamentMessage::NotificationChange(99)));
}

#[test]
fn state_for_a_device() {
    let clock = ClockState::Running { remaining: Duration::minutes(20), asof: at(0) };
    let mut room = short_room(clock);
    room.subscribe(11, subscription("a"));
    let state = RoundState { cur: blinds_20(), next: break_10(), timer_id: 7, level: 1, clock };
    assert_eq!(
        room.to_timer_comp_state(11),
        TimerCompState::Running { subscribed: true, state: state.clone() }
    );
    assert_eq!(room.to_timer_comp_state(12), TimerCompState::Running { subscribed: false, state });
}

#[test]
fn room_clone_is_equal() {
    let mut room =
        short_room(ClockState::Running { remaining: Duration::minutes(20), asof: at(0) });
    room.subscribe(11, subscription("a"));
    assert_eq!(room.clone(), room);
    assert_eq!(room.tournament.as_ref().unwrap().clone(), *room.tournament.as_ref().unwrap());
    assert_eq!(Timer::new(3).clone(), Timer::new(3));
}

#[test]
fn commands_by_the_system_clock() {
    let mut room = short_room(ClockState::Paused { remaining: Duration::minutes(20) });
    let out = room.execute(&Command::Resume, 4);
    assert_eq!(
        out,
        Some(Broadcast { message: TournamentMessage::Resume, from_device_id: Some(4) })
    );
    match room.tournament.as_ref().unwrap().clock_state {
        ClockState::Running { remaining, asof } => {
            assert_eq!(remaining, Duration::minutes(20));
            assert!(asof.timestamp_millis() > 1_577_836_800_000);
        }
        ClockState::Paused { .. } => panic!("the clock did not start"),
    }
    assert_eq!(room.execute(&Command::PrevLevel, 4), None);
    assert_eq!(room.execute(&Command::Terminate, 4), told(TournamentMessage::Ended));
}
