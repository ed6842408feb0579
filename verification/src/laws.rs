//! What holds of the clock and of a room whatever the inputs are.

use crate::clock::ClockState;
use crate::model::{BroadcastView, Command, TimerCompStateView, TournamentMessageView};
use crate::notify::is_recipient;
use crate::persistence::StoredTournamentView;
use crate::registry::{is_walk, loaded, records_along, room_of, running_along};
use crate::scheduler::woken;
use crate::structures::level_at;
use crate::time::{DateTime, Duration};
use crate::timers::{from_nobody, TimerView};
use crate::tournament::{capped_level, TimerError, TournamentView};
use vstd::prelude::*;

verus! {

/// Whether `x` is a number of milliseconds that an `i64` holds.
pub open spec fn fits(x: int) -> bool {
    i64::MIN <= x <= i64::MAX
}

/// Stopping a clock and setting it going again loses no time: when it is
/// set going, it has what it had when it was stopped, however long it
/// stood in between.
pub proof fn pause_then_resume_keeps_time(
    clock: ClockState,
    paused_at: DateTime,
    resumed_at: DateTime,
)
    ensures
        clock.paused(paused_at).resumed(resumed_at).time_left(resumed_at) == clock.time_left(
            paused_at,
        ),
        clock.paused(paused_at).resumed(resumed_at) is Running,
{
}

/// The same of a room: after the commands to pause and to resume, the
/// tournament's clock has at the instant of the second command what it
/// had at the instant of the first, and nothing else of the tournament has
/// changed.
pub proof fn pause_then_resume_in_room(
    room: TimerView,
    device_id: u128,
    paused_at: DateTime,
    resumed_at: DateTime,
)
    requires
        room.tournament is Some,
    ensures
        ({
            let before: TournamentView = room.tournament->Some_0;
            let stopped: TimerView = room.execute(Command::Pause, device_id, paused_at).0;
            let after: TimerView = stopped.execute(Command::Resume, device_id, resumed_at).0;
            &&& after.tournament is Some
            &&& after.tournament->Some_0.clock_state.time_left(resumed_at)
                == before.clock_state.time_left(paused_at)
            &&& after.tournament->Some_0 == (TournamentView {
                clock_state: after.tournament->Some_0.clock_state,
                ..before
            })
        }),
{
}

/// A step back from the first level is refused: the room stays as it is,
/// with its tournament, and nobody is told anything.
pub proof fn no_level_before_the_first(room: TimerView, device_id: u128, at: DateTime)
    requires
        room.tournament matches Some(t) && t.level == 1,
    ensures
        room.level_up(-1, at) == (room, false, None::<BroadcastView>),
        room.execute(Command::PrevLevel, device_id, at) == (room, None::<BroadcastView>),
{
}

/// A step forward onto the end of the structure ends the tournament: the
/// room is left without one, so that no device is subscribed any more and
/// every device is shown that nothing is going on, and the one message
/// that goes out is that the tournament has ended.
pub proof fn last_step_ends_the_tournament(room: TimerView, device_id: u128, at: DateTime)
    requires
        room.tournament matches Some(t) && level_at(t.structure, capped_level(t.level as int + 1))
            is Done,
    ensures
        room.level_up(1, at) == (
            room.cleared(),
            true,
            from_nobody(TournamentMessageView::Ended),
        ),
        room.execute(Command::NextLevel, device_id, at) == (
            room.cleared(),
            from_nobody(TournamentMessageView::Ended),
        ),
        forall|d: u128| room.cleared().subscription(d) is None,
        forall|d: u128| room.cleared().comp_state(d) == TimerCompStateView::NoTournament,
        forall|b: BroadcastView, d: u128| !is_recipient(room.cleared(), b, d),
{
}

/// A change of the override moves the clock by the difference between the
/// new and the old length of the current level and by nothing else: at
/// every instant the clock has that much more than it would have had. The
/// time that has been played is not given back. This is stated where the
/// numbers stay within what an `i64` holds.
pub proof fn new_override_shifts_the_clock(
    tournament: TournamentView,
    duration_override: Option<Duration>,
    at: DateTime,
)
    requires
        ({
            let old_length: int = tournament.length_of(tournament.current()).millis as int;
            let new_length: int = match duration_override {
                Some(d) => d.millis as int,
                None => tournament.current().duration().millis as int,
            };
            let left: int = tournament.clock_state.time_left(at).millis as int;
            match tournament.clock_state {
                ClockState::Paused { remaining } => fits(remaining.millis + new_length - old_length),
                ClockState::Running { remaining, asof } => {
                    &&& fits(remaining.millis + new_length - old_length)
                    &&& fits(remaining.millis - (at.millis - asof.millis))
                    &&& fits(left + new_length - old_length)
                },
            }
        }),
    ensures
        ({
            let old_length: int = tournament.length_of(tournament.current()).millis as int;
            let new_length: int = match duration_override {
                Some(d) => d.millis as int,
                None => tournament.current().duration().millis as int,
            };
            let changed: TournamentView = tournament.update_settings(duration_override);
            &&& changed.clock_state.time_left(at).millis == tournament.clock_state.time_left(
                at,
            ).millis + (new_length - old_length)
            &&& changed.clock_state is Paused <==> tournament.clock_state is Paused
            &&& changed.duration_override == duration_override
            &&& changed.level == tournament.level
        }),
{
}

/// A clock crosses the wire without regard to the time of day at either
/// end: whatever the receiver's clock says on arrival, the clock it reads
/// has at that instant what the sender's had when it was written, and is
/// stopped exactly if the sender's was.
pub proof fn wire_round_trip(clock: ClockState, written_at: DateTime, read_at: DateTime)
    ensures
        ClockState::unwire(clock.wire(written_at), read_at).time_left(read_at) == clock.time_left(
            written_at,
        ),
        ClockState::unwire(clock.wire(written_at), read_at) is Paused <==> clock is Paused,
{
}

/// For a running clock this is what it had at `asof` less the time from
/// `asof` to the writing.
pub proof fn wire_round_trip_of_running_clock(
    remaining: Duration,
    asof: DateTime,
    delay: int,
    read_at: DateTime,
)
    requires
        fits(asof.millis + delay),
    ensures
        ({
            let clock: ClockState = ClockState::Running { remaining, asof };
            let written_at: DateTime = DateTime { millis: (asof.millis + delay) as i64 };
            ClockState::unwire(clock.wire(written_at), read_at).time_left(read_at)
                == Duration::of_millis(remaining.millis - delay)
        }),
{
}

/// A well-formed tournament comes back from its record as it was: the
/// same level, override and subscriptions, and a clock that at every
/// instant has what the old one would have had. For a running clock this
/// is stated where what was left at the writing is within what an `i64`
/// holds.
pub proof fn record_round_trip(tournament: TournamentView, saved_at: DateTime, at: DateTime)
    requires
        tournament.wf(),
        tournament.clock_state matches ClockState::Running { remaining, asof } ==> fits(
            remaining.millis - (saved_at.millis - asof.millis),
        ),
    ensures
        ({
            let record: StoredTournamentView = tournament.stored(saved_at);
            let back: Result<TournamentView, TimerError> = record.restored(
                tournament.timer_id,
            );
            &&& back is Ok
            &&& back->Ok_0 == (TournamentView {
                clock_state: back->Ok_0.clock_state,
                ..tournament
            })
            &&& back->Ok_0.clock_state.time_left(at) == tournament.clock_state.time_left(at)
            &&& back->Ok_0.clock_state is Paused <==> tournament.clock_state is Paused
        }),
{
}

/// Every room of `rooms` is well formed and stands under its own number.
pub open spec fn rooms_in_order(rooms: Map<u128, TimerView>) -> bool {
    forall|k: u128| #[trigger] rooms.contains_key(k) ==> rooms[k].wf() && rooms[k].timer_id == k
}

/// The rooms that come of saving the rooms that `ids` names at `at` and
/// loading the records into `start`.
pub open spec fn saved_and_loaded(
    start: Map<u128, TimerView>,
    rooms: Map<u128, TimerView>,
    ids: Seq<u128>,
    at: DateTime,
) -> Map<u128, TimerView> {
    loaded(start, records_along(ids, rooms, at))
}

/// Loading the records of the rooms that `ids` names touches those of
/// them that had a recent tournament, each with its own record, and no
/// other room.
proof fn loading_goes_room_by_room(
    start: Map<u128, TimerView>,
    rooms: Map<u128, TimerView>,
    ids: Seq<u128>,
    at: DateTime,
    k: u128,
)
    requires
        ids.no_duplicates(),
        forall|id: u128| ids.contains(id) ==> rooms.contains_key(id),
        rooms_in_order(rooms),
    ensures
        ({
            let back: Map<u128, TimerView> = saved_and_loaded(start, rooms, ids, at);
            if ids.contains(k) && rooms[k].stored(at) is Some {
                &&& back.contains_key(k)
                &&& back[k] == room_of(start, k).restore(rooms[k].stored(at)->Some_0).0
            } else {
                &&& back.contains_key(k) == start.contains_key(k)
                &&& start.contains_key(k) ==> back[k] == start[k]
            }
        }),
    decreases ids.len(),
{
    if ids.len() == 0 {
        assert(records_along(ids, rooms, at) =~= Seq::<StoredTournamentView>::empty());
    } else {
        let before: Seq<u128> = ids.drop_last();
        let last: u128 = ids.last();
        assert(ids.contains(last));
        assert forall|id: u128| before.contains(id) implies ids.contains(id) && id != last by {
            let i = choose|i: int| 0 <= i < before.len() && before[i] == id;
            assert(ids[i] == id);
        }
        if ids.contains(k) && k != last {
            let i = choose|i: int| 0 <= i < ids.len() && ids[i] == k;
            assert(before[i] == k);
        }
        loading_goes_room_by_room(start, rooms, before, at, k);
        loading_goes_room_by_room(start, rooms, before, at, last);
        let earlier: Map<u128, TimerView> = saved_and_loaded(start, rooms, before, at);
        let room: TimerView = room_of(rooms, last);
        assert(room_of(earlier, last) == room_of(start, last));
        if room.stored(at) is Some {
            let record: StoredTournamentView = room.stored(at)->Some_0;
            let all: Seq<StoredTournamentView> = records_along(ids, rooms, at);
            assert(all =~= records_along(before, rooms, at).push(record));
            assert(all.drop_last() =~= records_along(before, rooms, at));
            assert(all.last() == record);
            assert(record.timer_id == last);
        } else {
            assert(records_along(ids, rooms, at) =~= records_along(before, rooms, at));
        }
    }
}

/// What is saved of a registry and loaded into an empty one gives every
/// room that had a recent tournament its tournament back: the same
/// structure, level, override and subscriptions, under the same number,
/// with the clock that the record holds. No other room comes back.
pub proof fn save_then_load(
    rooms: Map<u128, TimerView>,
    ids: Seq<u128>,
    saved_at: DateTime,
    k: u128,
)
    requires
        is_walk(ids, rooms),
        rooms_in_order(rooms),
    ensures
        ({
            let back: Map<u128, TimerView> = saved_and_loaded(
                Map::<u128, TimerView>::empty(),
                rooms,
                ids,
                saved_at,
            );
            if rooms.contains_key(k) && rooms[k].stored(saved_at) is Some {
                let before: TournamentView = rooms[k].tournament->Some_0;
                &&& back.contains_key(k)
                &&& back[k].timer_id == k
                &&& back[k].tournament == Some(
                    TournamentView { clock_state: before.stored(saved_at).clock(), ..before },
                )
                &&& back[k].wf()
            } else {
                !back.contains_key(k)
            }
        }),
{
    let nothing = Map::<u128, TimerView>::empty();
    loading_goes_room_by_room(nothing, rooms, ids, saved_at, k);
    let back = saved_and_loaded(nothing, rooms, ids, saved_at);
    if rooms.contains_key(k) && rooms[k].stored(saved_at) is Some {
        assert(ids.contains(k));
        assert(back.contains_key(k));
        let before: TournamentView = rooms[k].tournament->Some_0;
        let record: StoredTournamentView = rooms[k].stored(saved_at)->Some_0;
        assert(record == before.stored(saved_at));
        assert(record.restored(k) is Ok);
        assert(record.restored(k)->Ok_0 =~= (TournamentView {
            clock_state: record.clock(),
            ..before
        }));
    } else {
        assert(back.contains_key(k) == nothing.contains_key(k));
    }
}

/// Starting a tournament in a room that has one changes nothing and tells
/// nobody, whatever structure is named.
pub proof fn start_is_idempotent(room: TimerView, structure_name: Seq<char>, at: DateTime)
    requires
        room.tournament is Some,
    ensures
        room.make_tournament(structure_name, at) == (
            room,
            Ok::<Option<BroadcastView>, TimerError>(None),
        ),
{
}

/// A break gives its warning once: once it is given, no waking gives it
/// again, and the warning stays given for as long as the level is not
/// over.
pub proof fn warning_is_given_once(room: TimerView, at: DateTime)
    ensures
        woken(room, true, at).2 != from_nobody(TournamentMessageView::OneMinuteWarning),
        room.tournament matches Some(t) && !t.is_over(at) ==> woken(room, true, at).1.gave_warning
            && woken(room, true, at).0 == room,
{
}

/// The device that caused a message is not alerted of it.
pub proof fn originator_is_not_alerted(
    room: TimerView,
    message: TournamentMessageView,
    device_id: u128,
)
    requires
        !(message is NotificationChange),
    ensures
        !is_recipient(room, BroadcastView { message, from_device_id: Some(device_id) }, device_id),
{
}

/// Every command leaves a well-formed room well formed.
pub proof fn commands_keep_rooms_well_formed(
    room: TimerView,
    cmd: Command,
    device_id: u128,
    at: DateTime,
)
    requires
        room.wf(),
    ensures
        room.execute(cmd, device_id, at).0.wf(),
        room.execute(cmd, device_id, at).0.timer_id == room.timer_id,
{
}

} // verus!
