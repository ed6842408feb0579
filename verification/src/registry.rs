//! The rooms of a server, by their numbers, and what a request that names
//! a room does. A room is made the first time its number is asked for and
//! stays for good.

use crate::model::{sent, Broadcast, BroadcastView, Command, Subscription, TimerCompState};
use crate::persistence::{StoredTournament, StoredTournamentView};
use crate::time::{now, DateTime, Duration};
use crate::timers::{sent_or, Timer, TimerView};
use crate::tournament::TimerError;
use dashmap::DashMap;
use vstd::prelude::*;

verus! {

/// `dashmap::DashMap`, taken as it is: what a map holds is known only by
/// what the calls below say of `rooms_in`.
#[verifier::external_type_specification]
#[verifier::external_body]
#[verifier::reject_recursive_types(K)]
#[verifier::reject_recursive_types(V)]
#[verifier::reject_recursive_types(S)]
pub struct ExDashMap<K, V, S>(DashMap<K, V, S>);

/// The rooms that a map holds, each under its key.
pub uninterp spec fn rooms_in(m: DashMap<u128, Timer>) -> Map<u128, Timer>;

/// `DashMap::new`: a map that holds nothing.
#[verifier::external_body]
fn rooms_new() -> (made: DashMap<u128, Timer>)
    ensures
        forall|k: u128| !rooms_in(made).contains_key(k),
{
    DashMap::new()
}

/// `DashMap::remove`: takes the entry of `timer_id` out of the map and
/// hands its room back; a map without such an entry stays as it is. The
/// call does not unwind.
#[verifier::external_body]
fn rooms_remove(m: &mut DashMap<u128, Timer>, timer_id: u128) -> (room: Option<Timer>)
    ensures
        rooms_in(*final(m)) == rooms_in(*old(m)).remove(timer_id),
        room == if rooms_in(*old(m)).contains_key(timer_id) {
            Some(rooms_in(*old(m))[timer_id])
        } else {
            None::<Timer>
        },
    no_unwind
{
    m.remove(&timer_id).map(|entry| entry.1)
}

/// `DashMap::insert`: puts `room` under `timer_id`, in place of any room
/// that was there. The call does not unwind.
#[verifier::external_body]
fn rooms_insert(m: &mut DashMap<u128, Timer>, timer_id: u128, room: Timer)
    ensures
        rooms_in(*final(m)) == rooms_in(*old(m)).insert(timer_id, room),
    no_unwind
{
    m.insert(timer_id, room);
}

/// `DashMap::iter`: the keys of the map, each once, in the order in which
/// the map is walked, of which nothing is known.
#[verifier::external_body]
fn rooms_keys(m: &DashMap<u128, Timer>) -> (keys: Vec<u128>)
    ensures
        keys@.no_duplicates(),
        forall|k: u128| keys@.contains(k) <==> rooms_in(*m).contains_key(k),
{
    m.iter().map(|entry| *entry.key()).collect()
}

pub struct Registry {
    rooms: DashMap<u128, Timer>,
}

impl View for Registry {
    type V = Map<u128, TimerView>;

    closed spec fn view(&self) -> Map<u128, TimerView> {
        rooms_in(self.rooms).map_values(|room: Timer| room@)
    }
}

/// The room with the number `timer_id`: the one that `rooms` holds, or,
/// where the number is new, a room without a tournament.
pub open spec fn room_of(rooms: Map<u128, TimerView>, timer_id: u128) -> TimerView {
    if rooms.contains_key(timer_id) {
        rooms[timer_id]
    } else {
        TimerView { timer_id, tournament: None }
    }
}

/// `ids` names every room of `rooms` once.
pub open spec fn is_walk(ids: Seq<u128>, rooms: Map<u128, TimerView>) -> bool {
    &&& ids.no_duplicates()
    &&& forall|k: u128| ids.contains(k) <==> rooms.contains_key(k)
}

/// Those of the rooms that `ids` names whose tournament is recent at
/// `at`, in the order of `ids`.
pub open spec fn running_along(ids: Seq<u128>, rooms: Map<u128, TimerView>, at: DateTime) -> Seq<
    TimerView,
>
    decreases ids.len(),
{
    if ids.len() == 0 {
        Seq::empty()
    } else {
        let before: Seq<TimerView> = running_along(ids.drop_last(), rooms, at);
        if room_of(rooms, ids.last()).stored(at) is Some {
            before.push(room_of(rooms, ids.last()))
        } else {
            before
        }
    }
}

/// The records to keep at `at` of the rooms that `ids` names, in the
/// order of `ids`.
pub open spec fn records_along(ids: Seq<u128>, rooms: Map<u128, TimerView>, at: DateTime) -> Seq<
    StoredTournamentView,
> {
    running_along(ids, rooms, at).map_values(|room: TimerView| room.stored(at)->Some_0)
}

/// The views of a list of rooms.
pub open spec fn room_views(list: Seq<Timer>) -> Seq<TimerView> {
    list.map_values(|room: Timer| room@)
}

/// The views of a list of records.
pub open spec fn record_views(list: Seq<StoredTournament>) -> Seq<StoredTournamentView> {
    list.map_values(|r: StoredTournament| r@)
}

/// The rooms after each of `records` has been put into the room that it
/// names, one after the other.
pub open spec fn loaded(rooms: Map<u128, TimerView>, records: Seq<StoredTournamentView>) -> Map<
    u128,
    TimerView,
>
    decreases records.len(),
{
    if records.len() == 0 {
        rooms
    } else {
        let before: Map<u128, TimerView> = loaded(rooms, records.drop_last());
        let record: StoredTournamentView = records.last();
        before.insert(record.timer_id, room_of(before, record.timer_id).restore(record).0)
    }
}

/// How the loading of one record went.
#[derive(Debug, PartialEq)]
pub struct Loaded {
    /// The room that the record names.
    pub timer_id: u128,
    /// The message to send in that room, or why the record was passed over.
    pub outcome: Result<Option<Broadcast>, TimerError>,
}

/// How the loading of `record` goes: a record stands or falls by itself,
/// whatever the room holds.
pub open spec fn outcome_of(record: StoredTournamentView) -> Result<
    Option<BroadcastView>,
    TimerError,
> {
    TimerView { timer_id: record.timer_id, tournament: None }.restore(record).1
}

impl Registry {
    /// Every room stands under its own number.
    #[verifier::type_invariant]
    spec fn numbered(self) -> bool {
        forall|k: u128| #[trigger]
            rooms_in(self.rooms).contains_key(k) ==> rooms_in(self.rooms)[k].timer_id == k
    }

    pub fn new() -> (registry: Registry)
        ensures
            registry@ == Map::<u128, TimerView>::empty(),
    {
        let registry: Registry = Registry { rooms: rooms_new() };
        assert(registry@ =~= Map::<u128, TimerView>::empty());
        registry
    }

    fn checkout(&mut self, timer_id: u128) -> (room: Timer)
        ensures
            final(self)@ == old(self)@.remove(timer_id),
            room@ == room_of(old(self)@, timer_id),
            room.timer_id == timer_id,
    {
        proof {
            use_type_invariant(&*self);
        }
        let found: Option<Timer> = rooms_remove(&mut self.rooms, timer_id);
        assert(final(self)@ =~= old(self)@.remove(timer_id));
        match found {
            Some(room) => room,
            None => Timer::new(timer_id),
        }
    }

    /// Puts `room` under its number, in place of the room that was there.
    /// This is how a room that `Timer::get_mut` gave comes back.
    pub fn checkin(&mut self, room: Timer)
        ensures
            final(self)@ == old(self)@.insert(room.timer_id, room@),
    {
        proof {
            use_type_invariant(&*self);
        }
        let timer_id: u128 = room.timer_id;
        rooms_insert(&mut self.rooms, timer_id, room);
        assert(final(self)@ =~= old(self)@.insert(timer_id, room@));
    }

    /// The numbers of the rooms, each once, in no order to speak of.
    pub fn room_ids(&self) -> (ids: Vec<u128>)
        ensures
            is_walk(ids@, self@),
            forall|k: u128| #[trigger] self@.contains_key(k) ==> self@[k].timer_id == k,
    {
        proof {
            use_type_invariant(self);
        }
        let ids: Vec<u128> = rooms_keys(&self.rooms);
        assert forall|k: u128| ids@.contains(k) <==> self@.contains_key(k) by {
            assert(self@.contains_key(k) <==> rooms_in(self.rooms).contains_key(k));
        }
        ids
    }
}

impl Timer {
    /// Takes the room `timer_id` out of the registry, for its holder alone
    /// to change and to hand back with `Registry::checkin`; a number that
    /// is new gives a room without a tournament.
    pub fn get_mut(registry: &mut Registry, timer_id: u128) -> (room: Timer)
        ensures
            final(registry)@ == old(registry)@.remove(timer_id),
            room@ == room_of(old(registry)@, timer_id),
            room.timer_id == timer_id,
    {
        registry.checkout(timer_id)
    }

    /// A copy of the room `timer_id` to read. The registry keeps the room;
    /// a number that is new gets a room without a tournament there.
    pub fn get(registry: &mut Registry, timer_id: u128) -> (room: Timer)
        ensures
            final(registry)@ == old(registry)@.insert(timer_id, room_of(old(registry)@, timer_id)),
            room@ == room_of(old(registry)@, timer_id),
            room.timer_id == timer_id,
    {
        let room: Timer = Timer::get_mut(registry, timer_id);
        let copy: Timer = room.clone();
        registry.checkin(room);
        copy
    }

    /// Copies of the rooms whose tournament is recent at `at`, in the order
    /// in which the registry is walked. The registry stays as it is.
    pub fn for_running_timers_at(registry: &mut Registry, at: DateTime) -> (running: Vec<Timer>)
        ensures
            final(registry)@ == old(registry)@,
            exists|ids: Seq<u128>|
                is_walk(ids, old(registry)@) && room_views(running@) == #[trigger] running_along(
                    ids,
                    old(registry)@,
                    at,
                ),
    {
        let ids: Vec<u128> = registry.room_ids();
        let mut running: Vec<Timer> = Vec::new();
        let mut i: usize = 0;
        assert(room_views(running@) =~= running_along(ids@.take(0), registry@, at));
        while i < ids.len()
            invariant
                i <= ids.len(),
                registry@ == old(registry)@,
                is_walk(ids@, registry@),
                room_views(running@) == running_along(ids@.take(i as int), registry@, at),
            decreases ids.len() - i,
        {
            let timer_id: u128 = ids[i];
            let ghost rooms: Map<u128, TimerView> = registry@;
            let ghost before: Seq<Timer> = running@;
            assert(ids@.contains(timer_id));
            let room: Timer = Timer::get_mut(registry, timer_id);
            let recent: bool = match &room.tournament {
                Some(t) => t.is_recent_at(at),
                None => false,
            };
            if recent {
                running.push(room.clone());
            }
            registry.checkin(room);
            proof {
                assert(registry@ =~= rooms);
                let walked: Seq<u128> = ids@.take(i as int + 1);
                assert(walked.drop_last() =~= ids@.take(i as int));
                assert(walked.last() == timer_id);
                if recent {
                    assert(room_views(running@) =~= room_views(before).push(
                        room_of(rooms, timer_id),
                    ));
                }
            }
            i += 1;
        }
        assert(ids@.take(ids.len() as int) =~= ids@);
        running
    }

    /// Copies of the rooms whose tournament is recent now, by the system's
    /// time.
    pub fn for_running_timers(registry: &mut Registry) -> (running: Vec<Timer>)
        ensures
            final(registry)@ == old(registry)@,
            exists|ids: Seq<u128>, at: DateTime|
                is_walk(ids, old(registry)@) && room_views(running@) == #[trigger] running_along(
                    ids,
                    old(registry)@,
                    at,
                ),
    {
        let at: DateTime = now();
        let running: Vec<Timer> = Timer::for_running_timers_at(registry, at);
        proof {
            let ids: Seq<u128> = choose|ids: Seq<u128>|
                is_walk(ids, old(registry)@) && room_views(running@) == #[trigger] running_along(
                    ids,
                    old(registry)@,
                    at,
                );
            assert(room_views(running@) == running_along(ids, old(registry)@, at));
        }
        running
    }
}

/// What the device `device_id` is to show of the room `timer_id`.
pub fn current_state(registry: &mut Registry, device_id: u128, timer_id: u128) -> (state:
    TimerCompState)
    ensures
        state@ == room_of(old(registry)@, timer_id).comp_state(device_id),
        final(registry)@ == old(registry)@.insert(timer_id, room_of(old(registry)@, timer_id)),
{
    let room: Timer = Timer::get_mut(registry, timer_id);
    let state: TimerCompState = room.to_timer_comp_state(device_id);
    registry.checkin(room);
    state
}

pub fn create_tournament_at(
    registry: &mut Registry,
    timer_id: u128,
    structure_name: String,
    at: DateTime,
) -> (out: Result<Option<Broadcast>, TimerError>)
    ensures
        sent_or(out) == room_of(old(registry)@, timer_id).make_tournament(structure_name@, at).1,
        final(registry)@ == old(registry)@.insert(
            timer_id,
            room_of(old(registry)@, timer_id).make_tournament(structure_name@, at).0,
        ),
{
    let mut room: Timer = Timer::get_mut(registry, timer_id);
    let out: Result<Option<Broadcast>, TimerError> = room.make_tournament_at(structure_name, at);
    registry.checkin(room);
    out
}

/// Starts a tournament in the room `timer_id` now, by the system's time,
/// unless the room has one.
pub fn create_tournament(registry: &mut Registry, timer_id: u128, structure_name: String) -> (out:
    Result<Option<Broadcast>, TimerError>)
    ensures
        exists|at: DateTime|
            {
                let expected = #[trigger] room_of(old(registry)@, timer_id).make_tournament(
                    structure_name@,
                    at,
                );
                &&& sent_or(out) == expected.1
                &&& final(registry)@ == old(registry)@.insert(timer_id, expected.0)
            },
{
    let at: DateTime = now();
    let ghost name: Seq<char> = structure_name@;
    let out: Result<Option<Broadcast>, TimerError> = create_tournament_at(
        registry,
        timer_id,
        structure_name,
        at,
    );
    proof {
        let expected = room_of(old(registry)@, timer_id).make_tournament(name, at);
        assert(sent_or(out) == expected.1);
    }
    out
}

/// The override of the levels' length in the room `timer_id`; a room
/// without a tournament has none to tell.
pub fn tourament_settings(registry: &mut Registry, timer_id: u128) -> (out: Result<
    Option<Duration>,
    TimerError,
>)
    ensures
        out == match room_of(old(registry)@, timer_id).tournament {
            Some(t) => Ok::<Option<Duration>, TimerError>(t.duration_override),
            None => Err::<Option<Duration>, TimerError>(TimerError::NoTournament),
        },
        final(registry)@ == old(registry)@.insert(timer_id, room_of(old(registry)@, timer_id)),
{
    let room: Timer = Timer::get_mut(registry, timer_id);
    let out: Result<Option<Duration>, TimerError> = match &room.tournament {
        Some(t) => Ok(t.duration_override),
        None => Err(TimerError::NoTournament),
    };
    registry.checkin(room);
    out
}

/// Sets the override of the levels' length in the room `timer_id`. A room
/// without a tournament has no settings: the call fails and the room
/// stays as it is.
pub fn set_tournament_settings(
    registry: &mut Registry,
    timer_id: u128,
    duration_override: Option<Duration>,
) -> (out: Result<Option<Broadcast>, TimerError>)
    ensures
        sent_or(out) == match room_of(old(registry)@, timer_id).tournament {
            Some(_) => Ok::<Option<BroadcastView>, TimerError>(
                room_of(old(registry)@, timer_id).update_settings(duration_override).1,
            ),
            None => Err::<Option<BroadcastView>, TimerError>(TimerError::NoTournament),
        },
        final(registry)@ == old(registry)@.insert(
            timer_id,
            room_of(old(registry)@, timer_id).update_settings(duration_override).0,
        ),
{
    let mut room: Timer = Timer::get_mut(registry, timer_id);
    let out: Result<Option<Broadcast>, TimerError> = if room.tournament.is_none() {
        Err(TimerError::NoTournament)
    } else {
        Ok(room.update_settings(duration_override))
    };
    registry.checkin(room);
    out
}

pub fn add_subscription(
    registry: &mut Registry,
    device_id: u128,
    timer_id: u128,
    subscription: Subscription,
) -> (out: Option<Broadcast>)
    ensures
        sent(out) == room_of(old(registry)@, timer_id).subscribe(device_id, subscription@).1,
        final(registry)@ == old(registry)@.insert(
            timer_id,
            room_of(old(registry)@, timer_id).subscribe(device_id, subscription@).0,
        ),
{
    let mut room: Timer = Timer::get_mut(registry, timer_id);
    let out: Option<Broadcast> = room.subscribe(device_id, subscription);
    registry.checkin(room);
    out
}

pub fn remove_subscription(registry: &mut Registry, device_id: u128, timer_id: u128) -> (out:
    Option<Broadcast>)
    ensures
        sent(out) == room_of(old(registry)@, timer_id).unsubscribe(device_id).1,
        final(registry)@ == old(registry)@.insert(
            timer_id,
            room_of(old(registry)@, timer_id).unsubscribe(device_id).0,
        ),
{
    let mut room: Timer = Timer::get_mut(registry, timer_id);
    let out: Option<Broadcast> = room.unsubscribe(device_id);
    registry.checkin(room);
    out
}

pub fn execute_command_at(
    registry: &mut Registry,
    cmd: Command,
    timer_id: u128,
    device_id: u128,
    at: DateTime,
) -> (out: Option<Broadcast>)
    ensures
        sent(out) == room_of(old(registry)@, timer_id).execute(cmd, device_id, at).1,
        final(registry)@ == old(registry)@.insert(
            timer_id,
            room_of(old(registry)@, timer_id).execute(cmd, device_id, at).0,
        ),
{
    let mut room: Timer = Timer::get_mut(registry, timer_id);
    let out: Option<Broadcast> = room.execute_at(&cmd, device_id, at);
    registry.checkin(room);
    out
}

/// Carries out `cmd` in the room `timer_id` now, by the system's time.
pub fn execute_command(registry: &mut Registry, cmd: Command, timer_id: u128, device_id: u128) -> (out:
    Option<Broadcast>)
    ensures
        exists|at: DateTime|
            {
                let expected = #[trigger] room_of(old(registry)@, timer_id).execute(
                    cmd,
                    device_id,
                    at,
                );
                &&& sent(out) == expected.1
                &&& final(registry)@ == old(registry)@.insert(timer_id, expected.0)
            },
{
    let at: DateTime = now();
    let out: Option<Broadcast> = execute_command_at(registry, cmd, timer_id, device_id, at);
    proof {
        let expected = room_of(old(registry)@, timer_id).execute(cmd, device_id, at);
        assert(sent(out) == expected.1);
    }
    out
}

/// The records to write at `at`: one of each room whose tournament is
/// recent, in the order in which the registry is walked. The registry
/// stays as it is.
pub fn save_running_at(registry: &mut Registry, at: DateTime) -> (records: Vec<StoredTournament>)
    ensures
        final(registry)@ == old(registry)@,
        exists|ids: Seq<u128>|
            is_walk(ids, old(registry)@) && record_views(records@) == #[trigger] records_along(
                ids,
                old(registry)@,
                at,
            ),
{
    let running: Vec<Timer> = Timer::for_running_timers_at(registry, at);
    let ghost ids: Seq<u128> = choose|ids: Seq<u128>|
        is_walk(ids, old(registry)@) && room_views(running@) == #[trigger] running_along(
            ids,
            old(registry)@,
            at,
        );
    proof {
        lemma_running_rooms_have_records(ids, old(registry)@, at);
        assert forall|j: int| 0 <= j < running.len() implies (#[trigger] running[j])@.stored(at)
            is Some by {
            assert(running[j]@ == room_views(running@)[j]);
        }
    }
    let mut records: Vec<StoredTournament> = Vec::new();
    let mut i: usize = 0;
    while i < running.len()
        invariant
            i <= running.len(),
            records.len() == i,
            forall|j: int| 0 <= j < running.len() ==> (#[trigger] running[j])@.stored(at) is Some,
            forall|j: int|
                0 <= j < i ==> (#[trigger] records[j])@ == running[j]@.stored(at)->Some_0,
        decreases running.len() - i,
    {
        match running[i].stored_at(at) {
            Some(record) => {
                records.push(record);
            },
            None => {},
        }
        i += 1;
    }
    assert(record_views(records@) =~= records_along(ids, old(registry)@, at));
    records
}

/// Every room that `running_along` lists has a record to keep.
proof fn lemma_running_rooms_have_records(
    ids: Seq<u128>,
    rooms: Map<u128, TimerView>,
    at: DateTime,
)
    ensures
        forall|j: int|
            0 <= j < running_along(ids, rooms, at).len() ==> (#[trigger] running_along(
                ids,
                rooms,
                at,
            )[j]).stored(at) is Some,
    decreases ids.len(),
{
    if ids.len() > 0 {
        lemma_running_rooms_have_records(ids.drop_last(), rooms, at);
    }
}

/// The records to write now, by the system's time.
pub fn save_running(registry: &mut Registry) -> (records: Vec<StoredTournament>)
    ensures
        final(registry)@ == old(registry)@,
        exists|ids: Seq<u128>, at: DateTime|
            is_walk(ids, old(registry)@) && record_views(records@) == #[trigger] records_along(
                ids,
                old(registry)@,
                at,
            ),
{
    let at: DateTime = now();
    let records: Vec<StoredTournament> = save_running_at(registry, at);
    proof {
        let ids: Seq<u128> = choose|ids: Seq<u128>|
            is_walk(ids, old(registry)@) && record_views(records@) == #[trigger] records_along(
                ids,
                old(registry)@,
                at,
            );
        assert(record_views(records@) == records_along(ids, old(registry)@, at));
    }
    records
}

/// The outcomes of a list of loadings, each by its view.
pub open spec fn outcomes(list: Seq<Loaded>) -> Seq<(u128, Result<Option<BroadcastView>, TimerError>)> {
    list.map_values(|l: Loaded| (l.timer_id, sent_or(l.outcome)))
}

/// Puts each of `records` into the room that it names, in the order of
/// the list, and says of each how it went. A record that gives no
/// tournament is passed over and the rest are still loaded.
pub fn load_saved(registry: &mut Registry, records: Vec<StoredTournament>) -> (report: Vec<Loaded>)
    ensures
        final(registry)@ == loaded(old(registry)@, record_views(records@)),
        outcomes(report@) == record_views(records@).map_values(
            |r: StoredTournamentView| (r.timer_id, outcome_of(r)),
        ),
{
    let mut report: Vec<Loaded> = Vec::new();
    let ghost all: Seq<StoredTournamentView> = record_views(records@);
    assert(all.take(0) =~= Seq::<StoredTournamentView>::empty());
    assert(outcomes(report@) =~= all.take(0).map_values(
        |r: StoredTournamentView| (r.timer_id, outcome_of(r)),
    ));
    for record in it: records
        invariant
            it.seq() == records@,
            all == record_views(records@),
            registry@ == loaded(old(registry)@, all.take(it.index())),
            outcomes(report@) == all.take(it.index()).map_values(
                |r: StoredTournamentView| (r.timer_id, outcome_of(r)),
            ),
    {
        let ghost done: int = it.index();
        let ghost before: Seq<Loaded> = report@;
        let ghost rooms: Map<u128, TimerView> = registry@;
        assert(record == records@[done]);
        let timer_id: u128 = record.timer_id;
        let mut room: Timer = Timer::get_mut(registry, timer_id);
        let outcome: Result<Option<Broadcast>, TimerError> = room.make_tournament_from_storage(
            record,
        );
        let ghost went: Result<Option<BroadcastView>, TimerError> = sent_or(outcome);
        registry.checkin(room);
        report.push(Loaded { timer_id, outcome });
        proof {
            let next: Seq<StoredTournamentView> = all.take(done + 1);
            assert(next.drop_last() =~= all.take(done));
            assert(next.last() == all[done]);
            assert(registry@ =~= loaded(old(registry)@, next));
            assert(went == outcome_of(all[done]));
            assert(outcomes(report@) =~= outcomes(before).push((timer_id, went)));
            assert(outcomes(report@) =~= next.map_values(
                |r: StoredTournamentView| (r.timer_id, outcome_of(r)),
            ));
        }
    }
    assert(all.take(records@.len() as int) =~= all);
    report
}

} // verus!
