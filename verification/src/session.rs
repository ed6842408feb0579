//! What one connection of a device to a room sends and does.

use crate::model::{
    sent, Broadcast, BroadcastView, Command, DeviceMessage, DeviceMessageView, TournamentMessage,
    TournamentMessageView,
};
use crate::time::{now, DateTime};
use crate::timers::{Timer, TimerView};
use vstd::prelude::*;

verus! {

/// The frames that the connection of `device_id` gets when `message` is
/// heard in its room, in the order of sending. A change of another
/// device's notifications is passed over. A change of level gives the
/// signal first and then the state. Anything else gives the state, taken
/// from the room as it is now and never from the message.
pub open spec fn frames_for(room: TimerView, message: TournamentMessageView, device_id: u128) -> Seq<
    DeviceMessageView,
> {
    let state: DeviceMessageView = DeviceMessageView::NewState(room.comp_state(device_id));
    match message {
        TournamentMessageView::NotificationChange(changed) => if changed == device_id {
            seq![state]
        } else {
            Seq::empty()
        },
        TournamentMessageView::LevelUp(_) => seq![DeviceMessageView::Beep, state],
        _ => seq![state],
    }
}

/// The views of a list of frames.
pub open spec fn frame_views(frames: Seq<DeviceMessage>) -> Seq<DeviceMessageView> {
    frames.map_values(|f: DeviceMessage| f@)
}

/// What a frame from the device does: a command is carried out and the
/// connection stays open; a frame that is no command changes nothing and
/// closes the connection.
pub open spec fn received(
    room: TimerView,
    frame: Option<Command>,
    device_id: u128,
    at: DateTime,
) -> (TimerView, bool, Option<BroadcastView>) {
    match frame {
        Some(cmd) => (
            room.execute(cmd, device_id, at).0,
            true,
            room.execute(cmd, device_id, at).1,
        ),
        None => (room, false, None),
    }
}

/// The frame that opens a connection: the state of the room.
pub fn session_hello(room: &Timer, device_id: u128) -> (hello: DeviceMessage)
    ensures
        hello@ == DeviceMessageView::NewState(room@.comp_state(device_id)),
{
    DeviceMessage::NewState(room.to_timer_comp_state(device_id))
}

/// The frames to send to `device_id` when `message` is heard in `room`.
pub fn session_frames(room: &Timer, message: &TournamentMessage, device_id: u128) -> (frames: Vec<
    DeviceMessage,
>)
    ensures
        frame_views(frames@) == frames_for(room@, message@, device_id),
{
    let mut frames: Vec<DeviceMessage> = Vec::new();
    match message {
        TournamentMessage::NotificationChange(changing_device) => {
            if *changing_device != device_id {
                assert(frame_views(frames@) =~= Seq::<DeviceMessageView>::empty());
                return frames;
            }
        },
        TournamentMessage::LevelUp(_) => {
            frames.push(DeviceMessage::Beep);
        },
        _ => {},
    }
    frames.push(DeviceMessage::NewState(room.to_timer_comp_state(device_id)));
    assert(frame_views(frames@) =~= frames_for(room@, message@, device_id));
    frames
}

/// Handles one frame from the device at `at`. The flag says whether the
/// connection stays open.
pub fn session_receive_at(
    room: &mut Timer,
    frame: Option<Command>,
    device_id: u128,
    at: DateTime,
) -> (out: (bool, Option<Broadcast>))
    ensures
        (final(room)@, out.0, sent(out.1)) == received(old(room)@, frame, device_id, at),
        old(room)@.wf() ==> final(room)@.wf(),
{
    match frame {
        Some(cmd) => {
            let told: Option<Broadcast> = room.execute_at(&cmd, device_id, at);
            (true, told)
        },
        None => (false, None),
    }
}

/// Handles one frame from the device now, by the system's time.
pub fn session_receive(room: &mut Timer, frame: Option<Command>, device_id: u128) -> (out: (
    bool,
    Option<Broadcast>,
))
    ensures
        exists|at: DateTime|
            (final(room)@, out.0, sent(out.1)) == #[trigger] received(
                old(room)@,
                frame,
                device_id,
                at,
            ),
        old(room)@.wf() ==> final(room)@.wf(),
{
    let at: DateTime = now();
    let out: (bool, Option<Broadcast>) = session_receive_at(room, frame, device_id, at);
    assert((final(room)@, out.0, sent(out.1)) == received(old(room)@, frame, device_id, at));
    out
}

} // verus!
