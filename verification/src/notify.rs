//! Which devices are alerted of a message, and what the alert says.

use crate::model::{
    Broadcast, BroadcastView, Notification, NotificationView, Subscription, SubscriptionView,
    TournamentMessage, TournamentMessageView,
};
use crate::timers::{Timer, TimerView};
use crate::tournament::Tournament;
use vstd::prelude::*;
use vstd::std_specs::iter::IteratorSpec;
use vstd::string::*;

verus! {

/// One device that is to get an alert, with the subscription to send it by.
#[derive(Debug, PartialEq)]
pub struct Recipient {
    pub device_id: u128,
    pub subscription: Subscription,
}

/// An alert and the devices it goes to; the order of the devices means
/// nothing.
#[derive(Debug, PartialEq)]
pub struct Dispatch {
    pub notification: Notification,
    pub recipients: Vec<Recipient>,
}

/// The alert that tells of `message`. A change of one device's
/// notifications is confirmed to that device in these words.
pub open spec fn alert_for(message: TournamentMessageView) -> NotificationView {
    match message {
        TournamentMessageView::Started => NotificationView {
            title: "Hello"@,
            body: "Notifications are on"@,
        },
        TournamentMessageView::Pause => NotificationView {
            title: "Update"@,
            body: "Tournament Paused"@,
        },
        TournamentMessageView::Resume => NotificationView {
            title: "Update"@,
            body: "Tournament Resumed"@,
        },
        TournamentMessageView::LevelUp(state) => NotificationView {
            title: "Update"@,
            body: "Level Up: "@ + state.cur.short_text(),
        },
        TournamentMessageView::Settings => NotificationView {
            title: "Update"@,
            body: "Tournament settings have changed"@,
        },
        TournamentMessageView::Ended => NotificationView {
            title: "Update"@,
            body: "Tournament has been terminated"@,
        },
        TournamentMessageView::OneMinuteWarning => NotificationView {
            title: "Update"@,
            body: "Take your seats! One minute till CIA"@,
        },
        TournamentMessageView::NotificationChange(_) => NotificationView {
            title: "Update"@,
            body: "Notifications are on."@,
        },
    }
}

/// Whether `device_id` is alerted of `b` in the room `room`. A change of
/// notifications is confirmed to the device that made it, if it is
/// subscribed. Any other message goes to every subscribed device but the
/// one that caused it.
pub open spec fn is_recipient(room: TimerView, b: BroadcastView, device_id: u128) -> bool {
    match room.tournament {
        None => false,
        Some(t) => t.subscriptions.contains_key(device_id) && match b.message {
            TournamentMessageView::NotificationChange(changed) => device_id == changed,
            _ => b.from_device_id != Some(device_id),
        },
    }
}

/// Whether anything is sent for `b`: a room without a tournament alerts
/// nobody, and a change of notifications is confirmed only to a device
/// that is subscribed.
pub open spec fn has_dispatch(room: TimerView, b: BroadcastView) -> bool {
    match room.tournament {
        None => false,
        Some(t) => match b.message {
            TournamentMessageView::NotificationChange(changed) => t.subscriptions.contains_key(
                changed,
            ),
            _ => true,
        },
    }
}

/// `list` names each subscribed device other than `skip` once, each with
/// its own subscription, and no other device.
pub open spec fn lists_subscribers(
    list: Seq<Recipient>,
    subscriptions: Map<u128, SubscriptionView>,
    skip: Option<u128>,
) -> bool {
    &&& forall|i: int|
        0 <= i < list.len() ==> {
            &&& subscriptions.contains_key(#[trigger] list[i].device_id)
            &&& subscriptions[list[i].device_id] == list[i].subscription@
            &&& skip != Some(list[i].device_id)
        }
    &&& forall|i: int, j: int|
        0 <= i < j < list.len() ==> #[trigger] list[i].device_id != #[trigger] list[j].device_id
    &&& forall|d: u128|
        #[trigger] subscriptions.contains_key(d) && skip != Some(d) ==> exists|i: int|
            0 <= i < list.len() && #[trigger] list[i].device_id == d
}

impl Tournament {
    /// The subscribed devices, without the device `skip`.
    pub fn subscribers_except(&self, skip: Option<u128>) -> (list: Vec<Recipient>)
        ensures
            lists_subscribers(list@, self@.subscriptions, skip),
    {
        let mut list: Vec<Recipient> = Vec::new();
        let ghost mut from: Seq<int> = Seq::empty();
        let ghost seq: Seq<(&u128, &Subscription)> = self.subscriptions.iter().remaining();
        for pair in it: self.subscriptions.iter()
            invariant
                it.seq() == seq,
                it.seq().no_duplicates(),
                forall|j: int|
                    0 <= j < it.seq().len() ==> self.subscriptions@.contains_key(
                        *(#[trigger] it.seq()[j]).0,
                    ) && self.subscriptions@[*it.seq()[j].0] == *it.seq()[j].1,
                from.len() == list.len(),
                forall|i: int|
                    #![trigger from[i]]
                    #![trigger list[i]]
                    0 <= i < list.len() ==> {
                        &&& 0 <= from[i] < it.index()
                        &&& list[i].device_id == *it.seq()[from[i]].0
                        &&& list[i].subscription == *it.seq()[from[i]].1
                        &&& skip != Some(list[i].device_id)
                    },
                forall|i: int, j: int|
                    0 <= i < j < list.len() ==> #[trigger] from[i] < #[trigger] from[j],
                forall|j: int|
                    0 <= j < it.index() && skip != Some(*(#[trigger] it.seq()[j]).0) ==> exists|
                        i: int,
                    |
                        0 <= i < list.len() && #[trigger] from[i] == j,
        {
            let device_id: u128 = *pair.0;
            let keep: bool = match skip {
                Some(skipped) => device_id != skipped,
                None => true,
            };
            assert(pair == it.seq()[it.index()]);
            if keep {
                let ghost before: Seq<Recipient> = list@;
                let ghost from_before: Seq<int> = from;
                list.push(Recipient { device_id, subscription: pair.1.clone() });
                proof {
                    from = from.push(it.index());
                    assert forall|i: int|
                        #![trigger from[i]]
                        #![trigger list[i]]
                        0 <= i < list.len() implies {
                        &&& 0 <= from[i] <= it.index()
                        &&& list[i].device_id == *it.seq()[from[i]].0
                        &&& list[i].subscription == *it.seq()[from[i]].1
                        &&& skip != Some(list[i].device_id)
                    } by {
                        if i < before.len() {
                            assert(list[i] == before[i]);
                            assert(from[i] == from_before[i]);
                        }
                    }
                    assert forall|i: int, j: int| 0 <= i < j < list.len() implies #[trigger] from[i]
                        < #[trigger] from[j] by {
                        assert(from[i] == from_before[i]);
                        if j < before.len() {
                            assert(from[j] == from_before[j]);
                        }
                    }
                    assert forall|j: int|
                        0 <= j <= it.index() && skip != Some(
                            *(#[trigger] it.seq()[j]).0,
                        ) implies exists|i: int| 0 <= i < list.len() && #[trigger] from[i] == j by {
                        if j < it.index() {
                            let i = choose|i: int|
                                0 <= i < before.len() && #[trigger] from_before[i] == j;
                            assert(from[i] == j);
                        } else {
                            assert(from[before.len() as int] == j);
                        }
                    }
                }
            }
        }
        proof {
            let m = self.subscriptions@;
            let views = self@.subscriptions;
            assert forall|i: int| 0 <= i < list.len() implies {
                &&& views.contains_key(#[trigger] list[i].device_id)
                &&& views[list[i].device_id] == list[i].subscription@
                &&& skip != Some(list[i].device_id)
            } by {
                assert(0 <= from[i] < seq.len());
                assert(m.contains_key(*seq[from[i]].0));
            }
            assert forall|i: int, j: int| 0 <= i < j < list.len() implies #[trigger] list[i].device_id
                != #[trigger] list[j].device_id by {
                assert(from[i] < from[j]);
                assert(m.contains_key(*seq[from[i]].0));
                assert(m.contains_key(*seq[from[j]].0));
                if list[i].device_id == list[j].device_id {
                    assert(seq[from[i]] == seq[from[j]]);
                }
            }
            assert forall|d: u128| #[trigger]
                views.contains_key(d) && skip != Some(d) implies exists|i: int|
                0 <= i < list.len() && #[trigger] list[i].device_id == d by {
                assert(m.contains_key(d));
                assert(seq.contains((&d, &m[d])));
                let j = choose|j: int| 0 <= j < seq.len() && seq[j] == (&d, &m[d]);
                assert(*seq[j].0 == d);
                let i = choose|i: int| 0 <= i < list.len() && #[trigger] from[i] == j;
                assert(list[i].device_id == d);
            }
        }
        list
    }
}

/// The alert for `message`.
pub fn notification_for(message: &TournamentMessage) -> (n: Notification)
    ensures
        n@ == alert_for(message@),
{
    match message {
        TournamentMessage::Started => Notification {
            title: String::from_str("Hello"),
            body: String::from_str("Notifications are on"),
        },
        TournamentMessage::Pause => Notification {
            title: String::from_str("Update"),
            body: String::from_str("Tournament Paused"),
        },
        TournamentMessage::Resume => Notification {
            title: String::from_str("Update"),
            body: String::from_str("Tournament Resumed"),
        },
        TournamentMessage::LevelUp(round_state) => {
            let level: String = round_state.cur.short_level_string();
            let mut body: String = String::from_str("Level Up: ");
            body.append(level.as_str());
            Notification { title: String::from_str("Update"), body }
        },
        TournamentMessage::Settings => Notification {
            title: String::from_str("Update"),
            body: String::from_str("Tournament settings have changed"),
        },
        TournamentMessage::Ended => Notification {
            title: String::from_str("Update"),
            body: String::from_str("Tournament has been terminated"),
        },
        TournamentMessage::OneMinuteWarning => Notification {
            title: String::from_str("Update"),
            body: String::from_str("Take your seats! One minute till CIA"),
        },
        TournamentMessage::NotificationChange(_) => Notification {
            title: String::from_str("Update"),
            body: String::from_str("Notifications are on."),
        },
    }
}

/// `list` names each device that is alerted of `b` in `room` once, with
/// its subscription, and no other device.
pub open spec fn lists_recipients(list: Seq<Recipient>, room: TimerView, b: BroadcastView) -> bool {
    &&& forall|i: int|
        0 <= i < list.len() ==> {
            &&& is_recipient(room, b, #[trigger] list[i].device_id)
            &&& room.subscription(list[i].device_id) == Some(list[i].subscription@)
        }
    &&& forall|i: int, j: int|
        0 <= i < j < list.len() ==> #[trigger] list[i].device_id != #[trigger] list[j].device_id
    &&& forall|d: u128| #[trigger]
        is_recipient(room, b, d) ==> exists|i: int|
            0 <= i < list.len() && #[trigger] list[i].device_id == d
}

/// What is sent out for the message `b`, judged by the room as it is when
/// the message is handled.
pub fn fanout(room: &Timer, b: &Broadcast) -> (out: Option<Dispatch>)
    ensures
        out is Some <==> has_dispatch(room@, b@),
        out matches Some(d) ==> d.notification@ == alert_for(b@.message) && lists_recipients(
            d.recipients@,
            room@,
            b@,
        ),
{
    match &room.tournament {
        None => None,
        Some(tournament) => {
            match &b.message {
                TournamentMessage::NotificationChange(device_id) => {
                    match tournament.subscription(*device_id) {
                        None => None,
                        Some(subscription) => {
                            let mut recipients: Vec<Recipient> = Vec::new();
                            recipients.push(
                                Recipient {
                                    device_id: *device_id,
                                    subscription: subscription.clone(),
                                },
                            );
                            assert(recipients@[0].device_id == *device_id);
                            Some(Dispatch { notification: notification_for(&b.message), recipients })
                        },
                    }
                },
                _ => {
                    let recipients: Vec<Recipient> = tournament.subscribers_except(
                        b.from_device_id,
                    );
                    Some(Dispatch { notification: notification_for(&b.message), recipients })
                },
            }
        },
    }
}

} // verus!
