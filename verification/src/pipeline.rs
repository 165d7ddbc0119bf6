//! The daemon's event loop, one event at a time: each event it receives, handled against the
//! history and the popups under the settings of that moment, gives the new lists and, in the
//! order they are to be carried out, the effects on the store, the timers and the bus.
use vstd::prelude::*;
use crate::dispatch::{BusCall, closes_back};
use crate::history::{
    BatchRemoval, HistoryAdd, PopupAdd, Removal, StoreWrite, closing, dismiss_popup, event_fold,
    event_step, expiry_deadline, expiry_fits, expiry_of, find_id, has_id, history_add, history_after_add,
    popup_add, popup_duration_for, popups_after_add, remove, remove_many, with_ids, without_id,
    without_ids,
};
use crate::model::{NotificationId, NotificationSource};
use crate::notification::{Notification, NotificationEvent, merged};
use crate::types::ClosedReason;

verus! {

/// The daemon's two lists, newest first.
pub struct Lists {
    /// The history.
    pub notifications: Vec<Notification>,
    /// The visible popups.
    pub popups: Vec<Notification>,
}

/// The settings an event is handled under.
#[derive(Clone, Copy)]
pub struct Settings {
    /// Do-not-disturb: arrivals show no popup.
    pub dnd: bool,
    /// History entries with an explicit finite timeout expire.
    pub remove_expired: bool,
    /// The default popup duration, in milliseconds.
    pub popup_ms: u32,
}

/// An event as the loop handles it. An arrival carries the notification twice, once for the
/// history and once for the popups, since the two lists hold copies of their own.
pub enum PipelineEvent {
    /// A notification arrived (or replaced one with the same identity).
    Arrival { history: Notification, banner: Notification },
    /// A notification left, for a reason.
    Remove(NotificationId, ClosedReason),
    /// Several notifications left at once.
    RemoveMany(Vec<NotificationId>, ClosedReason),
    /// Take a notification off the popups only.
    DismissPopup(NotificationId),
    /// Pause a popup's auto-hide timer.
    InhibitPopup(NotificationId),
    /// Resume a popup's auto-hide timer.
    ReleasePopup(NotificationId),
}

/// Something the daemon does about an event, besides replacing its lists.
#[derive(Debug, PartialEq)]
pub enum Effect {
    /// Save the arriving notification's row.
    SaveArrival,
    /// Delete a notification's row.
    DeleteRow(NotificationId),
    /// Delete these notifications' rows in one go.
    DeleteRows(Vec<NotificationId>),
    /// Remove the notification as expired at this time (milliseconds since the Unix epoch).
    ArmExpiry(NotificationId, i64),
    /// Start a popup's auto-hide timer for this many milliseconds.
    StartTimer(NotificationId, u64),
    /// Cancel a popup's timer.
    CancelTimer(NotificationId),
    /// Pause a popup's timer.
    PauseTimer(NotificationId),
    /// Resume a popup's timer.
    ResumeTimer(NotificationId),
    /// Make a bus call: the close-back signal to the app.
    Call(BusCall),
}

/// The history and popups after one event (see [`event_step`]): an arrival goes into the
/// history as its history copy and among the popups as its banner copy.
pub open spec fn lists_after(h: Seq<Notification>, p: Seq<Notification>, e: PipelineEvent, dnd: bool) -> (
    Seq<Notification>,
    Seq<Notification>,
) {
    match e {
        PipelineEvent::Arrival { history, banner } => (
            history_after_add(h, history),
            popups_after_add(p, banner, dnd),
        ),
        PipelineEvent::Remove(id, reason) => event_step(h, p, NotificationEvent::Remove(id, reason), dnd),
        PipelineEvent::RemoveMany(ids, reason) => if ids@.len() == 0 {
            (h, p)
        } else {
            (
                without_ids(h, ids@),
                if reason == ClosedReason::Expired {
                    p
                } else {
                    without_ids(p, ids@)
                },
            )
        },
        PipelineEvent::DismissPopup(id) => (h, without_id(p, id)),
        PipelineEvent::InhibitPopup(_) => (h, p),
        PipelineEvent::ReleasePopup(_) => (h, p),
    }
}

/// What an arrival does, in order: the store write (save a kept notification; delete the
/// stale row of a transient one's identity), the history expiry of a kept entry, then the
/// popup's auto-hide timer (none under do-not-disturb or for an app's never-expire).
pub open spec fn arrival_effects(h: Seq<Notification>, history: Notification, banner: Notification, s: Settings) -> Seq<
    Effect,
> {
    let store = if !history.view.classification.transient {
        seq![Effect::SaveArrival]
    } else if has_id(h, history.id) {
        seq![Effect::DeleteRow(history.id)]
    } else {
        Seq::empty()
    };
    let expiry = if history.view.classification.transient {
        Seq::empty()
    } else {
        match expiry_of(history_after_add(h, history)[0], s.remove_expired) {
            Some(t) => seq![Effect::ArmExpiry(history.id, t as i64)],
            None => Seq::empty(),
        }
    };
    let timer = if s.dnd {
        Seq::empty()
    } else {
        match popup_duration_for(banner.view.lifecycle.timeout, s.popup_ms) {
            Some(ms) => seq![Effect::StartTimer(banner.id, ms)],
            None => Seq::empty(),
        }
    };
    store + expiry + timer
}

/// `tail` is the close-back signal that a removed notification with dispatch `d` calls for:
/// one bus call, or nothing when it has none.
pub open spec fn closes_with(d: NotificationSource, reason: ClosedReason, tail: Seq<Effect>) -> bool {
    ||| tail.len() == 0 && closes_back(d, reason, None)
    ||| tail.len() == 1 && (tail[0] matches Effect::Call(c) && closes_back(d, reason, Some(c)))
}

/// The popup timers a removal cancels: none when it merely expired.
pub open spec fn cancels(ids: Seq<NotificationId>, reason: ClosedReason) -> Seq<Effect> {
    if reason == ClosedReason::Expired {
        Seq::empty()
    } else {
        ids.map_values(|x: NotificationId| Effect::CancelTimer(x))
    }
}

/// The identities of `s`, in order.
pub open spec fn ids_of(s: Seq<Notification>) -> Seq<NotificationId> {
    s.map_values(|n: Notification| n.id)
}

/// `effects` is what event `e` calls for, in order, given the history `h` it meets: see
/// [`arrival_effects`]; a removal cancels the popup's timer unless it merely expired, then,
/// when the history held the identity, deletes its row and sends its close-back signal; a
/// batch removal does nothing for an empty list, else cancels each listed timer unless they
/// expired, then, when the history held any of them, deletes their rows in one go and sends
/// each removed entry's close-back signal in history order; a popup dismissal cancels its
/// timer; pausing and resuming act on the timer alone.
pub open spec fn effects_of(h: Seq<Notification>, e: PipelineEvent, s: Settings, effects: Seq<Effect>) -> bool {
    match e {
        PipelineEvent::Arrival { history, banner } => effects == arrival_effects(h, history, banner, s),
        PipelineEvent::Remove(id, reason) => {
            let c = cancels(seq![id], reason);
            match find_id(h, id) {
                None => effects == c,
                Some(n) => effects.len() >= c.len() + 1 && effects.take(c.len() as int) == c
                    && effects[c.len() as int] == Effect::DeleteRow(id) && closes_with(
                    n.dispatch,
                    reason,
                    effects.skip(c.len() + 1 as int),
                ),
            }
        },
        PipelineEvent::RemoveMany(ids, reason) => if ids@.len() == 0 {
            effects.len() == 0
        } else {
            let c = cancels(ids@, reason);
            let removed = with_ids(h, ids@);
            if removed.len() == 0 {
                effects == c
            } else {
                &&& effects.len() == c.len() + 1 + closing(removed).len()
                &&& effects.take(c.len() as int) == c
                &&& effects[c.len() as int] matches Effect::DeleteRows(v) && v@ == ids_of(removed)
                &&& forall|k: int|
                    0 <= k < closing(removed).len() ==> ((#[trigger] effects[c.len() + 1 + k]) matches Effect::Call(
                        call,
                    ) && closes_back(closing(removed)[k], reason, Some(call)))
            }
        },
        PipelineEvent::DismissPopup(id) => effects == seq![Effect::CancelTimer(id)],
        PipelineEvent::InhibitPopup(id) => effects == seq![Effect::PauseTimer(id)],
        PipelineEvent::ReleasePopup(id) => effects == seq![Effect::ResumeTimer(id)],
    }
}

/// An arrival's history expiry deadline fits in the clock's range (other events have none).
pub open spec fn event_fits(h: Seq<Notification>, e: PipelineEvent, remove_expired: bool) -> bool {
    match e {
        PipelineEvent::Arrival { history, .. } => !history.view.classification.transient && remove_expired
            ==> match find_id(h, history.id) {
            Some(x) => expiry_fits(merged(x, history)),
            None => expiry_fits(history),
        },
        _ => true,
    }
}

/// Handles one event: the new lists (see [`lists_after`]) and the effects to carry out, in
/// order (see [`effects_of`]).
pub fn handle_event(lists: Lists, e: PipelineEvent, s: Settings) -> (r: (Lists, Vec<Effect>))
    requires
        event_fits(lists.notifications@, e, s.remove_expired),
    ensures
        (r.0.notifications@, r.0.popups@) == lists_after(lists.notifications@, lists.popups@, e, s.dnd),
        effects_of(lists.notifications@, e, s, r.1@),
{
    let Lists { notifications, popups } = lists;
    let ghost h = notifications@;
    let mut effects: Vec<Effect> = Vec::new();
    match e {
        PipelineEvent::Arrival { history, banner } => {
            let id = history.id;
            let ghost hn = history;
            let ghost bn = banner;
            let HistoryAdd { list, store, expires_at } = history_add(notifications, history, s.remove_expired);
            match store {
                StoreWrite::Save => effects.push(Effect::SaveArrival),
                StoreWrite::Delete => effects.push(Effect::DeleteRow(id)),
                StoreWrite::Nothing => {},
            }
            if let Some(t) = expires_at {
                effects.push(Effect::ArmExpiry(id, t));
            }
            let PopupAdd { list: shown, timer } = popup_add(popups, banner, s.dnd, s.popup_ms);
            if let Some((tid, ms)) = timer {
                effects.push(Effect::StartTimer(tid, ms));
            }
            assert(effects@ =~= arrival_effects(h, hn, bn, s));
            (Lists { notifications: list, popups: shown }, effects)
        },
        PipelineEvent::Remove(id, reason) => {
            let Removal { notifications, popups, cancel_timer, removed, close_call } = remove(
                notifications,
                popups,
                id,
                reason,
            );
            if cancel_timer {
                effects.push(Effect::CancelTimer(id));
            }
            let ghost c = effects@;
            if removed.is_some() {
                effects.push(Effect::DeleteRow(id));
                if let Some(call) = close_call {
                    effects.push(Effect::Call(call));
                }
                assert(effects@.take(c.len() as int) =~= c);
            }
            assert(c =~= cancels(seq![id], reason));
            (Lists { notifications, popups }, effects)
        },
        PipelineEvent::RemoveMany(ids, reason) => {
            let BatchRemoval { notifications, popups, cancel_timers, removed, close_calls } =
                remove_many(notifications, popups, ids.as_slice(), reason);
            if ids.len() == 0 {
                return (Lists { notifications, popups }, effects);
            }
            if cancel_timers {
                let mut i: usize = 0;
                while i < ids.len()
                    invariant
                        i <= ids@.len(),
                        effects@ == ids@.take(i as int).map_values(|x: NotificationId| Effect::CancelTimer(x)),
                    decreases ids@.len() - i,
                {
                    effects.push(Effect::CancelTimer(ids[i]));
                    proof {
                        assert(ids@.take(i + 1) == ids@.take(i as int).push(ids@[i as int]));
                    }
                    i = i + 1;
                }
                proof {
                    assert(ids@.take(ids@.len() as int) == ids@);
                }
            }
            let ghost c = effects@;
            if removed.len() > 0 {
                let mut removed_ids: Vec<NotificationId> = Vec::new();
                let mut i: usize = 0;
                while i < removed.len()
                    invariant
                        i <= removed@.len(),
                        removed_ids@ == ids_of(removed@.take(i as int)),
                    decreases removed@.len() - i,
                {
                    removed_ids.push(removed[i].id);
                    proof {
                        assert(removed@.take(i + 1) == removed@.take(i as int).push(removed@[i as int]));
                    }
                    i = i + 1;
                }
                proof {
                    assert(removed@.take(removed@.len() as int) == removed@);
                }
                effects.push(Effect::DeleteRows(removed_ids));
                let ghost base = effects@;
                let ghost calls = close_calls@;
                for call in it: close_calls
                    invariant
                        it.seq() == calls,
                        effects@ == base + it.seq().take(it.index() as int).map_values(|x: BusCall| Effect::Call(x)),
                {
                    effects.push(Effect::Call(call));
                    proof {
                        assert(it.seq().take(it.index() + 1) == it.seq().take(it.index() as int).push(call));
                    }
                }
                proof {
                    assert(calls.take(calls.len() as int) == calls);
                    assert(effects@.take(c.len() as int) == c);
                }
            }
            (Lists { notifications, popups }, effects)
        },
        PipelineEvent::DismissPopup(id) => {
            effects.push(Effect::CancelTimer(id));
            (Lists { notifications, popups: dismiss_popup(popups, id) }, effects)
        },
        PipelineEvent::InhibitPopup(id) => {
            effects.push(Effect::PauseTimer(id));
            (Lists { notifications, popups }, effects)
        },
        PipelineEvent::ReleasePopup(id) => {
            effects.push(Effect::ResumeTimer(id));
            (Lists { notifications, popups }, effects)
        },
    }
}

/// The expiries to arm for a history restored from the store, one per entry that expires
/// (see [`expiry_of`]), in list order: restored entries skip the arrival path, so they are
/// armed here.
pub open spec fn restored_expiries(h: Seq<Notification>, remove_expired: bool) -> Seq<Effect>
    decreases h.len(),
{
    if h.len() == 0 {
        Seq::empty()
    } else {
        let rest = restored_expiries(h.drop_last(), remove_expired);
        match expiry_of(h.last(), remove_expired) {
            Some(t) => rest.push(Effect::ArmExpiry(h.last().id, t as i64)),
            None => rest,
        }
    }
}

/// The expiries to arm when monitoring starts on a restored history (see
/// [`restored_expiries`]).
pub fn arm_restored(list: &[Notification], remove_expired: bool) -> (r: Vec<Effect>)
    requires
        remove_expired ==> forall|i: int| 0 <= i < list@.len() ==> expiry_fits(#[trigger] list@[i]),
    ensures
        r@ == restored_expiries(list@, remove_expired),
{
    let mut effects: Vec<Effect> = Vec::new();
    let mut i: usize = 0;
    while i < list.len()
        invariant
            i <= list@.len(),
            remove_expired ==> forall|j: int| 0 <= j < list@.len() ==> expiry_fits(#[trigger] list@[j]),
            effects@ == restored_expiries(list@.take(i as int), remove_expired),
        decreases list@.len() - i,
    {
        proof {
            assert(list@.take(i + 1).drop_last() == list@.take(i as int));
            assert(list@.take(i + 1).last() == list@[i as int]);
        }
        if let Some(t) = expiry_deadline(&list[i], remove_expired) {
            effects.push(Effect::ArmExpiry(list[i].id, t));
        }
        i = i + 1;
    }
    proof {
        assert(list@.take(list@.len() as int) == list@);
    }
    effects
}

/// A restored entry is armed just as it was when it arrived: the expiry an arrival of a new
/// kept notification arms, right after saving it, is the one arming it when the history is
/// restored.
pub proof fn law_restored_armed_as_on_arrival(h: Seq<Notification>, n: Notification, banner: Notification, s: Settings)
    requires
        !n.view.classification.transient,
        !has_id(h, n.id),
    ensures
        ({
            let armed = restored_expiries(seq![n], s.remove_expired);
            &&& arrival_effects(h, n, banner, s)[0] == Effect::SaveArrival
            &&& arrival_effects(h, n, banner, s).subrange(1, 1 + armed.len() as int) == armed
        }),
{
    crate::history::lemma_without_id(h, n.id);
    let armed = restored_expiries(seq![n], s.remove_expired);
    assert(seq![n].drop_last() =~= Seq::<Notification>::empty());
    assert(seq![n].last() == n);
    assert(restored_expiries(Seq::<Notification>::empty(), s.remove_expired) == Seq::<Effect>::empty());
    assert(history_after_add(h, n)[0] == n);
    assert(armed == match expiry_of(n, s.remove_expired) {
        Some(t) => seq![Effect::ArmExpiry(n.id, t as i64)],
        None => Seq::<Effect>::empty(),
    });
    assert(arrival_effects(h, n, banner, s).subrange(1, 1 + armed.len() as int) =~= armed);
}

/// The lists after the events, handled one by one in the order received, each with the
/// do-not-disturb setting of its moment.
pub open spec fn lists_fold(h: Seq<Notification>, p: Seq<Notification>, events: Seq<(PipelineEvent, bool)>) -> (
    Seq<Notification>,
    Seq<Notification>,
)
    decreases events.len(),
{
    if events.len() == 0 {
        (h, p)
    } else {
        let (h1, p1) = lists_fold(h, p, events.drop_last());
        lists_after(h1, p1, events.last().0, events.last().1)
    }
}

/// `pe` is how the loop receives the pipeline event `e`: the same removal, dismissal or timer
/// request, or an arrival whose history and banner copies are both the arriving notification.
pub open spec fn receives(pe: PipelineEvent, e: NotificationEvent) -> bool {
    match pe {
        PipelineEvent::Arrival { history, banner } => e matches NotificationEvent::Add(n) && *n == history
            && banner == history,
        PipelineEvent::Remove(id, reason) => e == NotificationEvent::Remove(id, reason),
        PipelineEvent::RemoveMany(ids, reason) => e matches NotificationEvent::RemoveMany(v, r) && v@
            == ids@ && r == reason,
        PipelineEvent::DismissPopup(id) => e == NotificationEvent::DismissPopup(id),
        PipelineEvent::InhibitPopup(id) => e == NotificationEvent::InhibitPopup(id),
        PipelineEvent::ReleasePopup(id) => e == NotificationEvent::ReleasePopup(id),
    }
}

/// The loop keeps the lists exactly as the pipeline's events say: handling, in order, the
/// events as it receives them leaves the history and popups that the events themselves
/// leave (see [`event_fold`]), so what holds over any sequence of pipeline events (that
/// identities stay distinct, that only arrivals bring identities, that the last event takes
/// effect) holds of the loop.
pub proof fn law_loop_follows_events(
    h: Seq<Notification>,
    p: Seq<Notification>,
    received: Seq<(PipelineEvent, bool)>,
    events: Seq<(NotificationEvent, bool)>,
)
    requires
        received.len() == events.len(),
        forall|i: int|
            0 <= i < events.len() ==> receives(#[trigger] received[i].0, events[i].0) && received[i].1
                == events[i].1,
    ensures
        lists_fold(h, p, received) == event_fold(h, p, events),
    decreases events.len(),
{
    if events.len() > 0 {
        let n = events.len() - 1;
        assert forall|i: int| 0 <= i < n implies receives(#[trigger] received.drop_last()[i].0, events.drop_last()[i].0)
            && received.drop_last()[i].1 == events.drop_last()[i].1 by {
            assert(receives(received[i].0, events[i].0));
        }
        law_loop_follows_events(h, p, received.drop_last(), events.drop_last());
        assert(receives(received[n].0, events[n].0));
        let (h1, p1) = event_fold(h, p, events.drop_last());
        match received.last().0 {
            PipelineEvent::RemoveMany(ids, reason) => {
                if let NotificationEvent::RemoveMany(v, r) = events.last().0 {
                    assert(v@ == ids@);
                }
            },
            _ => {},
        }
    }
}

} // verus!
