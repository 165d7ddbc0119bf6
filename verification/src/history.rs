//! The daemon's two notification lists, newest first: the history and the visible popups, and
//! how each pipeline event changes them (with the store writes, popup timers, expiry
//! deadlines and close-back signals they call for).
use vstd::prelude::*;
use crate::dispatch::{BusCall, closes_back};
use crate::model::{NotificationId, NotificationSource, Timeout, body_text, id_value};
use crate::text::owned;
use crate::notification::{Notification, NotificationEvent, merged};
use crate::types::ClosedReason;

verus! {

/// `s` without the notifications with identity `id`, in order.
pub open spec fn without_id(s: Seq<Notification>, id: NotificationId) -> Seq<Notification>
    decreases s.len(),
{
    if s.len() == 0 {
        Seq::empty()
    } else if s.last().id == id {
        without_id(s.drop_last(), id)
    } else {
        without_id(s.drop_last(), id).push(s.last())
    }
}

/// The first notification of `s` with identity `id`.
pub open spec fn find_id(s: Seq<Notification>, id: NotificationId) -> Option<Notification>
    decreases s.len(),
{
    if s.len() == 0 {
        None
    } else {
        match find_id(s.drop_last(), id) {
            Some(n) => Some(n),
            None => if s.last().id == id {
                Some(s.last())
            } else {
                None
            },
        }
    }
}

/// Whether some notification of `s` has identity `id`.
pub open spec fn has_id(s: Seq<Notification>, id: NotificationId) -> bool {
    exists|i: int| 0 <= i < s.len() && #[trigger] s[i].id == id
}

/// No identity occurs twice in `s`.
pub open spec fn ids_unique(s: Seq<Notification>) -> bool {
    forall|i: int, j: int| 0 <= i < s.len() && 0 <= j < s.len() && i != j ==> s[i].id != s[j].id
}

/// Dropping `id` leaves exactly the entries with other identities.
pub proof fn lemma_without_id(s: Seq<Notification>, id: NotificationId)
    ensures
        forall|i: int| 0 <= i < without_id(s, id).len() ==> #[trigger] without_id(s, id)[i].id != id,
        forall|x: NotificationId| x != id ==> (has_id(without_id(s, id), x) <==> has_id(s, x)),
        without_id(s, id).len() <= s.len(),
        ids_unique(s) ==> ids_unique(without_id(s, id)),
        find_id(s, id) is None <==> !has_id(s, id),
        find_id(s, id) matches Some(n) ==> n.id == id,
        !has_id(s, id) ==> without_id(s, id) == s,
    decreases s.len(),
{
    if s.len() > 0 {
        let p = s.drop_last();
        lemma_without_id(p, id);
        let w = without_id(p, id);
        let w2 = without_id(s, id);
        assert(w2 == if s.last().id == id { w } else { w.push(s.last()) });
        assert forall|x: NotificationId| x != id implies (has_id(w2, x) <==> has_id(s, x)) by {
            if has_id(s, x) {
                let i = choose|i: int| 0 <= i < s.len() && #[trigger] s[i].id == x;
                if i < p.len() {
                    assert(p[i] == s[i]);
                    assert(has_id(p, x));
                    assert(has_id(w, x));
                    let j = choose|j: int| 0 <= j < w.len() && #[trigger] w[j].id == x;
                    assert(w2[j] == w[j]);
                    assert(has_id(w2, x));
                } else {
                    assert(s.last().id == x);
                    assert(w2[w.len() as int] == s.last());
                    assert(has_id(w2, x));
                }
            }
            if has_id(w2, x) {
                let i = choose|i: int| 0 <= i < w2.len() && #[trigger] w2[i].id == x;
                if i < w.len() {
                    assert(w2[i] == w[i]);
                    assert(has_id(w, x));
                    assert(has_id(p, x));
                    let j = choose|j: int| 0 <= j < p.len() && #[trigger] p[j].id == x;
                    assert(s[j] == p[j]);
                    assert(has_id(s, x));
                } else {
                    assert(w2[i] == s.last());
                    assert(s[s.len() - 1].id == x);
                    assert(has_id(s, x));
                }
            }
        }
        if ids_unique(s) {
            assert(ids_unique(p)) by {
                assert forall|i: int, j: int| 0 <= i < p.len() && 0 <= j < p.len() && i != j implies p[i].id != p[j].id by {
                    assert(s[i] == p[i] && s[j] == p[j]);
                }
            }
            if s.last().id != id {
                assert(!has_id(w, s.last().id)) by {
                    if has_id(w, s.last().id) {
                        assert(has_id(p, s.last().id));
                        let j = choose|j: int| 0 <= j < p.len() && #[trigger] p[j].id == s.last().id;
                        assert(s[j].id == s[s.len() - 1].id);
                    }
                }
                let w2 = w.push(s.last());
                assert forall|i: int, j: int| 0 <= i < w2.len() && 0 <= j < w2.len() && i != j implies w2[i].id != w2[j].id by {
                    if i == w.len() {
                        assert(w2[i] == s.last());
                        assert(w2[j] == w[j]);
                        if w[j].id == s.last().id {
                            assert(has_id(w, s.last().id));
                        }
                    } else if j == w.len() {
                        assert(w2[j] == s.last());
                        assert(w2[i] == w[i]);
                        if w[i].id == s.last().id {
                            assert(has_id(w, s.last().id));
                        }
                    } else {
                        assert(w2[i] == w[i] && w2[j] == w[j]);
                    }
                }
            }
        }
        if find_id(s, id) is None {
            assert(find_id(p, id) is None);
            assert(!has_id(p, id));
            assert(s.last().id != id);
            assert forall|i: int| 0 <= i < s.len() implies s[i].id != id by {
                if i < p.len() {
                    assert(s[i] == p[i]);
                    if p[i].id == id {
                        assert(has_id(p, id));
                    }
                }
            }
        } else {
            if find_id(p, id) is Some {
                let j = choose|j: int| 0 <= j < p.len() && #[trigger] p[j].id == id;
                assert(s[j].id == id);
            } else {
                assert(s[s.len() - 1].id == id);
            }
        }
        if !has_id(s, id) {
            assert(!has_id(p, id)) by {
                if has_id(p, id) {
                    let j = choose|j: int| 0 <= j < p.len() && #[trigger] p[j].id == id;
                    assert(s[j].id == id);
                }
            }
            assert(s.last().id != id) by {
                assert(s[s.len() - 1].id != id);
            }
            assert(s =~= p.push(s.last()));
        }
        assert forall|i: int| 0 <= i < without_id(s, id).len() implies #[trigger] without_id(s, id)[i].id != id by {
            if i < w.len() {
                assert(without_id(s, id)[i] == w[i]);
            }
        }
    }
}

/// Takes the notification with identity `id` out of `list`: the rest in order, and the first
/// one found.
fn split_out(list: Vec<Notification>, id: NotificationId) -> (r: (Vec<Notification>, Option<Notification>))
    ensures
        r.0@ == without_id(list@, id),
        r.1 == find_id(list@, id),
{
    let ghost orig = list@;
    let mut rest = list;
    let mut kept: Vec<Notification> = Vec::new();
    let mut found: Option<Notification> = None;
    let ghost mut i: int = 0;
    while rest.len() > 0
        invariant
            0 <= i <= orig.len(),
            rest@ == orig.skip(i),
            kept@ == without_id(orig.take(i), id),
            found == find_id(orig.take(i), id),
        decreases rest@.len(),
    {
        let n = rest.remove(0);
        proof {
            assert(orig.take(i + 1).drop_last() =~= orig.take(i));
            assert(orig.take(i + 1).last() == orig[i]);
            assert(n == orig[i]);
            assert(rest@ =~= orig.skip(i + 1));
        }
        if n.id == id {
            if found.is_none() {
                found = Some(n);
            }
        } else {
            kept.push(n);
        }
        proof {
            i = i + 1;
        }
    }
    proof {
        assert(orig.take(i) =~= orig);
    }
    (kept, found)
}

/// What a history change asks of the store.
pub enum StoreWrite {
    /// Nothing.
    Nothing,
    /// Save the incoming notification.
    Save,
    /// Delete the notification's row.
    Delete,
}

/// The outcome of adding to the history.
pub struct HistoryAdd {
    /// The new history, newest first.
    pub list: Vec<Notification>,
    /// The store write.
    pub store: StoreWrite,
    /// When the history entry expires, if an expiry timer is to be armed (milliseconds since
    /// the Unix epoch).
    pub expires_at: Option<i64>,
}

/// When a history entry expires: only with `remove_expired` set and an explicit finite
/// timeout, at its reception time plus the timeout.
pub open spec fn expiry_of(n: Notification, remove_expired: bool) -> Option<int> {
    if !remove_expired {
        None
    } else {
        match n.view.lifecycle.timeout {
            Timeout::After(ttl) => Some(n.view.received + ttl),
            _ => None,
        }
    }
}

/// The deadline fits in the clock's range.
pub open spec fn expiry_fits(n: Notification) -> bool {
    match n.view.lifecycle.timeout {
        Timeout::After(ttl) => ttl <= i64::MAX && n.view.received + ttl <= i64::MAX,
        _ => true,
    }
}

/// When the history entry `n` expires (see [`expiry_of`]).
pub fn expiry_deadline(n: &Notification, remove_expired: bool) -> (r: Option<i64>)
    requires
        remove_expired ==> expiry_fits(*n),
    ensures
        match expiry_of(*n, remove_expired) {
            Some(t) => r == Some(t as i64),
            None => r is None,
        },
{
    if !remove_expired {
        return None;
    }
    match n.view.lifecycle.timeout {
        Timeout::After(ttl) => {
            let t: i64 = ttl as i64;
            Some(n.view.received + t)
        },
        _ => None,
    }
}

/// The history after adding `incoming`: a transient notification is not kept (and drops a
/// stale entry with its identity); any other replaces the entry with its identity in place
/// (keeping that entry's reception time) or is new, and moves to the front.
pub open spec fn history_after_add(list: Seq<Notification>, incoming: Notification) -> Seq<Notification> {
    if incoming.view.classification.transient {
        without_id(list, incoming.id)
    } else {
        let front = match find_id(list, incoming.id) {
            Some(e) => merged(e, incoming),
            None => incoming,
        };
        seq![front] + without_id(list, incoming.id)
    }
}

/// Adds `incoming` to the history (see [`history_after_add`]). The store saves a kept
/// notification, and deletes a transient one's stale row; a kept entry with an explicit finite
/// timeout gets an expiry deadline when `remove_expired` is set.
pub fn history_add(list: Vec<Notification>, incoming: Notification, remove_expired: bool) -> (r:
    HistoryAdd)
    requires
        !incoming.view.classification.transient && remove_expired ==> match find_id(list@, incoming.id) {
            Some(e) => expiry_fits(merged(e, incoming)),
            None => expiry_fits(incoming),
        },
    ensures
        r.list@ == history_after_add(list@, incoming),
        incoming.view.classification.transient ==> r.expires_at is None && (if has_id(
            list@,
            incoming.id,
        ) {
            r.store is Delete
        } else {
            r.store is Nothing
        }),
        !incoming.view.classification.transient ==> r.store is Save && match expiry_of(
            r.list@[0],
            remove_expired,
        ) {
            Some(t) => r.expires_at == Some(t as i64),
            None => r.expires_at is None,
        },
{
    proof {
        lemma_without_id(list@, incoming.id);
    }
    let transient = incoming.view.classification.transient;
    let id = incoming.id;
    let (rest, found) = split_out(list, id);
    if transient {
        let store = if found.is_some() {
            StoreWrite::Delete
        } else {
            StoreWrite::Nothing
        };
        return HistoryAdd { list: rest, store, expires_at: None };
    }
    let front = match found {
        Some(mut e) => {
            e.update_from(incoming);
            e
        },
        None => incoming,
    };
    let expires_at = expiry_deadline(&front, remove_expired);
    let mut list = rest;
    list.insert(0, front);
    HistoryAdd { list, store: StoreWrite::Save, expires_at }
}

/// The popups after showing `incoming` (unless do-not-disturb is on): it replaces the popup
/// with its identity in place or is new, and moves to the front.
pub open spec fn popups_after_add(popups: Seq<Notification>, incoming: Notification, dnd: bool) -> Seq<Notification> {
    if dnd {
        popups
    } else {
        let front = match find_id(popups, incoming.id) {
            Some(e) => merged(e, incoming),
            None => incoming,
        };
        seq![front] + without_id(popups, incoming.id)
    }
}

/// How long a banner stays: never auto-hidden only for the app's explicit never-expire; a
/// finite request is clamped to the default; otherwise the default.
pub open spec fn popup_duration_for(timeout: Timeout, default_ms: u32) -> Option<u64> {
    match timeout {
        Timeout::NeverByApp => None,
        Timeout::After(ttl) => Some(if ttl < default_ms {
            ttl
        } else {
            default_ms as u64
        }),
        _ => Some(default_ms as u64),
    }
}

/// The outcome of showing a popup.
pub struct PopupAdd {
    /// The new popups, newest first.
    pub list: Vec<Notification>,
    /// The popup timer to start: the identity and the duration in milliseconds.
    pub timer: Option<(NotificationId, u64)>,
}

/// Shows `incoming` as a popup (see [`popups_after_add`]), with its auto-hide timer.
pub fn popup_add(popups: Vec<Notification>, incoming: Notification, dnd: bool, default_ms: u32) -> (r:
    PopupAdd)
    ensures
        r.list@ == popups_after_add(popups@, incoming, dnd),
        dnd ==> r.timer is None,
        !dnd ==> match popup_duration_for(incoming.view.lifecycle.timeout, default_ms) {
            Some(ms) => r.timer == Some((incoming.id, ms)),
            None => r.timer is None,
        },
{
    if dnd {
        return PopupAdd { list: popups, timer: None };
    }
    proof {
        lemma_without_id(popups@, incoming.id);
    }
    let id = incoming.id;
    let (rest, found) = split_out(popups, id);
    let front = match found {
        Some(mut e) => {
            e.update_from(incoming);
            e
        },
        None => incoming,
    };
    let timer = match front.view.lifecycle.timeout {
        Timeout::NeverByApp => None,
        Timeout::After(ttl) => {
            let default_ms64: u64 = default_ms as u64;
            Some((id, if ttl < default_ms64 { ttl } else { default_ms64 }))
        },
        _ => Some((id, default_ms as u64)),
    };
    let mut list = rest;
    list.insert(0, front);
    PopupAdd { list, timer }
}

/// Removes the popup with identity `id` (it stays in history); its timer is cancelled.
pub fn dismiss_popup(popups: Vec<Notification>, id: NotificationId) -> (r: Vec<Notification>)
    ensures
        r@ == without_id(popups@, id),
{
    split_out(popups, id).0
}

/// The outcome of removing a notification.
pub struct Removal {
    /// The new history.
    pub notifications: Vec<Notification>,
    /// The new popups.
    pub popups: Vec<Notification>,
    /// Whether the popup timer is cancelled.
    pub cancel_timer: bool,
    /// The removed history entry (its store row is deleted), if there was one.
    pub removed: Option<Notification>,
    /// The close-back signal to the app.
    pub close_call: Option<BusCall>,
}

/// Removes the notification with identity `id` for `reason`: unless it merely expired, its
/// popup goes (and its timer is cancelled); its history entry goes, and then its row is
/// deleted and the app is told, when it had one.
pub fn remove(
    notifications: Vec<Notification>,
    popups: Vec<Notification>,
    id: NotificationId,
    reason: ClosedReason,
) -> (r: Removal)
    ensures
        reason == ClosedReason::Expired ==> r.popups@ == popups@ && !r.cancel_timer,
        reason != ClosedReason::Expired ==> r.popups@ == without_id(popups@, id) && r.cancel_timer,
        r.notifications@ == without_id(notifications@, id),
        r.removed == find_id(notifications@, id),
        r.removed is None ==> r.close_call is None,
        r.removed matches Some(n) ==> closes_back(n.dispatch, reason, r.close_call),
{
    let expired = match reason {
        ClosedReason::Expired => true,
        _ => false,
    };
    let popups = if expired {
        popups
    } else {
        split_out(popups, id).0
    };
    let (rest, removed) = split_out(notifications, id);
    let close_call = match &removed {
        Some(n) => n.dispatch.close(reason),
        None => None,
    };
    Removal { notifications: rest, popups, cancel_timer: !expired, removed, close_call }
}

/// Whether identity `x` is among `ids`.
pub open spec fn listed(ids: Seq<NotificationId>, x: NotificationId) -> bool {
    exists|i: int| 0 <= i < ids.len() && ids[i] == x
}

/// `s` without the notifications whose identities are listed.
pub open spec fn without_ids(s: Seq<Notification>, ids: Seq<NotificationId>) -> Seq<Notification>
    decreases s.len(),
{
    if s.len() == 0 {
        Seq::empty()
    } else if listed(ids, s.last().id) {
        without_ids(s.drop_last(), ids)
    } else {
        without_ids(s.drop_last(), ids).push(s.last())
    }
}

/// The notifications of `s` whose identities are listed, in order.
pub open spec fn with_ids(s: Seq<Notification>, ids: Seq<NotificationId>) -> Seq<Notification>
    decreases s.len(),
{
    if s.len() == 0 {
        Seq::empty()
    } else if listed(ids, s.last().id) {
        with_ids(s.drop_last(), ids).push(s.last())
    } else {
        with_ids(s.drop_last(), ids)
    }
}

/// Whether `x` is among `ids`.
fn is_listed(ids: &[NotificationId], x: NotificationId) -> (r: bool)
    ensures
        r == listed(ids@, x),
{
    let mut i: usize = 0;
    while i < ids.len()
        invariant
            i <= ids@.len(),
            forall|j: int| 0 <= j < i ==> ids@[j] != x,
        decreases ids@.len() - i,
    {
        if ids[i] == x {
            return true;
        }
        i = i + 1;
    }
    false
}

/// Splits `list` into the notifications not listed and those listed, each in order.
fn partition(list: Vec<Notification>, ids: &[NotificationId]) -> (r: (Vec<Notification>, Vec<Notification>))
    ensures
        r.0@ == without_ids(list@, ids@),
        r.1@ == with_ids(list@, ids@),
{
    let ghost orig = list@;
    let mut rest = list;
    let mut kept: Vec<Notification> = Vec::new();
    let mut taken: Vec<Notification> = Vec::new();
    let ghost mut i: int = 0;
    while rest.len() > 0
        invariant
            0 <= i <= orig.len(),
            rest@ == orig.skip(i),
            kept@ == without_ids(orig.take(i), ids@),
            taken@ == with_ids(orig.take(i), ids@),
        decreases rest@.len(),
    {
        let n = rest.remove(0);
        proof {
            assert(orig.take(i + 1).drop_last() =~= orig.take(i));
            assert(orig.take(i + 1).last() == orig[i]);
            assert(n == orig[i]);
            assert(rest@ =~= orig.skip(i + 1));
        }
        if is_listed(ids, n.id) {
            taken.push(n);
        } else {
            kept.push(n);
        }
        proof {
            i = i + 1;
        }
    }
    proof {
        assert(orig.take(i) =~= orig);
    }
    (kept, taken)
}

/// The outcome of removing several notifications at once.
pub struct BatchRemoval {
    /// The new history.
    pub notifications: Vec<Notification>,
    /// The new popups.
    pub popups: Vec<Notification>,
    /// Whether the listed popups' timers are cancelled.
    pub cancel_timers: bool,
    /// The removed history entries (their rows are deleted in one go), in history order.
    pub removed: Vec<Notification>,
    /// The close-back signals, one per removed entry that has one, in order.
    pub close_calls: Vec<BusCall>,
}

/// The dispatches among `removed` that have a close-back signal, in order.
pub open spec fn closing(removed: Seq<Notification>) -> Seq<NotificationSource>
    decreases removed.len(),
{
    if removed.len() == 0 {
        Seq::empty()
    } else if removed.last().dispatch matches NotificationSource::Freedesktop(d) && d.owner is Some {
        closing(removed.drop_last()).push(removed.last().dispatch)
    } else {
        closing(removed.drop_last())
    }
}

/// Removes the listed notifications in one pass: nothing at all for an empty list; else,
/// unless they merely expired, their popups (and timers); then their history entries, each
/// app being told about its own.
pub fn remove_many(
    notifications: Vec<Notification>,
    popups: Vec<Notification>,
    ids: &[NotificationId],
    reason: ClosedReason,
) -> (r: BatchRemoval)
    ensures
        ids@.len() == 0 ==> r.notifications@ == notifications@ && r.popups@ == popups@
            && !r.cancel_timers && r.removed@.len() == 0 && r.close_calls@.len() == 0,
        ids@.len() > 0 ==> {
            &&& (reason == ClosedReason::Expired ==> r.popups@ == popups@ && !r.cancel_timers)
            &&& (reason != ClosedReason::Expired ==> r.popups@ == without_ids(popups@, ids@)
                && r.cancel_timers)
            &&& r.notifications@ == without_ids(notifications@, ids@)
            &&& r.removed@ == with_ids(notifications@, ids@)
            &&& r.close_calls@.len() == closing(r.removed@).len()
            &&& forall|k: int|
                0 <= k < r.close_calls@.len() ==> closes_back(
                    closing(r.removed@)[k],
                    reason,
                    Some(#[trigger] r.close_calls@[k]),
                )
        },
{
    if ids.len() == 0 {
        return BatchRemoval {
            notifications,
            popups,
            cancel_timers: false,
            removed: Vec::new(),
            close_calls: Vec::new(),
        };
    }
    let expired = match reason {
        ClosedReason::Expired => true,
        _ => false,
    };
    let popups = if expired {
        popups
    } else {
        partition(popups, ids).0
    };
    let (rest, removed) = partition(notifications, ids);
    let mut close_calls: Vec<BusCall> = Vec::new();
    let mut i: usize = 0;
    while i < removed.len()
        invariant
            i <= removed@.len(),
            close_calls@.len() == closing(removed@.take(i as int)).len(),
            forall|k: int|
                0 <= k < close_calls@.len() ==> closes_back(
                    closing(removed@.take(i as int))[k],
                    reason,
                    Some(#[trigger] close_calls@[k]),
                ),
        decreases removed@.len() - i,
    {
        proof {
            assert(removed@.take(i + 1).drop_last() =~= removed@.take(i as int));
            assert(removed@.take(i + 1).last() == removed@[i as int]);
        }
        if let Some(call) = removed[i].dispatch.close(reason) {
            close_calls.push(call);
        }
        i = i + 1;
    }
    proof {
        assert(removed@.take(removed@.len() as int) =~= removed@);
    }
    BatchRemoval { notifications: rest, popups, cancel_timers: !expired, removed, close_calls }
}

/// Strips the actions of every notification whose target is unreachable, given the bus names
/// that are `live` and `activatable`.
pub fn strip_unreachable(list: &mut Vec<Notification>, live: &[String], activatable: &[String])
    ensures
        final(list)@.len() == old(list)@.len(),
        forall|i: int| 0 <= i < final(list)@.len() ==> {
            let before = old(list)@[i];
            let after = #[trigger] final(list)@[i];
            &&& after.id == before.id
            &&& after.dispatch == before.dispatch
            &&& if unreachable(before.dispatch, live@, activatable@) {
                after.view.actions.default is None && after.view.actions.buttons@.len() == 0
                    && after.view.actions.reply is None && after.view.actions.urls@.len() == 0
            } else {
                after == before
            }
        },
{
    let ghost orig = list@;
    let mut out: Vec<Notification> = Vec::new();
    let mut rest: Vec<Notification> = Vec::new();
    std::mem::swap(&mut rest, list);
    let ghost mut i: int = 0;
    while rest.len() > 0
        invariant
            0 <= i <= orig.len(),
            rest@ == orig.skip(i),
            out@.len() == i,
            forall|j: int| 0 <= j < i ==> {
                let before = orig[j];
                let after = #[trigger] out@[j];
                &&& after.id == before.id
                &&& after.dispatch == before.dispatch
                &&& if unreachable(before.dispatch, live@, activatable@) {
                    after.view.actions.default is None && after.view.actions.buttons@.len() == 0
                        && after.view.actions.reply is None && after.view.actions.urls@.len() == 0
                } else {
                    after == before
                }
            },
        decreases rest@.len(),
    {
        let mut n = rest.remove(0);
        proof {
            assert(n == orig[i]);
            assert(rest@ =~= orig.skip(i + 1));
        }
        if n.dispatch.is_unreachable(live, activatable) {
            n.strip_actions();
        }
        out.push(n);
        proof {
            i = i + 1;
        }
    }
    *list = out;
}

/// Whether a notification dispatching through `d` is unreachable given the bus names.
pub open spec fn unreachable(d: NotificationSource, live: Seq<String>, activatable: Seq<String>) -> bool {
    match d {
        NotificationSource::Freedesktop(f) => match f.owner {
            Some(o) => !(exists|i: int| 0 <= i < live.len() && #[trigger] live[i]@ == o@),
            None => true,
        },
        NotificationSource::Gtk(g) => !(exists|i: int| 0 <= i < live.len() && #[trigger] live[i]@ == g.app_id@)
            && !(exists|i: int| 0 <= i < activatable.len() && #[trigger] activatable[i]@ == g.app_id@),
        NotificationSource::Portal(_) => false,
    }
}

/// Whether some notification dispatches to the bus name that vanished (only then is it worth
/// re-checking reachability).
pub fn targets_name(list: &[Notification], vanished: &str) -> (r: bool)
    ensures
        r == exists|i: int| 0 <= i < list@.len() && dispatch_target_is(#[trigger] list@[i].dispatch, vanished@),
{
    let mut i: usize = 0;
    while i < list.len()
        invariant
            i <= list@.len(),
            forall|j: int| 0 <= j < i ==> !dispatch_target_is(#[trigger] list@[j].dispatch, vanished@),
        decreases list@.len() - i,
    {
        match list[i].dispatch.dispatch_target() {
            Some(t) => {
                if crate::text::str_eq(t, vanished) {
                    return true;
                }
            },
            None => {},
        }
        i = i + 1;
    }
    false
}

/// Whether `d` dispatches to the bus name `name`.
pub open spec fn dispatch_target_is(d: NotificationSource, name: Seq<char>) -> bool {
    match d {
        NotificationSource::Freedesktop(f) => f.owner matches Some(o) && o@ == name,
        NotificationSource::Gtk(g) => g.app_id@ == name,
        NotificationSource::Portal(_) => false,
    }
}

/// Adding a notification keeps the history free of duplicate identities, with the added one
/// first; a transient one leaves no entry at all.
pub proof fn law_history_ids_stay_unique(list: Seq<Notification>, incoming: Notification)
    requires
        ids_unique(list),
    ensures
        ids_unique(history_after_add(list, incoming)),
        incoming.view.classification.transient ==> !has_id(history_after_add(list, incoming), incoming.id),
        !incoming.view.classification.transient ==> history_after_add(list, incoming)[0].id == incoming.id,
{
    lemma_without_id(list, incoming.id);
    let w = without_id(list, incoming.id);
    if !incoming.view.classification.transient {
        let front = match find_id(list, incoming.id) {
            Some(e) => merged(e, incoming),
            None => incoming,
        };
        let h = seq![front] + w;
        assert(h[0] == front);
        assert forall|i: int, j: int| 0 <= i < h.len() && 0 <= j < h.len() && i != j implies h[i].id != h[j].id by {
            if i == 0 {
                assert(h[j] == w[j - 1]);
            } else if j == 0 {
                assert(h[i] == w[i - 1]);
            } else {
                assert(h[i] == w[i - 1] && h[j] == w[j - 1]);
            }
        }
    } else {
        assert(!has_id(w, incoming.id)) by {
            if has_id(w, incoming.id) {
                let i = choose|i: int| 0 <= i < w.len() && #[trigger] w[i].id == incoming.id;
            }
        }
    }
}

/// Once removed, a notification is in neither list (its popup stays only when it merely
/// expired), and nothing else leaves the history.
pub proof fn law_removed_is_gone(notifications: Seq<Notification>, popups: Seq<Notification>, id: NotificationId, other: NotificationId)
    requires
        other != id,
    ensures
        !has_id(without_id(notifications, id), id),
        !has_id(without_id(popups, id), id),
        has_id(without_id(notifications, id), other) == has_id(notifications, other),
{
    lemma_without_id(notifications, id);
    lemma_without_id(popups, id);
    let w = without_id(notifications, id);
    assert(!has_id(w, id)) by {
        if has_id(w, id) {
            let i = choose|i: int| 0 <= i < w.len() && #[trigger] w[i].id == id;
        }
    }
    let wp = without_id(popups, id);
    assert(!has_id(wp, id)) by {
        if has_id(wp, id) {
            let i = choose|i: int| 0 <= i < wp.len() && #[trigger] wp[i].id == id;
        }
    }
}

/// A banner never stays longer than the default duration.
pub proof fn law_popup_never_outlasts_default(timeout: Timeout, default_ms: u32)
    ensures
        popup_duration_for(timeout, default_ms) matches Some(ms) ==> ms <= default_ms,
{
}

/// Dismisses the given notifications together: nothing for none, else one batch removal of
/// their identities (in order) as dismissed by the user.
pub fn dismiss_many(list: &[Notification]) -> (r: Option<NotificationEvent>)
    ensures
        list@.len() == 0 ==> r is None,
        list@.len() > 0 ==> (r matches Some(NotificationEvent::RemoveMany(ids, reason)) && reason
            == ClosedReason::DismissedByUser && ids@ == list@.map_values(|n: Notification| n.id)),
{
    if list.len() == 0 {
        return None;
    }
    let mut ids: Vec<NotificationId> = Vec::new();
    let mut i: usize = 0;
    while i < list.len()
        invariant
            i <= list@.len(),
            ids@ == list@.take(i as int).map_values(|n: Notification| n.id),
        decreases list@.len() - i,
    {
        ids.push(list[i].id);
        proof {
            assert(ids@ =~= list@.take(i + 1).map_values(|n: Notification| n.id));
        }
        i = i + 1;
    }
    proof {
        assert(list@.take(list@.len() as int) =~= list@);
    }
    Some(NotificationEvent::RemoveMany(ids, ClosedReason::DismissedByUser))
}

/// The row the control daemon lists for a notification: its identity, display name (empty
/// without one), summary, and body text (empty without one).
pub open spec fn listed_row(n: Notification) -> (i64, Seq<char>, Seq<char>, Seq<char>) {
    (
        id_value(n.id),
        match n.view.origin.name {
            Some(name) => name@,
            None => Seq::empty(),
        },
        n.view.content.summary@,
        match n.view.content.body {
            Some(b) => body_text(b),
            None => Seq::empty(),
        },
    )
}

/// The view of a listed row.
pub open spec fn row_view(r: (i64, String, String, String)) -> (i64, Seq<char>, Seq<char>, Seq<char>) {
    (r.0, r.1@, r.2@, r.3@)
}

/// The control daemon's listing of the history, in order (see [`listed_row`]).
pub fn list_rows(list: &[Notification]) -> (r: Vec<(i64, String, String, String)>)
    ensures
        r@.map_values(|x: (i64, String, String, String)| row_view(x)) == list@.map_values(
            |n: Notification| listed_row(n),
        ),
{
    let mut out: Vec<(i64, String, String, String)> = Vec::new();
    let mut i: usize = 0;
    while i < list.len()
        invariant
            i <= list@.len(),
            out@.map_values(|x: (i64, String, String, String)| row_view(x)) == list@.take(
                i as int,
            ).map_values(|n: Notification| listed_row(n)),
        decreases list@.len() - i,
    {
        let n = &list[i];
        let name = match &n.view.origin.name {
            Some(name) => owned(name.as_str()),
            None => String::new(),
        };
        let body = match &n.view.content.body {
            Some(b) => owned(b.text()),
            None => String::new(),
        };
        let row = (n.id.get(), name, owned(n.view.content.summary.as_str()), body);
        assert(row_view(row) == listed_row(list@[i as int]));
        let ghost prev = out@;
        out.push(row);
        proof {
            assert(out@.map_values(|x: (i64, String, String, String)| row_view(x)) =~= prev.map_values(
                |x: (i64, String, String, String)| row_view(x),
            ).push(row_view(row)));
            assert(list@.take(i + 1).map_values(|n: Notification| listed_row(n)) =~= list@.take(
                i as int,
            ).map_values(|n: Notification| listed_row(n)).push(listed_row(list@[i as int])));
        }
        i = i + 1;
    }
    proof {
        assert(list@.take(list@.len() as int) =~= list@);
    }
    out
}

/// What one pipeline event does to the history and the popups (`dnd`: do-not-disturb at
/// that moment): an arrival is added to both (see [`history_after_add`] and
/// [`popups_after_add`]); a removal takes the identity out of the history and, unless it
/// merely expired, out of the popups; a batch removal does so for each listed identity (and
/// nothing for an empty list); a popup dismissal takes it out of the popups only; pausing
/// and resuming a popup's timer change neither list. These are the lists [`history_add`],
/// [`popup_add`], [`remove`], [`remove_many`] and [`dismiss_popup`] produce.
pub open spec fn event_step(h: Seq<Notification>, p: Seq<Notification>, e: NotificationEvent, dnd: bool) -> (
    Seq<Notification>,
    Seq<Notification>,
) {
    match e {
        NotificationEvent::Add(n) => (history_after_add(h, *n), popups_after_add(p, *n, dnd)),
        NotificationEvent::Remove(id, reason) => (
            without_id(h, id),
            if reason == ClosedReason::Expired {
                p
            } else {
                without_id(p, id)
            },
        ),
        NotificationEvent::RemoveMany(ids, reason) => if ids@.len() == 0 {
            (h, p)
        } else {
            (
                without_ids(h, ids@),
                if reason == ClosedReason::Expired {
                    p
                } else {
                    without_ids(p, ids@)
                },
            )
        },
        NotificationEvent::DismissPopup(id) => (h, without_id(p, id)),
        NotificationEvent::InhibitPopup(_) => (h, p),
        NotificationEvent::ReleasePopup(_) => (h, p),
    }
}

/// The history and popups after the events, handled one by one in the order received, each
/// with the do-not-disturb setting it was received under.
pub open spec fn event_fold(h: Seq<Notification>, p: Seq<Notification>, events: Seq<(NotificationEvent, bool)>) -> (
    Seq<Notification>,
    Seq<Notification>,
)
    decreases events.len(),
{
    if events.len() == 0 {
        (h, p)
    } else {
        let (h1, p1) = event_fold(h, p, events.drop_last());
        event_step(h1, p1, events.last().0, events.last().1)
    }
}

/// Whether `e` is the arrival of a notification with identity `x`.
pub open spec fn arrival_of(e: NotificationEvent, x: NotificationId) -> bool {
    e matches NotificationEvent::Add(n) && n.id == x
}

/// Whether some event among `events` is the arrival of a notification with identity `x`.
pub open spec fn arrived(events: Seq<(NotificationEvent, bool)>, x: NotificationId) -> bool {
    exists|i: int| 0 <= i < events.len() && #[trigger] arrival_of(events[i].0, x)
}

/// Dropping the listed identities leaves only unlisted ones, adds none, and keeps the
/// identities distinct.
pub proof fn lemma_without_ids(s: Seq<Notification>, ids: Seq<NotificationId>)
    ensures
        forall|i: int| 0 <= i < without_ids(s, ids).len() ==> !listed(ids, #[trigger] without_ids(s, ids)[i].id),
        forall|x: NotificationId| has_id(without_ids(s, ids), x) ==> has_id(s, x),
        ids_unique(s) ==> ids_unique(without_ids(s, ids)),
    decreases s.len(),
{
    if s.len() > 0 {
        let p = s.drop_last();
        lemma_without_ids(p, ids);
        let w = without_ids(p, ids);
        let w2 = without_ids(s, ids);
        assert(w2 == if listed(ids, s.last().id) { w } else { w.push(s.last()) });
        assert forall|x: NotificationId| has_id(w2, x) implies has_id(s, x) by {
            let i = choose|i: int| 0 <= i < w2.len() && #[trigger] w2[i].id == x;
            if i < w.len() {
                assert(w2[i] == w[i]);
                assert(has_id(w, x));
                assert(has_id(p, x));
                let j = choose|j: int| 0 <= j < p.len() && #[trigger] p[j].id == x;
                assert(s[j] == p[j]);
            } else {
                assert(w2[i] == s.last());
                assert(s[s.len() - 1].id == x);
            }
        }
        if !listed(ids, s.last().id) {
            assert forall|i: int| 0 <= i < w2.len() implies !listed(ids, #[trigger] w2[i].id) by {
                if i < w.len() {
                    assert(w2[i] == w[i]);
                }
            }
        }
        if ids_unique(s) {
            assert(ids_unique(p)) by {
                assert forall|i: int, j: int| 0 <= i < p.len() && 0 <= j < p.len() && i != j implies p[i].id != p[j].id by {
                    assert(s[i] == p[i] && s[j] == p[j]);
                }
            }
            if !listed(ids, s.last().id) {
                assert(!has_id(w, s.last().id)) by {
                    if has_id(w, s.last().id) {
                        assert(has_id(p, s.last().id));
                        let j = choose|j: int| 0 <= j < p.len() && #[trigger] p[j].id == s.last().id;
                        assert(s[j].id == s[s.len() - 1].id);
                    }
                }
                assert forall|i: int, j: int| 0 <= i < w2.len() && 0 <= j < w2.len() && i != j implies w2[i].id != w2[j].id by {
                    if i == w.len() {
                        assert(w2[j] == w[j]);
                        if w[j].id == s.last().id {
                            assert(has_id(w, s.last().id));
                        }
                    } else if j == w.len() {
                        assert(w2[i] == w[i]);
                        if w[i].id == s.last().id {
                            assert(has_id(w, s.last().id));
                        }
                    } else {
                        assert(w2[i] == w[i] && w2[j] == w[j]);
                    }
                }
            }
        }
    }
}

/// Putting `front` before entries without its identity keeps the identities distinct; the
/// result holds exactly `front`'s identity and those of `w`.
proof fn lemma_front(front: Notification, w: Seq<Notification>)
    requires
        !has_id(w, front.id),
    ensures
        ids_unique(w) ==> ids_unique(seq![front] + w),
        forall|x: NotificationId| has_id(seq![front] + w, x) <==> (x == front.id || has_id(w, x)),
        (seq![front] + w)[0] == front,
{
    let h = seq![front] + w;
    assert(h[0] == front);
    if ids_unique(w) {
        assert forall|i: int, j: int| 0 <= i < h.len() && 0 <= j < h.len() && i != j implies h[i].id != h[j].id by {
            if i == 0 {
                assert(h[j] == w[j - 1]);
            } else if j == 0 {
                assert(h[i] == w[i - 1]);
            } else {
                assert(h[i] == w[i - 1] && h[j] == w[j - 1]);
            }
        }
    }
    assert forall|x: NotificationId| has_id(h, x) <==> (x == front.id || has_id(w, x)) by {
        if has_id(h, x) && x != front.id {
            let i = choose|i: int| 0 <= i < h.len() && #[trigger] h[i].id == x;
            assert(h[i] == w[i - 1]);
        }
        if has_id(w, x) {
            let i = choose|i: int| 0 <= i < w.len() && #[trigger] w[i].id == x;
            assert(h[i + 1] == w[i]);
        }
    }
}

/// An arrival keeps the identities of a list distinct and brings no identity but its own,
/// whether it lands in the history or among the popups.
proof fn lemma_add(list: Seq<Notification>, incoming: Notification, keep: bool)
    ensures
        ({
            let r = if keep {
                let front = match find_id(list, incoming.id) {
                    Some(e) => merged(e, incoming),
                    None => incoming,
                };
                seq![front] + without_id(list, incoming.id)
            } else {
                without_id(list, incoming.id)
            };
            &&& ids_unique(list) ==> ids_unique(r)
            &&& forall|x: NotificationId| has_id(r, x) ==> (x == incoming.id || has_id(list, x))
            &&& keep ==> r[0].id == incoming.id && has_id(r, incoming.id)
            &&& !keep ==> !has_id(r, incoming.id)
        }),
{
    lemma_without_id(list, incoming.id);
    let w = without_id(list, incoming.id);
    assert(!has_id(w, incoming.id)) by {
        if has_id(w, incoming.id) {
            let i = choose|i: int| 0 <= i < w.len() && #[trigger] w[i].id == incoming.id;
        }
    }
    let front = match find_id(list, incoming.id) {
        Some(e) => merged(e, incoming),
        None => incoming,
    };
    assert(front.id == incoming.id);
    lemma_front(front, w);
}

/// Every event keeps each list free of duplicate identities and brings no identity but the
/// arriving one's.
proof fn lemma_event_step(h: Seq<Notification>, p: Seq<Notification>, e: NotificationEvent, dnd: bool)
    ensures
        ids_unique(h) ==> ids_unique(event_step(h, p, e, dnd).0),
        ids_unique(p) ==> ids_unique(event_step(h, p, e, dnd).1),
        forall|x: NotificationId| (has_id(event_step(h, p, e, dnd).0, x) || has_id(event_step(h, p, e, dnd).1, x)) ==> (
            has_id(h, x) || has_id(p, x) || arrival_of(e, x)),
{
    match e {
        NotificationEvent::Add(n) => {
            lemma_add(h, *n, !n.view.classification.transient);
            lemma_add(p, *n, !dnd);
        },
        NotificationEvent::Remove(id, reason) => {
            lemma_without_id(h, id);
            lemma_without_id(p, id);
        },
        NotificationEvent::RemoveMany(ids, reason) => {
            lemma_without_ids(h, ids@);
            lemma_without_ids(p, ids@);
        },
        NotificationEvent::DismissPopup(id) => {
            lemma_without_id(p, id);
        },
        _ => {},
    }
}

/// Over any sequence of events, neither the history nor the popups ever hold one identity
/// twice.
pub proof fn law_events_keep_ids_unique(h: Seq<Notification>, p: Seq<Notification>, events: Seq<(NotificationEvent, bool)>)
    requires
        ids_unique(h),
        ids_unique(p),
    ensures
        ids_unique(event_fold(h, p, events).0),
        ids_unique(event_fold(h, p, events).1),
    decreases events.len(),
{
    if events.len() > 0 {
        law_events_keep_ids_unique(h, p, events.drop_last());
        let (h1, p1) = event_fold(h, p, events.drop_last());
        lemma_event_step(h1, p1, events.last().0, events.last().1);
    }
}

/// Over any sequence of events, every identity in either list was there at the start or
/// arrived with one of the events.
pub proof fn law_events_only_bring_arrivals(
    h: Seq<Notification>,
    p: Seq<Notification>,
    events: Seq<(NotificationEvent, bool)>,
    x: NotificationId,
)
    ensures
        has_id(event_fold(h, p, events).0, x) || has_id(event_fold(h, p, events).1, x) ==> has_id(h, x)
            || has_id(p, x) || arrived(events, x),
    decreases events.len(),
{
    if events.len() > 0 {
        let prev = events.drop_last();
        law_events_only_bring_arrivals(h, p, prev, x);
        let (h1, p1) = event_fold(h, p, prev);
        lemma_event_step(h1, p1, events.last().0, events.last().1);
        if arrived(prev, x) {
            let i = choose|i: int| 0 <= i < prev.len() && #[trigger] arrival_of(prev[i].0, x);
            assert(events[i] == prev[i]);
            assert(arrival_of(events[i].0, x));
        }
        if arrival_of(events.last().0, x) {
            assert(arrival_of(events[events.len() - 1].0, x));
        }
    }
}

/// Whatever came before, the last event leaves what it asked for: after a removal the
/// identity is in no list (its popup stays only when it merely expired), after a batch
/// removal none of the listed identities is in the history (nor, unless they expired, among
/// the popups), after a popup dismissal it is no popup and the history is untouched, and a
/// kept arrival heads the history (and, without do-not-disturb, the popups) while a
/// transient one is not in the history.
pub proof fn law_last_event_takes_effect(h: Seq<Notification>, p: Seq<Notification>, events: Seq<(NotificationEvent, bool)>)
    requires
        events.len() > 0,
    ensures
        ({
            let (h0, p0) = event_fold(h, p, events.drop_last());
            let (h1, p1) = event_fold(h, p, events);
            let (e, dnd) = events.last();
            &&& e matches NotificationEvent::Remove(id, reason) ==> !has_id(h1, id) && (reason
                != ClosedReason::Expired ==> !has_id(p1, id)) && (reason == ClosedReason::Expired ==> p1 == p0)
            &&& e matches NotificationEvent::RemoveMany(ids, reason) ==> forall|x: NotificationId|
                listed(ids@, x) ==> !has_id(h1, x) && (reason != ClosedReason::Expired ==> !has_id(p1, x))
            &&& e matches NotificationEvent::DismissPopup(id) ==> !has_id(p1, id) && h1 == h0
            &&& e matches NotificationEvent::Add(n) ==> (if n.view.classification.transient {
                !has_id(h1, n.id)
            } else {
                h1[0].id == n.id
            }) && (!dnd ==> p1[0].id == n.id) && (dnd ==> p1 == p0)
        }),
{
    let (h0, p0) = event_fold(h, p, events.drop_last());
    let (e, dnd) = events.last();
    match e {
        NotificationEvent::Add(n) => {
            lemma_add(h0, *n, !n.view.classification.transient);
            lemma_add(p0, *n, !dnd);
        },
        NotificationEvent::Remove(id, reason) => {
            lemma_without_id(h0, id);
            lemma_without_id(p0, id);
            let w = without_id(h0, id);
            assert(!has_id(w, id)) by {
                if has_id(w, id) {
                    let i = choose|i: int| 0 <= i < w.len() && #[trigger] w[i].id == id;
                }
            }
            let wp = without_id(p0, id);
            assert(!has_id(wp, id)) by {
                if has_id(wp, id) {
                    let i = choose|i: int| 0 <= i < wp.len() && #[trigger] wp[i].id == id;
                }
            }
        },
        NotificationEvent::RemoveMany(ids, reason) => {
            lemma_without_ids(h0, ids@);
            lemma_without_ids(p0, ids@);
            if ids@.len() > 0 {
                let w = without_ids(h0, ids@);
                let wp = without_ids(p0, ids@);
                assert forall|x: NotificationId| listed(ids@, x) implies !has_id(w, x) && (reason
                    != ClosedReason::Expired ==> !has_id(wp, x)) by {
                    if has_id(w, x) {
                        let i = choose|i: int| 0 <= i < w.len() && #[trigger] w[i].id == x;
                    }
                    if has_id(wp, x) {
                        let i = choose|i: int| 0 <= i < wp.len() && #[trigger] wp[i].id == x;
                    }
                }
            } else {
                assert forall|x: NotificationId| !listed(ids@, x) by {}
            }
        },
        NotificationEvent::DismissPopup(id) => {
            lemma_without_id(p0, id);
            let wp = without_id(p0, id);
            assert(!has_id(wp, id)) by {
                if has_id(wp, id) {
                    let i = choose|i: int| 0 <= i < wp.len() && #[trigger] wp[i].id == id;
                }
            }
        },
        _ => {},
    }
}

} // verus!
