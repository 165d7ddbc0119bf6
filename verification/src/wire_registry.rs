//! The freedesktop daemon's wire-id bookkeeping: which live wire id belongs to which
//! notification identity and app, which `(app, stack_tag)` coalescing slot holds which
//! identity, and the session-scoped wire-id counter.
use vstd::prelude::*;
use std::collections::HashMap;
use crate::model::{FreedesktopDispatch, NotificationId, NotificationSource};
use crate::notification::Notification;
use crate::slot_map::SlotMap;
use crate::text::{owned, str_eq};

verus! {

broadcast use vstd::std_specs::hash::group_hash_axioms;

/// The identity and owner behind a live freedesktop wire id.
pub struct WireSlot {
    /// The notification identity.
    pub guid: NotificationId,
    /// The app name that created it.
    pub app: String,
}

/// The abstract state of a [`WireRegistry`].
pub struct RegistryView {
    /// The next wire id to issue.
    pub next: u32,
    /// Live wire id → (identity, owning app name).
    pub wires: Map<u32, (NotificationId, Seq<char>)>,
    /// `(app, stack_tag)` → the identity holding that slot.
    pub stacks: Map<(Seq<char>, Seq<char>), NotificationId>,
}

/// The view of an optional borrowed string.
pub open spec fn opt_str(o: Option<&str>) -> Option<Seq<char>> {
    match o {
        Some(s) => Some(s@),
        None => None,
    }
}

/// The freedesktop wire-id space of one daemon session.
pub struct WireRegistry {
    counter: u32,
    wires: HashMap<u32, WireSlot>,
    stacks: SlotMap,
}

/// The wire-id counter after issuing `n`: it wraps at `u32::MAX`.
pub open spec fn after(n: u32) -> u32 {
    if n == u32::MAX {
        0
    } else {
        (n + 1) as u32
    }
}

/// What `resolve` decides: (new state, identity, wire id).
///
/// 1. an app-owned `replaces_id` reuses both its identity and its wire id;
/// 2. else a `stack_tag` slot the app used before reuses its identity with a fresh wire id;
/// 3. else `fresh` with a fresh wire id.
///
/// The result is recorded as the wire id's slot and, with a tag, as the stack slot.
pub open spec fn resolve_spec(
    v: RegistryView,
    replaces_id: u32,
    app: Seq<char>,
    tag: Option<Seq<char>>,
    fresh: NotificationId,
) -> (RegistryView, NotificationId, u32) {
    let owned_replace = replaces_id != 0 && v.wires.contains_key(replaces_id)
        && v.wires[replaces_id].1 == app;
    let stacked = tag matches Some(t) && v.stacks.contains_key((app, t));
    let (guid, wire, next) = if owned_replace {
        (v.wires[replaces_id].0, replaces_id, v.next)
    } else if stacked {
        (v.stacks[(app, tag.unwrap())], v.next, after(v.next))
    } else {
        (fresh, v.next, after(v.next))
    };
    let stacks = match tag {
        Some(t) => v.stacks.insert((app, t), guid),
        None => v.stacks,
    };
    (RegistryView { next, wires: v.wires.insert(wire, (guid, app)), stacks }, guid, wire)
}

/// What `close` does: drops the wire id's slot and yields its identity.
pub open spec fn close_spec(v: RegistryView, wire_id: u32) -> (RegistryView, Option<NotificationId>) {
    if v.wires.contains_key(wire_id) {
        (RegistryView { wires: v.wires.remove(wire_id), ..v }, Some(v.wires[wire_id].0))
    } else {
        (v, None)
    }
}

/// Closing the wire id that `resolve` handed out yields the identity it resolved to.
pub proof fn law_close_after_resolve(
    v: RegistryView,
    replaces_id: u32,
    app: Seq<char>,
    tag: Option<Seq<char>>,
    fresh: NotificationId,
)
    ensures
        ({
            let (v2, guid, wire) = resolve_spec(v, replaces_id, app, tag, fresh);
            close_spec(v2, wire).1 == Some(guid)
        }),
{
}

/// A wire id closes once: closing it again finds nothing.
pub proof fn law_close_is_once(v: RegistryView, wire_id: u32)
    ensures
        close_spec(close_spec(v, wire_id).0, wire_id).1 is None,
{
}

/// An app that passes a `replaces_id` it owns keeps both the identity and the wire id, and
/// no new wire id is issued.
pub proof fn law_owned_replace_keeps_identity(
    v: RegistryView,
    replaces_id: u32,
    app: Seq<char>,
    tag: Option<Seq<char>>,
    fresh: NotificationId,
)
    requires
        replaces_id != 0,
        v.wires.contains_key(replaces_id),
        v.wires[replaces_id].1 == app,
    ensures
        ({
            let (v2, guid, wire) = resolve_spec(v, replaces_id, app, tag, fresh);
            guid == v.wires[replaces_id].0 && wire == replaces_id && v2.next == v.next
        }),
{
}

/// A `replaces_id` owned by another app does not let this app take that notification over:
/// without a stack tag it gets the fresh identity and the next wire id.
pub proof fn law_foreign_replace_is_ignored(
    v: RegistryView,
    replaces_id: u32,
    app: Seq<char>,
    fresh: NotificationId,
)
    requires
        v.wires.contains_key(replaces_id),
        v.wires[replaces_id].1 != app,
    ensures
        ({
            let (v2, guid, wire) = resolve_spec(v, replaces_id, app, None, fresh);
            guid == fresh && wire == v.next && v2.next == after(v.next)
        }),
{
}

/// Two notifications from one app with the same stack tag share one identity (the second
/// replaces the first in place), while each still gets its own wire id.
pub proof fn law_stack_tag_coalesces(
    v: RegistryView,
    replaces_id: u32,
    app: Seq<char>,
    tag: Seq<char>,
    fresh1: NotificationId,
    fresh2: NotificationId,
)
    ensures
        ({
            let (v2, guid1, wire1) = resolve_spec(v, replaces_id, app, Some(tag), fresh1);
            let (v3, guid2, wire2) = resolve_spec(v2, 0, app, Some(tag), fresh2);
            guid2 == guid1 && wire2 == v2.next && v3.next == after(v2.next)
        }),
{
}

/// What a notification restored from storage contributes to the registry of `session`: one
/// from this session re-seeds its wire slot (and stack slot) when it names its app, and
/// raises the running maximum wire id (held in `next` while folding).
pub open spec fn restore_step(v: RegistryView, p: Notification, session: Seq<char>) -> RegistryView {
    match p.dispatch {
        NotificationSource::Freedesktop(d) => {
            if d.session_id@ == session {
                let next = if d.wire_id > v.next {
                    d.wire_id
                } else {
                    v.next
                };
                match p.view.origin.name {
                    Some(app) => RegistryView {
                        next,
                        wires: v.wires.insert(d.wire_id, (p.id, app@)),
                        stacks: match p.view.classification.stack_tag {
                            Some(t) => v.stacks.insert((app@, t@), p.id),
                            None => v.stacks,
                        },
                    },
                    None => RegistryView { next, ..v },
                }
            } else {
                v
            }
        },
        _ => v,
    }
}

/// Folds [`restore_step`] over the restored notifications, in order.
pub open spec fn restore_fold(s: Seq<Notification>, session: Seq<char>) -> RegistryView
    decreases s.len(),
{
    if s.len() == 0 {
        RegistryView { next: 0, wires: Map::empty(), stacks: Map::empty() }
    } else {
        restore_step(restore_fold(s.drop_last(), session), s.last(), session)
    }
}

/// The registry of `session` re-established from restored notifications: their slots, with
/// the counter resumed just above the largest wire id of this session (saturating).
pub open spec fn restored_view(s: Seq<Notification>, session: Seq<char>) -> RegistryView {
    let f = restore_fold(s, session);
    RegistryView {
        next: if f.next == u32::MAX {
            u32::MAX
        } else {
            (f.next + 1) as u32
        },
        ..f
    }
}

/// While folding, the running maximum bounds every seeded wire id.
proof fn lemma_fold_bounds_wires(s: Seq<Notification>, session: Seq<char>)
    ensures
        forall|k: u32| #[trigger]
            restore_fold(s, session).wires.contains_key(k) ==> k <= restore_fold(s, session).next,
    decreases s.len(),
{
    if s.len() > 0 {
        lemma_fold_bounds_wires(s.drop_last(), session);
        let prev = restore_fold(s.drop_last(), session);
        let cur = restore_fold(s, session);
        assert(cur == restore_step(prev, s.last(), session));
        assert(cur.next >= prev.next);
        assert forall|k: u32| #[trigger] cur.wires.contains_key(k) implies k <= cur.next by {
            if prev.wires.contains_key(k) {
                assert(k <= prev.next);
            }
        }
    }
}

/// After a restore, every wire id still live is below the next one the counter issues
/// (unless this session's ids already reached `u32::MAX`): a fresh id never collides.
pub proof fn law_restored_counter_above_live_wires(s: Seq<Notification>, session: Seq<char>)
    requires
        restore_fold(s, session).next < u32::MAX,
    ensures
        forall|k: u32| #[trigger]
            restored_view(s, session).wires.contains_key(k) ==> k < restored_view(s, session).next,
{
    lemma_fold_bounds_wires(s, session);
}

/// A restored notification from a prior session loses its owner: that connection is gone,
/// so its actions survive as history but cannot be dispatched.
pub open spec fn release_stale(p: Notification, session: Seq<char>) -> Notification {
    match p.dispatch {
        NotificationSource::Freedesktop(d) => {
            if d.session_id@ != session {
                Notification {
                    dispatch: NotificationSource::Freedesktop(
                        FreedesktopDispatch { owner: None, ..d },
                    ),
                    ..p
                }
            } else {
                p
            }
        },
        _ => p,
    }
}

/// Clears the owner of a freedesktop notification restored from a prior session.
pub fn release_stale_owner(p: Notification, session_id: &str) -> (r: Notification)
    ensures
        r == release_stale(p, session_id@),
{
    let Notification { id, view, dispatch } = p;
    let dispatch = match dispatch {
        NotificationSource::Freedesktop(d) => {
            if str_eq(d.session_id.as_str(), session_id) {
                NotificationSource::Freedesktop(d)
            } else {
                NotificationSource::Freedesktop(
                    FreedesktopDispatch { wire_id: d.wire_id, session_id: d.session_id, owner: None },
                )
            }
        },
        other => other,
    };
    Notification { id, view, dispatch }
}

impl View for WireRegistry {
    type V = RegistryView;

    closed spec fn view(&self) -> RegistryView {
        RegistryView {
            next: self.counter,
            wires: self.wires@.map_values(|s: WireSlot| (s.guid, s.app@)),
            stacks: self.stacks@,
        }
    }
}

impl WireRegistry {
    /// The registry's internal consistency: each coalescing key appears once.
    pub closed spec fn wf(&self) -> bool {
        self.stacks.wf()
    }

    /// An empty registry whose next wire id is `first`.
    pub fn empty(first: u32) -> (r: WireRegistry)
        ensures
            r.wf(),
            r@.next == first,
            r@.wires == Map::<u32, (NotificationId, Seq<char>)>::empty(),
            r@.stacks == Map::<(Seq<char>, Seq<char>), NotificationId>::empty(),
    {
        let r = WireRegistry { counter: first, wires: HashMap::new(), stacks: SlotMap::new() };
        assert(r@.wires =~= Map::empty());
        assert(r@.stacks =~= Map::empty());
        r
    }

    /// Re-establishes the wire-id space of `session_id` from the notifications restored for
    /// it: seeds their wire and stack slots (so an app can still replace or close them) and
    /// resumes the counter above their largest wire id (so a fresh id never collides).
    pub fn restore(session_id: &str, restored: &[Notification]) -> (r: WireRegistry)
        ensures
            r.wf(),
            r@ == restored_view(restored@, session_id@),
    {
        let mut reg = WireRegistry::empty(0);
        let mut i: usize = 0;
        while i < restored.len()
            invariant
                i <= restored@.len(),
                reg.wf(),
                reg@ == restore_fold(restored@.take(i as int), session_id@),
            decreases restored@.len() - i,
        {
            let p = &restored[i];
            proof {
                assert(restored@.take(i + 1).drop_last() =~= restored@.take(i as int));
                assert(restored@.take(i + 1).last() == restored@[i as int]);
            }
            match &p.dispatch {
                NotificationSource::Freedesktop(d) => {
                    if str_eq(d.session_id.as_str(), session_id) {
                        if d.wire_id > reg.counter {
                            reg.counter = d.wire_id;
                        }
                        match &p.view.origin.name {
                            Some(app) => {
                                reg.record_wire(d.wire_id, p.id, app.as_str());
                                match &p.view.classification.stack_tag {
                                    Some(tag) => reg.record_stack(app.as_str(), tag.as_str(), p.id),
                                    None => {},
                                }
                            },
                            None => {},
                        }
                    }
                },
                _ => {},
            }
            i = i + 1;
        }
        proof {
            assert(restored@.take(restored@.len() as int) =~= restored@);
        }
        reg.counter = reg.counter.saturating_add(1);
        reg
    }

    /// Whether `wire_id` currently belongs to a notification created by `app_name`.
    pub fn owns_wire(&self, wire_id: u32, app_name: &str) -> (r: bool)
        ensures
            r == (self@.wires.contains_key(wire_id) && self@.wires[wire_id].1 == app_name@),
    {
        match self.wires.get(&wire_id) {
            Some(slot) => str_eq(slot.app.as_str(), app_name),
            None => false,
        }
    }

    /// The identity behind a live wire id.
    pub fn wire_guid(&self, wire_id: u32) -> (r: Option<NotificationId>)
        ensures
            r == (if self@.wires.contains_key(wire_id) {
                Some(self@.wires[wire_id].0)
            } else {
                None
            }),
    {
        match self.wires.get(&wire_id) {
            Some(slot) => Some(slot.guid),
            None => None,
        }
    }

    /// The identity holding `app_name`'s `tag` slot, if any.
    pub fn stack_slot(&self, app_name: &str, tag: &str) -> (r: Option<NotificationId>)
        requires
            self.wf(),
        ensures
            r == (if self@.stacks.contains_key((app_name@, tag@)) {
                Some(self@.stacks[(app_name@, tag@)])
            } else {
                None
            }),
    {
        self.stacks.get(app_name, tag)
    }

    /// Records `guid` as the holder of `app_name`'s `tag` slot.
    fn record_stack(&mut self, app_name: &str, tag: &str, guid: NotificationId)
        requires
            old(self).wf(),
        ensures
            final(self).wf(),
            final(self)@ == (RegistryView {
                stacks: old(self)@.stacks.insert((app_name@, tag@), guid),
                ..old(self)@
            }),
    {
        self.stacks.insert(app_name, tag, guid);
        proof {
            assert(self@.wires =~= old(self)@.wires);
        }
    }

    /// Records `guid` and `app_name` as the owners of `wire_id`.
    fn record_wire(&mut self, wire_id: u32, guid: NotificationId, app_name: &str)
        ensures
            final(self).stacks == old(self).stacks,
            final(self)@ == (RegistryView {
                wires: old(self)@.wires.insert(wire_id, (guid, app_name@)),
                ..old(self)@
            }),
    {
        self.wires.insert(wire_id, WireSlot { guid, app: owned(app_name) });
        proof {
            assert(self@.wires =~= old(self)@.wires.insert(wire_id, (guid, app_name@)));
        }
    }

    /// Issues the next session-scoped wire id (wrapping at `u32::MAX`).
    fn next_wire_id(&mut self) -> (r: u32)
        ensures
            r == old(self)@.next,
            final(self).stacks == old(self).stacks,
            final(self)@ == (RegistryView { next: after(old(self)@.next), ..old(self)@ }),
    {
        let r = self.counter;
        self.counter = self.counter.wrapping_add(1);
        r
    }

    /// Resolves the identity and wire id for an incoming `Notify`, with `fresh` as the
    /// identity of a notification that coalesces onto nothing (see [`resolve_spec`]).
    pub fn resolve_with(
        &mut self,
        replaces_id: u32,
        app_name: &str,
        stack_tag: Option<&str>,
        fresh: NotificationId,
    ) -> (r: (NotificationId, u32))
        requires
            old(self).wf(),
        ensures
            final(self).wf(),
            (final(self)@, r.0, r.1) == resolve_spec(
                old(self)@,
                replaces_id,
                app_name@,
                opt_str(stack_tag),
                fresh,
            ),
    {
        let ghost v = self@;
        let owned_replace = replaces_id != 0 && self.owns_wire(replaces_id, app_name);
        let stacked = match stack_tag {
            Some(tag) => self.stack_slot(app_name, tag),
            None => None,
        };
        let (guid, wire_id) = if owned_replace {
            match self.wire_guid(replaces_id) {
                Some(g) => (g, replaces_id),
                None => (fresh, replaces_id),
            }
        } else if let Some(g) = stacked {
            (g, self.next_wire_id())
        } else {
            (fresh, self.next_wire_id())
        };
        self.record_wire(wire_id, guid, app_name);
        if let Some(tag) = stack_tag {
            self.record_stack(app_name, tag, guid);
        }
        proof {
            let (v2, g2, w2) = resolve_spec(v, replaces_id, app_name@, opt_str(stack_tag), fresh);
            assert(guid == g2 && wire_id == w2);
            assert(self@.wires =~= v2.wires);
            assert(self@.stacks =~= v2.stacks);
        }
        (guid, wire_id)
    }

    /// Resolves the identity and wire id for an incoming `Notify`: as [`Self::resolve_with`]
    /// with a freshly generated identity.
    pub fn resolve(&mut self, replaces_id: u32, app_name: &str, stack_tag: Option<&str>) -> (r: (
        NotificationId,
        u32,
    ))
        requires
            old(self).wf(),
        ensures
            final(self).wf(),
            exists|fresh: NotificationId|
                (final(self)@, r.0, r.1) == resolve_spec(
                    old(self)@,
                    replaces_id,
                    app_name@,
                    opt_str(stack_tag),
                    fresh,
                ),
    {
        let fresh = NotificationId::generate();
        self.resolve_with(replaces_id, app_name, stack_tag, fresh)
    }

    /// `CloseNotification(wire_id)`: forgets the wire id and yields the identity it named.
    pub fn close(&mut self, wire_id: u32) -> (r: Option<NotificationId>)
        requires
            old(self).wf(),
        ensures
            final(self).wf(),
            (final(self)@, r) == close_spec(old(self)@, wire_id),
    {
        let removed = self.wires.remove(&wire_id);
        proof {
            let v = old(self)@;
            if v.wires.contains_key(wire_id) {
                assert(self@.wires =~= v.wires.remove(wire_id));
            } else {
                assert(self@.wires =~= v.wires);
            }
        }
        match removed {
            Some(slot) => Some(slot.guid),
            None => None,
        }
    }
}

} // verus!
