//! The stored form of a notification: its facets verbatim, its dispatch through a stored
//! source whose action purposes are kept as strings; and the expiry deadline a stored row
//! carries.
use vstd::prelude::*;
use crate::hints::Variant;
use crate::model::{
    Actions, Alert, Classification, Content, FreedesktopDispatch, GtkAction, GtkDispatch, Image,
    Lifecycle, NotificationId, NotificationSource, Origin, PortalAction, PortalDispatch,
    Presentation, Timeout,
};
use crate::notification::{Notification, NotificationView};
use crate::portal_backend::purpose_of;
use crate::text::owned;
use crate::types::{ButtonPurpose, ClosedReason, known_purpose, purpose_str};

verus! {

/// A stored action: its name, target, and (portal) purpose string.
pub struct StoredAction {
    /// The action name.
    pub name: String,
    /// The action's parameter.
    pub target: Option<Variant>,
    /// The purpose string (portal only).
    pub purpose: Option<String>,
}

/// The stored freedesktop dispatch.
pub struct StoredFdoDispatch {
    /// The wire id.
    pub wire_id: u32,
    /// The session bus GUID it was created under.
    pub session_id: String,
    /// The owning connection, restored as-is.
    pub owner: Option<String>,
}

/// The stored GTK dispatch.
pub struct StoredGtkDispatch {
    /// The application id.
    pub app_id: String,
    /// The app-chosen notification id.
    pub gtk_id: String,
    /// The default action.
    pub default_action: Option<StoredAction>,
    /// The button actions.
    pub button_actions: Vec<StoredAction>,
}

/// The stored portal dispatch.
pub struct StoredPortalDispatch {
    /// The application id.
    pub app_id: String,
    /// The app-chosen notification id.
    pub portal_id: String,
    /// The default action.
    pub default_action: Option<StoredAction>,
    /// The button actions.
    pub button_actions: Vec<StoredAction>,
    /// The inline-reply action.
    pub reply_action: Option<StoredAction>,
}

/// The stored form of a notification's dispatch: a kind tag and that kind's data.
pub struct StoredSource {
    /// `"fdo"`, `"gtk"` or `"portal"`.
    pub kind: String,
    /// The freedesktop data.
    pub fdo: Option<StoredFdoDispatch>,
    /// The GTK data.
    pub gtk: Option<StoredGtkDispatch>,
    /// The portal data.
    pub portal: Option<StoredPortalDispatch>,
}

/// The stored form of a notification.
pub struct StoredNotification {
    /// The identity.
    pub id: NotificationId,
    /// When it was received, in milliseconds since the Unix epoch.
    pub received_ms: i64,
    /// Why it left the screen.
    pub close_reason: Option<ClosedReason>,
    /// The sending application.
    pub origin: Origin,
    /// The renderable text.
    pub content: Content,
    /// Large content image.
    pub image: Option<Image>,
    /// The interaction surface.
    pub actions: Actions,
    /// Audio-feedback intent.
    pub alert: Alert,
    /// Priority, category and behavior axes.
    pub classification: Classification,
    /// Timeout policy + manual-dismiss lock.
    pub lifecycle: Lifecycle,
    /// Routing, lock-screen privacy, re-alert.
    pub presentation: Presentation,
    /// The dispatch.
    pub dispatch: StoredSource,
}

/// A GTK action as stored (it has no purpose).
pub open spec fn stored_gtk(a: GtkAction) -> StoredAction {
    StoredAction { name: a.name, target: a.target, purpose: None }
}

/// A portal action as stored: its purpose as its string form.
pub open spec fn stored_portal_ok(a: PortalAction, s: StoredAction) -> bool {
    s.name == a.name && s.target == a.target && match a.purpose {
        Some(p) => s.purpose matches Some(x) && x@ == purpose_str(p),
        None => s.purpose is None,
    }
}

/// A stored portal action restored: its purpose string parsed back.
pub open spec fn restored_portal_ok(s: StoredAction, a: PortalAction) -> bool {
    a.name == s.name && a.target == s.target && purpose_of(s.purpose, a.purpose)
}

/// Stores a GTK action.
pub fn stored_action(action: GtkAction) -> (r: StoredAction)
    ensures
        r == stored_gtk(action),
{
    StoredAction { name: action.name, target: action.target, purpose: None }
}

/// Restores a GTK action.
pub fn gtk_action_from_stored(stored: StoredAction) -> (r: GtkAction)
    ensures
        r.name == stored.name,
        r.target == stored.target,
{
    GtkAction { name: stored.name, target: stored.target }
}

/// Stores a portal action.
pub fn stored_portal_action(action: PortalAction) -> (r: StoredAction)
    ensures
        stored_portal_ok(action, r),
{
    let purpose = match &action.purpose {
        Some(p) => Some(owned(p.as_str())),
        None => None,
    };
    StoredAction { name: action.name, target: action.target, purpose }
}

/// Restores a portal action.
pub fn portal_action_from_stored(stored: StoredAction) -> (r: PortalAction)
    ensures
        restored_portal_ok(stored, r),
{
    let purpose = match &stored.purpose {
        Some(p) => Some(ButtonPurpose::parse(p.as_str())),
        None => None,
    };
    PortalAction { name: stored.name, target: stored.target, purpose }
}

/// Stores an optional GTK action.
fn stored_opt(action: Option<GtkAction>) -> (r: Option<StoredAction>)
    ensures
        r == match action {
            Some(a) => Some(stored_gtk(a)),
            None => None,
        },
{
    match action {
        Some(a) => Some(stored_action(a)),
        None => None,
    }
}

/// Stores an optional portal action.
fn stored_portal_opt(action: Option<PortalAction>) -> (r: Option<StoredAction>)
    ensures
        match action {
            Some(a) => r matches Some(s) && stored_portal_ok(a, s),
            None => r is None,
        },
{
    match action {
        Some(a) => Some(stored_portal_action(a)),
        None => None,
    }
}

/// Stores each GTK action, in order.
fn stored_gtk_all(actions: Vec<GtkAction>) -> (r: Vec<StoredAction>)
    ensures
        r@ == actions@.map_values(|a: GtkAction| stored_gtk(a)),
{
    let ghost orig = actions@;
    let mut rest = actions;
    let mut out: Vec<StoredAction> = Vec::new();
    let ghost mut i: int = 0;
    while rest.len() > 0
        invariant
            0 <= i <= orig.len(),
            rest@ == orig.skip(i),
            out@ == orig.take(i).map_values(|a: GtkAction| stored_gtk(a)),
        decreases rest@.len(),
    {
        let a = rest.remove(0);
        proof {
            assert(a == orig[i]);
            assert(rest@ =~= orig.skip(i + 1));
        }
        out.push(stored_action(a));
        proof {
            assert(out@ =~= orig.take(i + 1).map_values(|a: GtkAction| stored_gtk(a)));
            i = i + 1;
        }
    }
    proof {
        assert(orig.take(i) =~= orig);
    }
    out
}

/// Stores each portal action, in order.
fn stored_portal_all(actions: Vec<PortalAction>) -> (r: Vec<StoredAction>)
    ensures
        r@.len() == actions@.len(),
        forall|i: int| 0 <= i < r@.len() ==> stored_portal_ok(actions@[i], #[trigger] r@[i]),
{
    let ghost orig = actions@;
    let mut rest = actions;
    let mut out: Vec<StoredAction> = Vec::new();
    let ghost mut i: int = 0;
    while rest.len() > 0
        invariant
            0 <= i <= orig.len(),
            rest@ == orig.skip(i),
            out@.len() == i,
            forall|j: int| 0 <= j < i ==> stored_portal_ok(orig[j], #[trigger] out@[j]),
        decreases rest@.len(),
    {
        let a = rest.remove(0);
        proof {
            assert(a == orig[i]);
            assert(rest@ =~= orig.skip(i + 1));
        }
        out.push(stored_portal_action(a));
        proof {
            i = i + 1;
        }
    }
    out
}

/// Restores each GTK action, in order.
fn gtk_all(stored: Vec<StoredAction>) -> (r: Vec<GtkAction>)
    ensures
        r@.len() == stored@.len(),
        forall|i: int| 0 <= i < r@.len() ==> (#[trigger] r@[i]).name == stored@[i].name && r@[i].target == stored@[i].target,
{
    let ghost orig = stored@;
    let mut rest = stored;
    let mut out: Vec<GtkAction> = Vec::new();
    let ghost mut i: int = 0;
    while rest.len() > 0
        invariant
            0 <= i <= orig.len(),
            rest@ == orig.skip(i),
            out@.len() == i,
            forall|j: int| 0 <= j < i ==> (#[trigger] out@[j]).name == orig[j].name && out@[j].target == orig[j].target,
        decreases rest@.len(),
    {
        let a = rest.remove(0);
        proof {
            assert(a == orig[i]);
            assert(rest@ =~= orig.skip(i + 1));
        }
        out.push(gtk_action_from_stored(a));
        proof {
            i = i + 1;
        }
    }
    out
}

/// Restores each portal action, in order.
fn portal_all(stored: Vec<StoredAction>) -> (r: Vec<PortalAction>)
    ensures
        r@.len() == stored@.len(),
        forall|i: int| 0 <= i < r@.len() ==> restored_portal_ok(stored@[i], #[trigger] r@[i]),
{
    let ghost orig = stored@;
    let mut rest = stored;
    let mut out: Vec<PortalAction> = Vec::new();
    let ghost mut i: int = 0;
    while rest.len() > 0
        invariant
            0 <= i <= orig.len(),
            rest@ == orig.skip(i),
            out@.len() == i,
            forall|j: int| 0 <= j < i ==> restored_portal_ok(orig[j], #[trigger] out@[j]),
        decreases rest@.len(),
    {
        let a = rest.remove(0);
        proof {
            assert(a == orig[i]);
            assert(rest@ =~= orig.skip(i + 1));
        }
        out.push(portal_action_from_stored(a));
        proof {
            i = i + 1;
        }
    }
    out
}

/// `st` is the stored form of `s`.
pub open spec fn stored_ok(s: NotificationSource, st: StoredSource) -> bool {
    match s {
        NotificationSource::Freedesktop(d) => st.kind@ == "fdo"@ && st.gtk is None && st.portal is None
            && (st.fdo matches Some(f) && f.wire_id == d.wire_id && f.session_id == d.session_id
            && f.owner == d.owner),
        NotificationSource::Gtk(d) => st.kind@ == "gtk"@ && st.fdo is None && st.portal is None
            && (st.gtk matches Some(g) && g.app_id == d.app_id && g.gtk_id == d.gtk_id
            && g.default_action == match d.default_action {
                Some(a) => Some(stored_gtk(a)),
                None => None,
            } && g.button_actions@ == d.button_actions@.map_values(|a: GtkAction| stored_gtk(a))),
        NotificationSource::Portal(d) => st.kind@ == "portal"@ && st.fdo is None && st.gtk is None
            && (st.portal matches Some(p) && p.app_id == d.app_id && p.portal_id == d.portal_id
            && match d.default_action {
                Some(a) => p.default_action matches Some(x) && stored_portal_ok(a, x),
                None => p.default_action is None,
            } && match d.reply_action {
                Some(a) => p.reply_action matches Some(x) && stored_portal_ok(a, x),
                None => p.reply_action is None,
            } && p.button_actions@.len() == d.button_actions@.len() && forall|i: int|
                0 <= i < p.button_actions@.len() ==> stored_portal_ok(
                    d.button_actions@[i],
                    #[trigger] p.button_actions@[i],
                )),
    }
}

/// Stores a notification's dispatch.
pub fn stored_source(source: NotificationSource) -> (r: StoredSource)
    ensures
        stored_ok(source, r),
{
    match source {
        NotificationSource::Freedesktop(d) => StoredSource {
            kind: owned("fdo"),
            fdo: Some(StoredFdoDispatch { wire_id: d.wire_id, session_id: d.session_id, owner: d.owner }),
            gtk: None,
            portal: None,
        },
        NotificationSource::Gtk(d) => StoredSource {
            kind: owned("gtk"),
            fdo: None,
            gtk: Some(
                StoredGtkDispatch {
                    app_id: d.app_id,
                    gtk_id: d.gtk_id,
                    default_action: stored_opt(d.default_action),
                    button_actions: stored_gtk_all(d.button_actions),
                },
            ),
            portal: None,
        },
        NotificationSource::Portal(d) => StoredSource {
            kind: owned("portal"),
            fdo: None,
            gtk: None,
            portal: Some(
                StoredPortalDispatch {
                    app_id: d.app_id,
                    portal_id: d.portal_id,
                    default_action: stored_portal_opt(d.default_action),
                    button_actions: stored_portal_all(d.button_actions),
                    reply_action: stored_portal_opt(d.reply_action),
                },
            ),
        },
    }
}

/// `s` is what a stored source restores to: a `gtk` kind with GTK data and a `portal` kind
/// with portal data restore as such; anything else (freedesktop, or a legacy or unknown
/// row) restores as freedesktop from its freedesktop data, or an inert default without it.
pub open spec fn restored_ok(st: StoredSource, s: NotificationSource) -> bool {
    if st.kind@ == "gtk"@ && st.gtk is Some {
        let g = st.gtk.unwrap();
        s matches NotificationSource::Gtk(d) && d.app_id == g.app_id && d.gtk_id == g.gtk_id
            && match g.default_action {
            Some(a) => d.default_action matches Some(x) && x.name == a.name && x.target == a.target,
            None => d.default_action is None,
        } && d.button_actions@.len() == g.button_actions@.len() && forall|i: int|
            0 <= i < d.button_actions@.len() ==> (#[trigger] d.button_actions@[i]).name
                == g.button_actions@[i].name && d.button_actions@[i].target
                == g.button_actions@[i].target
    } else if st.kind@ == "portal"@ && st.portal is Some {
        let p = st.portal.unwrap();
        s matches NotificationSource::Portal(d) && d.app_id == p.app_id && d.portal_id == p.portal_id
            && match p.default_action {
            Some(a) => d.default_action matches Some(x) && restored_portal_ok(a, x),
            None => d.default_action is None,
        } && match p.reply_action {
            Some(a) => d.reply_action matches Some(x) && restored_portal_ok(a, x),
            None => d.reply_action is None,
        } && d.button_actions@.len() == p.button_actions@.len() && forall|i: int|
            0 <= i < d.button_actions@.len() ==> restored_portal_ok(
                p.button_actions@[i],
                #[trigger] d.button_actions@[i],
            )
    } else {
        s matches NotificationSource::Freedesktop(d) && match st.fdo {
            Some(f) => d.wire_id == f.wire_id && d.session_id == f.session_id && d.owner == f.owner,
            None => d.wire_id == 0 && d.session_id@ == Seq::<char>::empty() && d.owner is None,
        }
    }
}

/// Restores a notification's dispatch (see [`restored_ok`]).
pub fn source_from_stored(stored: StoredSource) -> (r: NotificationSource)
    ensures
        restored_ok(stored, r),
{
    let is_gtk = crate::text::str_eq(stored.kind.as_str(), "gtk");
    let is_portal = crate::text::str_eq(stored.kind.as_str(), "portal");
    let StoredSource { kind, fdo, gtk, portal } = stored;
    if is_gtk {
        if let Some(g) = gtk {
            let default_action = match g.default_action {
                Some(a) => Some(gtk_action_from_stored(a)),
                None => None,
            };
            return NotificationSource::Gtk(
                GtkDispatch {
                    app_id: g.app_id,
                    gtk_id: g.gtk_id,
                    default_action,
                    button_actions: gtk_all(g.button_actions),
                },
            );
        }
    }
    if is_portal {
        if let Some(p) = portal {
            let default_action = match p.default_action {
                Some(a) => Some(portal_action_from_stored(a)),
                None => None,
            };
            let reply_action = match p.reply_action {
                Some(a) => Some(portal_action_from_stored(a)),
                None => None,
            };
            return NotificationSource::Portal(
                PortalDispatch {
                    app_id: p.app_id,
                    portal_id: p.portal_id,
                    default_action,
                    button_actions: portal_all(p.button_actions),
                    reply_action,
                },
            );
        }
    }
    match fdo {
        Some(f) => NotificationSource::Freedesktop(
            FreedesktopDispatch { wire_id: f.wire_id, session_id: f.session_id, owner: f.owner },
        ),
        None => NotificationSource::Freedesktop(
            FreedesktopDispatch { wire_id: 0, session_id: String::new(), owner: None },
        ),
    }
}

/// A purpose survives being stored and parsed back: a known purpose exactly; any other as
/// the same string, unless that string spells a known purpose, which it then becomes.
pub open spec fn purpose_survives(p: Option<ButtonPurpose>, q: Option<ButtonPurpose>) -> bool {
    match p {
        None => q is None,
        Some(ButtonPurpose::Other(s)) => match known_purpose(s@) {
            Some(k) => q == Some(k),
            None => q matches Some(ButtonPurpose::Other(t)) && t@ == s@,
        },
        Some(k) => q == Some(k),
    }
}

/// Storing and parsing back a portal action keeps its name, its target and its purpose.
pub proof fn lemma_portal_action_round_trip(a: PortalAction, s: StoredAction, b: PortalAction)
    requires
        stored_portal_ok(a, s),
        restored_portal_ok(s, b),
    ensures
        b.name == a.name,
        b.target == a.target,
        purpose_survives(a.purpose, b.purpose),
{
    match a.purpose {
        Some(p) => {
            if !(p is Other) {
                crate::types::law_known_purpose_round_trip(p);
            }
        },
        None => {},
    }
}

/// `r` is `s` back: the same protocol, the same identifying data and owner, and the same
/// actions (names, targets, and purposes as [`purpose_survives`] says).
pub open spec fn source_survives(s: NotificationSource, r: NotificationSource) -> bool {
    match s {
        NotificationSource::Freedesktop(d) => r == NotificationSource::Freedesktop(d),
        NotificationSource::Gtk(d) => r matches NotificationSource::Gtk(e) && e.app_id == d.app_id
            && e.gtk_id == d.gtk_id && e.default_action == d.default_action
            && e.button_actions@ == d.button_actions@,
        NotificationSource::Portal(d) => r matches NotificationSource::Portal(e) && e.app_id == d.app_id
            && e.portal_id == d.portal_id && e.button_actions@.len() == d.button_actions@.len()
            && (forall|i: int| 0 <= i < e.button_actions@.len() ==> (#[trigger] e.button_actions@[i]).name
                == d.button_actions@[i].name && e.button_actions@[i].target == d.button_actions@[i].target
                && purpose_survives(d.button_actions@[i].purpose, e.button_actions@[i].purpose))
            && match d.default_action {
                Some(a) => e.default_action matches Some(b) && b.name == a.name && b.target == a.target
                    && purpose_survives(a.purpose, b.purpose),
                None => e.default_action is None,
            } && match d.reply_action {
                Some(a) => e.reply_action matches Some(b) && b.name == a.name && b.target == a.target
                    && purpose_survives(a.purpose, b.purpose),
                None => e.reply_action is None,
            },
    }
}

/// A notification's dispatch survives the store: restoring what was stored gives back the
/// same protocol, the same identifying data and owner, and the same actions (names, targets
/// and purposes as [`purpose_survives`] says).
pub proof fn law_source_round_trip(s: NotificationSource, st: StoredSource, r: NotificationSource)
    requires
        stored_ok(s, st),
        restored_ok(st, r),
    ensures
        source_survives(s, r),
{
    reveal_strlit("fdo");
    reveal_strlit("gtk");
    reveal_strlit("portal");
    assert("fdo"@.len() == 3 && "gtk"@.len() == 3 && "portal"@.len() == 6);
    assert("fdo"@[0] != "gtk"@[0]);
    match s {
        NotificationSource::Freedesktop(d) => {},
        NotificationSource::Gtk(d) => {
            let g = st.gtk.unwrap();
            if let NotificationSource::Gtk(e) = r {
                assert(e.button_actions@ =~= d.button_actions@) by {
                    assert forall|i: int| 0 <= i < e.button_actions@.len() implies e.button_actions@[i] == d.button_actions@[i] by {
                        assert(g.button_actions@[i] == stored_gtk(d.button_actions@[i]));
                    }
                }
            }
        },
        NotificationSource::Portal(d) => {
            let p = st.portal.unwrap();
            if let NotificationSource::Portal(e) = r {
                assert forall|i: int| 0 <= i < e.button_actions@.len() implies (#[trigger] e.button_actions@[i]).name
                    == d.button_actions@[i].name && e.button_actions@[i].target == d.button_actions@[i].target
                    && purpose_survives(d.button_actions@[i].purpose, e.button_actions@[i].purpose) by {
                    lemma_portal_action_round_trip(d.button_actions@[i], p.button_actions@[i], e.button_actions@[i]);
                }
                if let Some(a) = d.default_action {
                    lemma_portal_action_round_trip(a, p.default_action.unwrap(), e.default_action.unwrap());
                }
                if let Some(a) = d.reply_action {
                    lemma_portal_action_round_trip(a, p.reply_action.unwrap(), e.reply_action.unwrap());
                }
            }
        },
    }
}

/// The absolute deadline of a stored row: only a finite timeout expires, at the reception
/// time plus the timeout.
pub open spec fn expires_at_spec(received_ms: i64, timeout: Timeout) -> Option<int> {
    match timeout {
        Timeout::After(ttl) => Some(received_ms + (ttl as i64)),
        _ => None,
    }
}

/// The deadline of a stored row (see [`expires_at_spec`]).
pub fn expires_at(received_ms: i64, timeout: Timeout) -> (r: Option<i64>)
    requires
        timeout matches Timeout::After(ttl) ==> i64::MIN <= received_ms + (ttl as i64) <= i64::MAX,
    ensures
        match expires_at_spec(received_ms, timeout) {
            Some(t) => r == Some(t as i64),
            None => r is None,
        },
{
    match timeout {
        Timeout::After(ttl) => {
            let t: i64 = ttl as i64;
            Some(received_ms + t)
        },
        _ => None,
    }
}

/// Whether a stored row survives a load at `now_ms`: reaping only with `remove_expired`, and
/// then only a deadline that has passed.
pub open spec fn survives_load(expires_at: Option<i64>, now_ms: i64, remove_expired: bool) -> bool {
    !remove_expired || match expires_at {
        Some(t) => t > now_ms,
        None => true,
    }
}

/// Whether a stored row survives a load (see [`survives_load`]).
pub fn keep_on_load(expires_at: Option<i64>, now_ms: i64, remove_expired: bool) -> (r: bool)
    ensures
        r == survives_load(expires_at, now_ms, remove_expired),
{
    if !remove_expired {
        return true;
    }
    match expires_at {
        Some(t) => t > now_ms,
        None => true,
    }
}

/// `st` is the stored form of `n`: its identity, facets, reception time and close reason as
/// they are, its dispatch stored (see [`stored_ok`]).
pub open spec fn stored_notification_ok(n: Notification, st: StoredNotification) -> bool {
    &&& st.id == n.id
    &&& st.received_ms == n.view.received
    &&& st.close_reason == n.view.close_reason
    &&& st.origin == n.view.origin
    &&& st.content == n.view.content
    &&& st.image == n.view.image
    &&& st.actions == n.view.actions
    &&& st.alert == n.view.alert
    &&& st.classification == n.view.classification
    &&& st.lifecycle == n.view.lifecycle
    &&& st.presentation == n.view.presentation
    &&& stored_ok(n.dispatch, st.dispatch)
}

/// `r` is the notification rebuilt from `st`: the facets as stored, the dispatch restored
/// (see [`restored_ok`]).
pub open spec fn restored_notification_ok(st: StoredNotification, r: Notification) -> bool {
    &&& r.id == st.id
    &&& r.view == (NotificationView {
        origin: st.origin,
        content: st.content,
        image: st.image,
        actions: st.actions,
        alert: st.alert,
        classification: st.classification,
        lifecycle: st.lifecycle,
        presentation: st.presentation,
        received: st.received_ms,
        close_reason: st.close_reason,
    })
    &&& restored_ok(st.dispatch, r.dispatch)
}

/// The stored form of a notification.
pub fn to_stored(n: Notification) -> (r: StoredNotification)
    ensures
        stored_notification_ok(n, r),
{
    let v = n.view;
    StoredNotification {
        id: n.id,
        received_ms: v.received,
        close_reason: v.close_reason,
        origin: v.origin,
        content: v.content,
        image: v.image,
        actions: v.actions,
        alert: v.alert,
        classification: v.classification,
        lifecycle: v.lifecycle,
        presentation: v.presentation,
        dispatch: stored_source(n.dispatch),
    }
}

/// Rebuilds a notification from its stored form: the facets as stored, the dispatch
/// restored (the owner as-is; a prior session's is cleared afterwards).
pub fn from_stored(stored: StoredNotification) -> (r: Notification)
    ensures
        restored_notification_ok(stored, r),
{
    Notification {
        id: stored.id,
        view: NotificationView {
            origin: stored.origin,
            content: stored.content,
            image: stored.image,
            actions: stored.actions,
            alert: stored.alert,
            classification: stored.classification,
            lifecycle: stored.lifecycle,
            presentation: stored.presentation,
            received: stored.received_ms,
            close_reason: stored.close_reason,
        },
        dispatch: source_from_stored(stored.dispatch),
    }
}

/// A notification survives the store: rebuilding what was stored gives back its identity,
/// its whole view (reception time and close reason included) and its dispatch (see
/// [`source_survives`]).
pub proof fn law_notification_round_trip(n: Notification, st: StoredNotification, r: Notification)
    requires
        stored_notification_ok(n, st),
        restored_notification_ok(st, r),
    ensures
        r.id == n.id,
        r.view == n.view,
        source_survives(n.dispatch, r.dispatch),
{
    law_source_round_trip(n.dispatch, st.dispatch, r.dispatch);
}

} // verus!
