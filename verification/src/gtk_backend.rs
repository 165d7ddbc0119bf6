//! `org.gtk.Notifications`: the identities apps address by `(app_id, notification_id)`, and
//! the translation of a serialized `GNotification` into the model.
use vstd::prelude::*;
use crate::gvariant::{ParsedButton, buttons_value, opt_string_value, parse_buttons, take};
use crate::hints::{Variant, Vardict, as_string, get, lookup, owned_string, peel};
use crate::model::{
    Action, ActionId, Actions, Alert, Body, Classification, Content, DesktopEntryId, GtkAction,
    GtkDispatch, Image, Lifecycle, NotificationId, NotificationProps, NotificationSource, Origin,
    Presentation, Timeout, action_pairs, default_key, opt_body_view,
};
use crate::slot_map::SlotMap;
use crate::text::{opt_view, owned};
use crate::fdo_server::{blocked, is_blocked};
use crate::notification::{Notification, NotificationEvent};
use crate::types::ClosedReason;
use crate::types::{Priority, priority_of_str};

verus! {

/// The `(app_id, id)` → identity map of an app-keyed backend (GTK or portal), so a re-send
/// with the same key replaces in place and a withdrawal finds the identity.
pub struct KeyRegistry {
    keys: SlotMap,
}

impl View for KeyRegistry {
    type V = Map<(Seq<char>, Seq<char>), NotificationId>;

    closed spec fn view(&self) -> Map<(Seq<char>, Seq<char>), NotificationId> {
        self.keys@
    }
}

impl KeyRegistry {
    /// Internal consistency.
    pub closed spec fn wf(&self) -> bool {
        self.keys.wf()
    }

    /// No keys.
    pub fn new() -> (r: KeyRegistry)
        ensures
            r.wf(),
            r@ == Map::<(Seq<char>, Seq<char>), NotificationId>::empty(),
    {
        KeyRegistry { keys: SlotMap::new() }
    }

    /// Records the identity of a restored notification.
    pub fn seed(&mut self, app_id: &str, id: &str, guid: NotificationId)
        requires
            old(self).wf(),
        ensures
            final(self).wf(),
            final(self)@ == old(self)@.insert((app_id@, id@), guid),
    {
        self.keys.insert(app_id, id, guid);
    }

    /// The identity for a key: the existing one (so a re-send replaces in place), else `fresh`,
    /// which is recorded.
    pub fn resolve_id_with(&mut self, app_id: &str, id: &str, fresh: NotificationId) -> (r:
        NotificationId)
        requires
            old(self).wf(),
        ensures
            final(self).wf(),
            old(self)@.contains_key((app_id@, id@)) ==> r == old(self)@[(app_id@, id@)]
                && final(self)@ == old(self)@,
            !old(self)@.contains_key((app_id@, id@)) ==> r == fresh && final(self)@ == old(
                self,
            )@.insert((app_id@, id@), fresh),
    {
        match self.keys.get(app_id, id) {
            Some(existing) => existing,
            None => {
                self.keys.insert(app_id, id, fresh);
                fresh
            },
        }
    }

    /// The identity for a key, generating a fresh one for a new key.
    pub fn resolve_id(&mut self, app_id: &str, id: &str) -> (r: NotificationId)
        requires
            old(self).wf(),
        ensures
            final(self).wf(),
            old(self)@.contains_key((app_id@, id@)) ==> r == old(self)@[(app_id@, id@)]
                && final(self)@ == old(self)@,
            !old(self)@.contains_key((app_id@, id@)) ==> final(self)@ == old(self)@.insert(
                (app_id@, id@),
                r,
            ),
    {
        let fresh = NotificationId::generate();
        self.resolve_id_with(app_id, id, fresh)
    }

    /// Withdraws a key, yielding the identity it named.
    pub fn take_id(&mut self, app_id: &str, id: &str) -> (r: Option<NotificationId>)
        requires
            old(self).wf(),
        ensures
            final(self).wf(),
            r == (if old(self)@.contains_key((app_id@, id@)) {
                Some(old(self)@[(app_id@, id@)])
            } else {
                None
            }),
            final(self)@ == old(self)@.remove((app_id@, id@)),
    {
        self.keys.remove(app_id, id)
    }
}

/// A re-send with the same key keeps the identity of the notification it replaces.
pub proof fn law_resend_keeps_identity(
    m: Map<(Seq<char>, Seq<char>), NotificationId>,
    key: (Seq<char>, Seq<char>),
    fresh1: NotificationId,
    fresh2: NotificationId,
)
    ensures
        ({
            let (m1, id1) = if m.contains_key(key) {
                (m, m[key])
            } else {
                (m.insert(key, fresh1), fresh1)
            };
            let id2 = if m1.contains_key(key) {
                m1[key]
            } else {
                fresh2
            };
            id2 == id1
        }),
{
}

/// The GTK action table of the buttons: one action per non-reserved button, latest first, so
/// the first action of a name is the one the last button of that name declared.
pub open spec fn gtk_table(bs: Seq<ParsedButton>) -> Seq<GtkAction>
    decreases bs.len(),
{
    if bs.len() == 0 {
        Seq::empty()
    } else if bs.last().action@ == default_key() {
        gtk_table(bs.drop_last())
    } else {
        seq![GtkAction { name: bs.last().action, target: bs.last().target }] + gtk_table(
            bs.drop_last(),
        )
    }
}

/// The displayed `(id, label)` of the buttons: every non-reserved button, in order.
pub open spec fn shown_buttons(bs: Seq<ParsedButton>) -> Seq<(Seq<char>, Seq<char>)>
    decreases bs.len(),
{
    if bs.len() == 0 {
        Seq::empty()
    } else if bs.last().action@ == default_key() {
        shown_buttons(bs.drop_last())
    } else {
        shown_buttons(bs.drop_last()).push((bs.last().action@, bs.last().label@))
    }
}

/// The GNotification priority: the `priority` string, else `Urgent` for a true legacy
/// `urgent` flag, else `Normal`.
pub open spec fn gtk_priority(map: Seq<(String, Variant)>) -> Priority {
    match as_string_at(map, "priority"@) {
        Some(p) => priority_of_str(p),
        None => match lookup(map, "urgent"@) {
            Some(v) => if peel(v) == Variant::Bool(true) {
                Priority::Urgent
            } else {
                Priority::Normal
            },
            None => Priority::Normal,
        },
    }
}

/// The string at `key`, after peeling one variant layer.
pub open spec fn as_string_at(map: Seq<(String, Variant)>, key: Seq<char>) -> Option<Seq<char>> {
    match lookup(map, key) {
        Some(v) => as_string(v),
        None => None,
    }
}

/// `d` holds the `default-action` (and its target) of `map`.
pub open spec fn gtk_default_of(map: Seq<(String, Variant)>, d: Option<GtkAction>) -> bool {
    match as_string_at(map, "default-action"@) {
        Some(name) => d matches Some(a) && a.name@ == name && a.target == lookup(
            map,
            "default-action-target"@,
        ),
        None => d is None,
    }
}

/// Whether `flag` is a true `b` (after peeling one variant layer).
fn is_true(flag: Option<&Variant>) -> (r: bool)
    ensures
        r == match flag {
            Some(v) => peel(*v) == Variant::Bool(true),
            None => false,
        },
{
    match flag {
        Some(Variant::Bool(b)) => *b,
        Some(Variant::Value(inner)) => match &**inner {
            Variant::Bool(b) => *b,
            _ => false,
        },
        _ => false,
    }
}

/// Builds the table and the displayed buttons.
fn gtk_buttons(bs: Vec<ParsedButton>) -> (r: (Vec<GtkAction>, Vec<Action>))
    ensures
        r.0@ == gtk_table(bs@),
        action_pairs(r.1@) == shown_buttons(bs@),
        forall|i: int| 0 <= i < r.1@.len() ==> (#[trigger] r.1@[i]).purpose is None,
{
    let ghost orig = bs@;
    let mut rest = bs;
    let mut table: Vec<GtkAction> = Vec::new();
    let mut shown: Vec<Action> = Vec::new();
    let ghost mut i: int = 0;
    while rest.len() > 0
        invariant
            0 <= i <= orig.len(),
            rest@ == orig.skip(i),
            table@ == gtk_table(orig.take(i)),
            action_pairs(shown@) == shown_buttons(orig.take(i)),
            forall|j: int| 0 <= j < shown@.len() ==> (#[trigger] shown@[j]).purpose is None,
        decreases rest@.len(),
    {
        let b = rest.remove(0);
        proof {
            assert(orig.take(i + 1).drop_last() =~= orig.take(i));
            assert(orig.take(i + 1).last() == orig[i]);
            assert(b == orig[i]);
            assert(rest@ =~= orig.skip(i + 1));
        }
        match ActionId::new(b.action.as_str()) {
            Ok(id) => {
                let ghost before = shown@;
                shown.push(Action { id, label: b.label, purpose: None });
                table.insert(0, GtkAction { name: b.action, target: b.target });
                proof {
                    assert(action_pairs(shown@) =~= action_pairs(before).push(
                        (orig[i].action@, orig[i].label@),
                    ));
                    assert(table@ =~= seq![GtkAction { name: orig[i].action, target: orig[i].target }]
                        + gtk_table(orig.take(i)));
                }
            },
            Err(_) => {},
        }
        proof {
            i = i + 1;
        }
    }
    proof {
        assert(orig.take(i) =~= orig);
    }
    (table, shown)
}

/// `r` is the translation of the GNotification `map` sent by `app_id` under `gtk_id`, with
/// identity `id`, received at `timestamp`, displayed under `app_name` with the app icon `icon`.
pub open spec fn gtk_props_ok(
    id: NotificationId,
    timestamp: i64,
    app_id: Seq<char>,
    gtk_id: Seq<char>,
    app_name: Seq<char>,
    map: Seq<(String, Variant)>,
    icon: Option<Image>,
    r: NotificationProps,
) -> bool {
    &&& r.id == id
    &&& r.timestamp == timestamp
    &&& r.dispatch matches NotificationSource::Gtk(d) && d.app_id@ == app_id && d.gtk_id@
        == gtk_id && gtk_default_of(map, d.default_action) && d.button_actions@ == gtk_table(
        buttons_value(lookup(map, "buttons"@)),
    )
    &&& opt_view(r.origin.name) == Some(app_name)
    &&& r.origin.origin_name is None
    &&& r.origin.desktop_entry matches Some(e) && e@ == app_id
    &&& r.origin.icon == icon
    &&& r.content.summary@ == match as_string_at(map, "title"@) {
        Some(t) => t,
        None => Seq::<char>::empty(),
    }
    &&& opt_body_view(r.content.body) == match as_string_at(map, "body"@) {
        Some(b) => Some((false, b)),
        None => None,
    }
    &&& r.content.progress is None
    &&& r.image is None
    &&& r.actions.default matches Some(a) && a.id@ == default_key() && a.label@ == Seq::<
        char,
    >::empty() && a.purpose is None
    &&& action_pairs(r.actions.buttons@) == shown_buttons(buttons_value(lookup(map, "buttons"@)))
    &&& forall|i: int|
        0 <= i < r.actions.buttons@.len() ==> (#[trigger] r.actions.buttons@[i]).purpose is None
    &&& r.actions.urls@.len() == 0
    &&& r.actions.reply is None
    &&& !r.actions.action_icons
    &&& r.alert is Unspecified
    &&& r.classification.priority == gtk_priority(map)
    &&& r.classification.category is None
    &&& !r.classification.transient
    &&& !r.classification.resident
    &&& r.classification.stack_tag is None
    &&& r.lifecycle.timeout == Timeout::PersistentByBackend
    &&& !r.lifecycle.locked_open
    &&& r.presentation == Presentation::standard_spec()
}

/// Translates a `GNotification` `a{sv}` into the model. GNotification has no timeout, sound,
/// category or urgency-hint vocabulary; its icon is the app's own icon (resolved by the
/// caller from the `icon` value); every button is displayed and dispatched by name; the body
/// is always clickable (the default action, or raising the app).
pub fn build_props(
    id: NotificationId,
    timestamp: i64,
    app_id: &str,
    gtk_id: &str,
    app_name: String,
    map: Vardict,
    icon: Option<Image>,
) -> (r: NotificationProps)
    ensures
        gtk_props_ok(id, timestamp, app_id@, gtk_id@, app_name@, map@, icon, r),
        r.origin.name == Some(app_name),
{
    let ghost m0 = map@;
    let title = match owned_string(get(map.as_slice(), "title")) {
        Some(t) => t,
        None => String::new(),
    };
    let body = match owned_string(get(map.as_slice(), "body")) {
        Some(b) => Some(Body::Plain(b)),
        None => None,
    };
    let priority = match owned_string(get(map.as_slice(), "priority")) {
        Some(p) => Priority::parse(p.as_str()),
        None => {
            if is_true(get(map.as_slice(), "urgent")) {
                Priority::Urgent
            } else {
                Priority::Normal
            }
        },
    };
    let default_name = owned_string(get(map.as_slice(), "default-action"));
    let mut map = map;
    proof {
        reveal_strlit("buttons");
        reveal_strlit("default-action-target");
        assert("buttons"@.len() == 7 && "default-action-target"@.len() == 21);
    }
    let buttons = take(&mut map, "buttons");
    let default_target = take(&mut map, "default-action-target");
    let (button_actions, shown) = gtk_buttons(parse_buttons(buttons));
    let default_action = match default_name {
        Some(name) => Some(GtkAction { name, target: default_target }),
        None => None,
    };
    NotificationProps {
        id,
        timestamp,
        dispatch: NotificationSource::Gtk(
            GtkDispatch {
                app_id: owned(app_id),
                gtk_id: owned(gtk_id),
                default_action,
                button_actions,
            },
        ),
        origin: Origin {
            name: Some(app_name),
            origin_name: None,
            desktop_entry: Some(DesktopEntryId::new(app_id)),
            icon,
        },
        content: Content { summary: title, body, progress: None },
        image: None,
        actions: Actions {
            default: Some(Action { id: ActionId::default_action(), label: String::new(), purpose: None }),
            buttons: shown,
            urls: Vec::new(),
            reply: None,
            action_icons: false,
        },
        alert: Alert::Unspecified,
        classification: Classification {
            priority,
            category: None,
            transient: false,
            resident: false,
            stack_tag: None,
        },
        lifecycle: Lifecycle { timeout: Timeout::PersistentByBackend, locked_open: false },
        presentation: Presentation::standard(),
    }
}

/// The `(app_id, id)` key of a GTK notification.
pub open spec fn gtk_key(p: Notification) -> Option<(Seq<char>, Seq<char>)> {
    match p.dispatch {
        NotificationSource::Gtk(d) => Some((d.app_id@, d.gtk_id@)),
        _ => None,
    }
}

/// The keys of the restored GTK notifications, a later one winning a shared key.
pub open spec fn restored_gtk_keys(s: Seq<Notification>) -> Map<(Seq<char>, Seq<char>), NotificationId>
    decreases s.len(),
{
    if s.len() == 0 {
        Map::empty()
    } else {
        match gtk_key(s.last()) {
            Some(k) => restored_gtk_keys(s.drop_last()).insert(k, s.last().id),
            None => restored_gtk_keys(s.drop_last()),
        }
    }
}

/// Re-seeds the key map from restored GTK notifications, so an app can still replace or
/// withdraw them across a restart.
pub fn restore_keys(restored: &[Notification]) -> (r: KeyRegistry)
    ensures
        r.wf(),
        r@ == restored_gtk_keys(restored@),
{
    let mut reg = KeyRegistry::new();
    let mut i: usize = 0;
    while i < restored.len()
        invariant
            i <= restored@.len(),
            reg.wf(),
            reg@ == restored_gtk_keys(restored@.take(i as int)),
        decreases restored@.len() - i,
    {
        proof {
            assert(restored@.take(i + 1).drop_last() =~= restored@.take(i as int));
            assert(restored@.take(i + 1).last() == restored@[i as int]);
        }
        if let NotificationSource::Gtk(d) = &restored[i].dispatch {
            reg.seed(d.app_id.as_str(), d.gtk_id.as_str(), restored[i].id);
        }
        i = i + 1;
    }
    proof {
        assert(restored@.take(restored@.len() as int) =~= restored@);
    }
    reg
}

/// The name a notification is displayed and blocklisted under: its app's desktop-file name
/// when one was found, else the app id.
pub open spec fn shown_name(resolved: Option<Seq<char>>, app_id: Seq<char>) -> Seq<char> {
    match resolved {
        Some(n) => n,
        None => app_id,
    }
}

/// The identity a key resolves to, and the key map after: an existing key keeps its
/// identity; a new key gets `fresh`, which is recorded.
pub open spec fn key_resolution(
    keys: Map<(Seq<char>, Seq<char>), NotificationId>,
    key: (Seq<char>, Seq<char>),
    fresh: NotificationId,
) -> (NotificationId, Map<(Seq<char>, Seq<char>), NotificationId>) {
    if keys.contains_key(key) {
        (keys[key], keys)
    } else {
        (fresh, keys.insert(key, fresh))
    }
}

/// What adding a GNotification does (see [`add_notification_with`]): from the keys `before`
/// to the keys `after`, with the result `r`.
pub open spec fn gtk_added(
    before: Map<(Seq<char>, Seq<char>), NotificationId>,
    after: Map<(Seq<char>, Seq<char>), NotificationId>,
    blocklist: Seq<String>,
    timestamp: i64,
    app_id: Seq<char>,
    gtk_id: Seq<char>,
    resolved: Option<Seq<char>>,
    map: Seq<(String, Variant)>,
    icon: Option<Image>,
    fresh: NotificationId,
    r: Option<NotificationProps>,
) -> bool {
    let name = shown_name(resolved, app_id);
    let (guid, keys) = key_resolution(before, (app_id, gtk_id), fresh);
    if blocked(blocklist, name) {
        r is None && after == before
    } else {
        after == keys && (r matches Some(p) && gtk_props_ok(guid, timestamp, app_id, gtk_id, name, map, icon, p))
    }
}

/// `AddNotification(app_id, gtk_id, map)`: dropped (the keys untouched) when the blocklist
/// matches the shown name (`resolved_name`, the desktop-file name, else the app id); otherwise
/// keyed to its identity (an existing key's, else `fresh`) and translated.
pub fn add_notification_with(
    keys: &mut KeyRegistry,
    blocklist: &[String],
    timestamp: i64,
    app_id: &str,
    gtk_id: &str,
    resolved_name: Option<String>,
    map: Vardict,
    icon: Option<Image>,
    fresh: NotificationId,
) -> (r: Option<NotificationProps>)
    requires
        old(keys).wf(),
    ensures
        final(keys).wf(),
        gtk_added(
            old(keys)@,
            final(keys)@,
            blocklist@,
            timestamp,
            app_id@,
            gtk_id@,
            opt_view(resolved_name),
            map@,
            icon,
            fresh,
            r,
        ),
{
    let app_name = match resolved_name {
        Some(n) => n,
        None => owned(app_id),
    };
    if is_blocked(blocklist, app_name.as_str()) {
        return None;
    }
    let id = keys.resolve_id_with(app_id, gtk_id, fresh);
    Some(build_props(id, timestamp, app_id, gtk_id, app_name, map, icon))
}

/// `AddNotification` with a freshly generated identity for a new key (see
/// [`add_notification_with`]).
pub fn add_notification(
    keys: &mut KeyRegistry,
    blocklist: &[String],
    timestamp: i64,
    app_id: &str,
    gtk_id: &str,
    resolved_name: Option<String>,
    map: Vardict,
    icon: Option<Image>,
) -> (r: Option<NotificationProps>)
    requires
        old(keys).wf(),
    ensures
        final(keys).wf(),
        exists|fresh: NotificationId|
            gtk_added(
                old(keys)@,
                final(keys)@,
                blocklist@,
                timestamp,
                app_id@,
                gtk_id@,
                opt_view(resolved_name),
                map@,
                icon,
                fresh,
                r,
            ),
{
    let fresh = NotificationId::generate();
    add_notification_with(keys, blocklist, timestamp, app_id, gtk_id, resolved_name, map, icon, fresh)
}

/// `RemoveNotification(app_id, id)`: withdraws the key; the notification it named is closed.
pub fn remove_notification(keys: &mut KeyRegistry, app_id: &str, id: &str) -> (r: Option<
    NotificationEvent,
>)
    requires
        old(keys).wf(),
    ensures
        final(keys).wf(),
        final(keys)@ == old(keys)@.remove((app_id@, id@)),
        old(keys)@.contains_key((app_id@, id@)) ==> (r matches Some(NotificationEvent::Remove(g, reason))
            && g == old(keys)@[(app_id@, id@)] && reason == ClosedReason::Closed),
        !old(keys)@.contains_key((app_id@, id@)) ==> r is None,
{
    match keys.take_id(app_id, id) {
        Some(guid) => Some(NotificationEvent::Remove(guid, ClosedReason::Closed)),
        None => None,
    }
}

} // verus!
