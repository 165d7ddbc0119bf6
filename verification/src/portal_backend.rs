//! `org.freedesktop.impl.portal.Notification` (v2): what the backend advertises, and the
//! translation of a portal notification `a{sv}` into the model.
use vstd::prelude::*;
use crate::gtk_backend::{KeyRegistry, as_string_at, key_resolution, shown_name};
use crate::fdo_server::{blocked, is_blocked};
use crate::notification::{Notification, NotificationEvent};
use crate::gvariant::{
    ParsedButton, SoundSource, buttons_value, has_display_hint, has_hint, opt_string_value,
    parse_buttons, parse_sound, sound_of, take,
};
use crate::hints::{Variant, Vardict, get, lookup, owned_string};
use crate::model::{
    Action, ActionId, Actions, Alert, Body, Classification, Content, DesktopEntryId, Image,
    Lifecycle, LockscreenVisibility, NotificationId, NotificationProps, NotificationSource, Origin,
    PortalAction, PortalDispatch, Presentation, Reply, Routing, Timeout, default_key,
};
use crate::text::{opt_view, owned};
use crate::types::{
    ClosedReason, ButtonPurpose, Category, PORTAL_CATEGORIES, Priority, category_str, known_category,
    law_known_purpose_round_trip,
    known_purpose, priority_of_str, purpose_str, vendor_string,
};

verus! {

/// The interface version this backend implements.
pub const INTERFACE_VERSION: u32 = 2;

/// `p` is what parsing the purpose string `s` gives.
pub open spec fn parsed_purpose(p: ButtonPurpose, s: Seq<char>) -> bool {
    match known_purpose(s) {
        Some(c) => p == c,
        None => p matches ButtonPurpose::Other(v) && v@ == s,
    }
}

/// `p` is what parsing the optional purpose string `raw` gives.
pub open spec fn purpose_of(raw: Option<String>, p: Option<ButtonPurpose>) -> bool {
    match raw {
        None => p is None,
        Some(s) => p matches Some(q) && parsed_purpose(q, s@),
    }
}

/// `c` is what parsing the category string `s` gives.
pub open spec fn parsed_category(c: Category, s: Seq<char>) -> bool {
    match known_category(s) {
        Some(k) => c == k,
        None => c matches Category::Vendor(v) && v@ == vendor_string(s),
    }
}

/// A button declared with the `im.reply-with-text` purpose: the inline-reply affordance.
pub open spec fn is_reply_button(b: ParsedButton) -> bool {
    b.purpose matches Some(p) && p@ == "im.reply-with-text"@
}

/// A button shown as a button: not the reserved key, not the reply affordance.
pub open spec fn is_plain_button(b: ParsedButton) -> bool {
    b.action@ != default_key() && !is_reply_button(b)
}

/// The plain buttons, in order.
pub open spec fn plain_buttons(bs: Seq<ParsedButton>) -> Seq<ParsedButton>
    decreases bs.len(),
{
    if bs.len() == 0 {
        Seq::empty()
    } else if is_plain_button(bs.last()) {
        plain_buttons(bs.drop_last()).push(bs.last())
    } else {
        plain_buttons(bs.drop_last())
    }
}

/// The plain buttons, latest first: the dispatch table, so the first action of a name is
/// the one the last button of that name declared.
pub open spec fn table_buttons(bs: Seq<ParsedButton>) -> Seq<ParsedButton>
    decreases bs.len(),
{
    if bs.len() == 0 {
        Seq::empty()
    } else if is_plain_button(bs.last()) {
        seq![bs.last()] + table_buttons(bs.drop_last())
    } else {
        table_buttons(bs.drop_last())
    }
}

/// The last reply button (the one that wins).
pub open spec fn last_reply(bs: Seq<ParsedButton>) -> Option<ParsedButton>
    decreases bs.len(),
{
    if bs.len() == 0 {
        None
    } else if bs.last().action@ != default_key() && is_reply_button(bs.last()) {
        Some(bs.last())
    } else {
        last_reply(bs.drop_last())
    }
}

/// `a` dispatches the button `b`.
pub open spec fn action_from(a: PortalAction, b: ParsedButton) -> bool {
    a.name == b.action && a.target == b.target && purpose_of(b.purpose, a.purpose)
}

/// `a` displays the button `b`.
pub open spec fn shown_from(a: Action, b: ParsedButton) -> bool {
    a.id@ == b.action@ && a.label == b.label && purpose_of(b.purpose, a.purpose)
}

/// The alert of a portal notification: `silent`/`default` as such, a sound fd as the file it
/// was cached to (when it could be), anything else unspecified.
pub open spec fn portal_alert(map: Seq<(String, Variant)>, cached_sound: Option<String>) -> Alert {
    match sound_of(lookup(map, "sound"@)) {
        SoundSource::Silent => Alert::Silent,
        SoundSource::Default => Alert::Default,
        SoundSource::Fd(_) => match cached_sound {
            Some(p) => Alert::File(p),
            None => Alert::Unspecified,
        },
        SoundSource::Unspecified => Alert::Unspecified,
    }
}

/// Whether the `display-hint` list of `map` holds `hint`.
pub open spec fn hinted(map: Seq<(String, Variant)>, hint: Seq<char>) -> bool {
    has_hint(lookup(map, "display-hint"@), hint)
}

/// The lock-screen visibility the display hints ask for.
pub open spec fn portal_lockscreen(map: Seq<(String, Variant)>) -> LockscreenVisibility {
    if hinted(map, "hide-content-on-lockscreen"@) {
        LockscreenVisibility::HideContent
    } else if hinted(map, "hide-on-lockscreen"@) {
        LockscreenVisibility::Hide
    } else {
        LockscreenVisibility::Show
    }
}

/// The three button outputs.
struct PortalButtons {
    table: Vec<PortalAction>,
    shown: Vec<Action>,
    reply: Option<Reply>,
    reply_action: Option<PortalAction>,
}

/// The parsed purpose of a button.
fn parse_purpose(raw: &Option<String>) -> (r: Option<ButtonPurpose>)
    ensures
        purpose_of(*raw, r),
{
    match raw {
        Some(s) => Some(ButtonPurpose::parse(s.as_str())),
        None => None,
    }
}

/// Sorts the buttons into the dispatch table, the displayed buttons and the reply affordance.
fn portal_buttons(bs: Vec<ParsedButton>) -> (r: PortalButtons)
    ensures
        r.table@.len() == table_buttons(bs@).len(),
        forall|i: int| 0 <= i < r.table@.len() ==> action_from(r.table@[i], #[trigger] table_buttons(bs@)[i]),
        r.shown@.len() == plain_buttons(bs@).len(),
        forall|i: int| 0 <= i < r.shown@.len() ==> shown_from(r.shown@[i], #[trigger] plain_buttons(bs@)[i]),
        match last_reply(bs@) {
            Some(b) => (r.reply_action matches Some(a) && a.name == b.action && a.target == b.target
                && a.purpose == Some(ButtonPurpose::ImReplyWithText)) && (r.reply matches Some(rep)
                && rep.placeholder is None && rep.submit_icon is None && opt_view(rep.submit_label)
                == (if b.label@.len() == 0 {
                None
            } else {
                Some(b.label@)
            })),
            None => r.reply_action is None && r.reply is None,
        },
{
    let ghost orig = bs@;
    let mut rest = bs;
    let mut table: Vec<PortalAction> = Vec::new();
    let mut shown: Vec<Action> = Vec::new();
    let mut reply: Option<Reply> = None;
    let mut reply_action: Option<PortalAction> = None;
    let ghost mut i: int = 0;
    proof {
        reveal_strlit("im.reply-with-text");
    }
    while rest.len() > 0
        invariant
            0 <= i <= orig.len(),
            rest@ == orig.skip(i),
            table@.len() == table_buttons(orig.take(i)).len(),
            forall|j: int| 0 <= j < table@.len() ==> action_from(table@[j], #[trigger] table_buttons(orig.take(i))[j]),
            shown@.len() == plain_buttons(orig.take(i)).len(),
            forall|j: int| 0 <= j < shown@.len() ==> shown_from(shown@[j], #[trigger] plain_buttons(orig.take(i))[j]),
            match last_reply(orig.take(i)) {
                Some(b) => (reply_action matches Some(a) && a.name == b.action && a.target == b.target
                    && a.purpose == Some(ButtonPurpose::ImReplyWithText)) && (reply matches Some(rep)
                    && rep.placeholder is None && rep.submit_icon is None && opt_view(rep.submit_label)
                    == (if b.label@.len() == 0 {
                    None
                } else {
                    Some(b.label@)
                })),
                None => reply_action is None && reply is None,
            },
        decreases rest@.len(),
    {
        let b = rest.remove(0);
        let ghost prev = orig.take(i);
        let ghost next = orig.take(i + 1);
        proof {
            assert(next.drop_last() =~= prev);
            assert(next.last() == orig[i]);
            assert(b == orig[i]);
            assert(rest@ =~= orig.skip(i + 1));
        }
        match ActionId::new(b.action.as_str()) {
            Ok(id) => {
                let purpose = parse_purpose(&b.purpose);
                let is_reply = match &purpose {
                    Some(ButtonPurpose::ImReplyWithText) => true,
                    _ => false,
                };
                proof {
                    if b.purpose is Some && b.purpose.unwrap()@ == "im.reply-with-text"@ {
                        law_known_purpose_round_trip(ButtonPurpose::ImReplyWithText);
                    }
                    assert(is_reply == is_reply_button(b));
                }
                if is_reply {
                    let submit_label = if b.label.as_str().is_empty() {
                        None
                    } else {
                        Some(b.label)
                    };
                    reply = Some(Reply { placeholder: None, submit_label, submit_icon: None });
                    reply_action = Some(PortalAction { name: b.action, target: b.target, purpose });
                    proof {
                        assert(table_buttons(next) =~= table_buttons(prev));
                        assert(plain_buttons(next) =~= plain_buttons(prev));
                    }
                } else {
                    let ghost t0 = table@;
                    let ghost s0 = shown@;
                    let purpose2 = parse_purpose(&b.purpose);
                    shown.push(Action { id, label: b.label, purpose: purpose2 });
                    table.insert(0, PortalAction { name: b.action, target: b.target, purpose });
                    proof {
                        assert(table_buttons(next) =~= seq![orig[i]] + table_buttons(prev));
                        assert(plain_buttons(next) =~= plain_buttons(prev).push(orig[i]));
                        assert forall|j: int| 0 <= j < table@.len() implies action_from(
                            table@[j],
                            #[trigger] table_buttons(next)[j],
                        ) by {
                            if j > 0 {
                                assert(table@[j] == t0[j - 1]);
                                assert(table_buttons(next)[j] == table_buttons(prev)[j - 1]);
                            }
                        }
                        assert forall|j: int| 0 <= j < shown@.len() implies shown_from(
                            shown@[j],
                            #[trigger] plain_buttons(next)[j],
                        ) by {
                            if j < s0.len() {
                                assert(shown@[j] == s0[j]);
                                assert(plain_buttons(next)[j] == plain_buttons(prev)[j]);
                            }
                        }
                    }
                }
            },
            Err(_) => {
                proof {
                    assert(table_buttons(next) =~= table_buttons(prev));
                    assert(plain_buttons(next) =~= plain_buttons(prev));
                }
            },
        }
        proof {
            i = i + 1;
        }
    }
    proof {
        assert(orig.take(i) =~= orig);
    }
    PortalButtons { table, shown, reply, reply_action }
}

/// `r` is the translation of the portal notification `map` sent by `app_id` under
/// `portal_id`, with identity `id`, received at `timestamp`, displayed under `app_name` with the
/// app icon `icon` (`cached_sound` is where a sound fd was cached).
pub open spec fn portal_props_ok(
    id: NotificationId,
    timestamp: i64,
    app_id: Seq<char>,
    portal_id: Seq<char>,
    app_name: Seq<char>,
    map: Seq<(String, Variant)>,
    icon: Option<Image>,
    cached_sound: Option<String>,
    r: NotificationProps,
) -> bool {
    &&& r.id == id
    &&& r.timestamp == timestamp
    &&& ({
        let bs = buttons_value(lookup(map, "buttons"@));
        &&& r.dispatch matches NotificationSource::Portal(d)
        &&& d.app_id@ == app_id
        &&& d.portal_id@ == portal_id
        &&& match as_string_at(map, "default-action"@) {
            Some(name) => d.default_action matches Some(a) && a.name@ == name && a.target
                == lookup(map, "default-action-target"@) && a.purpose is None,
            None => d.default_action is None,
        }
        &&& d.button_actions@.len() == table_buttons(bs).len()
        &&& forall|i: int|
            0 <= i < d.button_actions@.len() ==> action_from(
                d.button_actions@[i],
                #[trigger] table_buttons(bs)[i],
            )
        &&& r.actions.buttons@.len() == plain_buttons(bs).len()
        &&& forall|i: int|
            0 <= i < r.actions.buttons@.len() ==> shown_from(
                r.actions.buttons@[i],
                #[trigger] plain_buttons(bs)[i],
            )
        &&& match last_reply(bs) {
            Some(b) => (d.reply_action matches Some(a) && a.name == b.action && a.target
                == b.target && a.purpose == Some(ButtonPurpose::ImReplyWithText)) && (r.actions.reply matches Some(
                rep,
            ) && rep.placeholder is None && rep.submit_icon is None && opt_view(rep.submit_label)
                == (if b.label@.len() == 0 {
                None
            } else {
                Some(b.label@)
            })),
            None => d.reply_action is None && r.actions.reply is None,
        }
    })
    &&& opt_view(r.origin.name) == Some(app_name)
    &&& r.origin.origin_name is None
    &&& r.origin.desktop_entry matches Some(e) && e@ == app_id
    &&& r.origin.icon == icon
    &&& r.content.summary@ == match as_string_at(map, "title"@) {
        Some(t) => t,
        None => Seq::<char>::empty(),
    }
    &&& match as_string_at(map, "markup-body"@) {
        Some(b) => r.content.body matches Some(Body::Markup(x)) && x@ == b,
        None => match as_string_at(map, "body"@) {
            Some(b) => r.content.body matches Some(Body::Plain(x)) && x@ == b,
            None => r.content.body is None,
        },
    }
    &&& r.content.progress is None
    &&& r.image is None
    &&& r.actions.default matches Some(a) && a.id@ == default_key() && a.label@ == Seq::<
        char,
    >::empty() && a.purpose is None
    &&& r.actions.urls@.len() == 0
    &&& !r.actions.action_icons
    &&& r.alert == portal_alert(map, cached_sound)
    &&& r.classification.priority == match as_string_at(map, "priority"@) {
        Some(p) => priority_of_str(p),
        None => Priority::Normal,
    }
    &&& match as_string_at(map, "category"@) {
        Some(c) => r.classification.category matches Some(k) && parsed_category(k, c),
        None => r.classification.category is None,
    }
    &&& r.classification.transient == hinted(map, "transient"@)
    &&& !r.classification.resident
    &&& r.classification.stack_tag is None
    &&& r.lifecycle.timeout == Timeout::PersistentByBackend
    &&& r.lifecycle.locked_open == hinted(map, "persistent"@)
    &&& r.presentation.routing == (if hinted(map, "tray"@) {
        Routing::TrayOnly
    } else {
        Routing::Banner
    })
    &&& r.presentation.lockscreen == portal_lockscreen(map)
    &&& r.presentation.realert_on_replace == hinted(map, "show-as-new"@)
}

/// Translates a portal notification `a{sv}` (v2) into the model: the markup body when given,
/// else the plain body; the purpose-carrying buttons (the `im.reply-with-text` one lifted to
/// the reply affordance); the default action; the sound intent (`cached_sound` is where a
/// sound fd was cached, when it was); the category; and the display hints driving tray-only
/// routing, persistence, lock-screen redaction, transience and re-alerting. The icon is the
/// app's own, resolved by the caller from the `icon` value.
pub fn build_props(
    id: NotificationId,
    timestamp: i64,
    app_id: &str,
    portal_id: &str,
    app_name: String,
    map: Vardict,
    icon: Option<Image>,
    cached_sound: Option<String>,
) -> (r: NotificationProps)
    ensures
        portal_props_ok(id, timestamp, app_id@, portal_id@, app_name@, map@, icon, cached_sound, r),
        r.origin.name == Some(app_name),
{
    let title = match owned_string(get(map.as_slice(), "title")) {
        Some(t) => t,
        None => String::new(),
    };
    let body = match owned_string(get(map.as_slice(), "markup-body")) {
        Some(m) => Some(Body::Markup(m)),
        None => match owned_string(get(map.as_slice(), "body")) {
            Some(b) => Some(Body::Plain(b)),
            None => None,
        },
    };
    let priority = match owned_string(get(map.as_slice(), "priority")) {
        Some(p) => Priority::parse(p.as_str()),
        None => Priority::Normal,
    };
    let category = match owned_string(get(map.as_slice(), "category")) {
        Some(c) => Some(Category::parse(c.as_str())),
        None => None,
    };
    let hints = get(map.as_slice(), "display-hint");
    let transient = has_display_hint(hints, "transient");
    let persistent = has_display_hint(hints, "persistent");
    let tray = has_display_hint(hints, "tray");
    let show_as_new = has_display_hint(hints, "show-as-new");
    let lockscreen = if has_display_hint(hints, "hide-content-on-lockscreen") {
        LockscreenVisibility::HideContent
    } else if has_display_hint(hints, "hide-on-lockscreen") {
        LockscreenVisibility::Hide
    } else {
        LockscreenVisibility::Show
    };
    let alert = match parse_sound(get(map.as_slice(), "sound")) {
        SoundSource::Silent => Alert::Silent,
        SoundSource::Default => Alert::Default,
        SoundSource::Fd(_) => match cached_sound {
            Some(p) => Alert::File(p),
            None => Alert::Unspecified,
        },
        SoundSource::Unspecified => Alert::Unspecified,
    };
    let default_name = owned_string(get(map.as_slice(), "default-action"));
    let mut map = map;
    proof {
        reveal_strlit("buttons");
        reveal_strlit("default-action-target");
        assert("buttons"@.len() == 7 && "default-action-target"@.len() == 21);
    }
    let buttons = take(&mut map, "buttons");
    let default_target = take(&mut map, "default-action-target");
    let parts = portal_buttons(parse_buttons(buttons));
    let default_action = match default_name {
        Some(name) => Some(PortalAction { name, target: default_target, purpose: None }),
        None => None,
    };
    NotificationProps {
        id,
        timestamp,
        dispatch: NotificationSource::Portal(
            PortalDispatch {
                app_id: owned(app_id),
                portal_id: owned(portal_id),
                default_action,
                button_actions: parts.table,
                reply_action: parts.reply_action,
            },
        ),
        origin: Origin {
            name: Some(app_name),
            origin_name: None,
            desktop_entry: Some(DesktopEntryId::new(app_id)),
            icon,
        },
        content: Content { summary: title, body, progress: None },
        image: None,
        actions: Actions {
            default: Some(Action { id: ActionId::default_action(), label: String::new(), purpose: None }),
            buttons: parts.shown,
            urls: Vec::new(),
            reply: parts.reply,
            action_icons: false,
        },
        alert,
        classification: Classification {
            priority,
            category,
            transient,
            resident: false,
            stack_tag: None,
        },
        lifecycle: Lifecycle { timeout: Timeout::PersistentByBackend, locked_open: persistent },
        presentation: Presentation {
            routing: if tray {
                Routing::TrayOnly
            } else {
                Routing::Banner
            },
            lockscreen,
            realert_on_replace: show_as_new,
        },
    }
}

/// The button purposes this server understands (the full v2 taxonomy).
pub open spec fn supported_purposes() -> Seq<Seq<char>> {
    seq![
        "system.custom-alert"@,
        "im.reply-with-text"@,
        "call.accept"@,
        "call.decline"@,
        "call.hang-up"@,
        "call.enable-speakerphone"@,
        "call.disable-speakerphone"@,
    ]
}

/// An array of string variants.
pub open spec fn str_array(v: Variant, items: Seq<Seq<char>>) -> bool {
    v matches Variant::Array(sig, xs) && sig@ == "s"@ && xs@.len() == items.len() && forall|i: int|
        0 <= i < xs@.len() ==> (#[trigger] xs@[i] matches Variant::Str(s) && s@ == items[i])
}

/// An array of string variants holding `items`.
fn strings_array(items: &[&str]) -> (r: Variant)
    ensures
        r matches Variant::Array(sig, xs) && sig@ == "s"@ && xs@.len() == items@.len() && forall|i: int|
            0 <= i < xs@.len() ==> (#[trigger] xs@[i] matches Variant::Str(s) && s@ == items@[i]@),
{
    let mut xs: Vec<Variant> = Vec::new();
    let mut i: usize = 0;
    while i < items.len()
        invariant
            i <= items@.len(),
            xs@.len() == i,
            forall|j: int| 0 <= j < i ==> (#[trigger] xs@[j] matches Variant::Str(s) && s@ == items@[j]@),
        decreases items@.len() - i,
    {
        xs.push(Variant::Str(owned(items[i])));
        i = i + 1;
    }
    Variant::Array(owned("s"), xs)
}

/// The `SupportedOptions` property: the understood button purposes and exactly the portal v2
/// category taxonomy (not the wider freedesktop one).
pub fn supported_options() -> (r: Vardict)
    ensures
        r@.len() == 2,
        r@[0].0@ == "button-purpose"@,
        str_array(r@[0].1, supported_purposes()),
        r@[1].0@ == "category"@,
        r@[1].1 matches Variant::Array(sig, xs) && sig@ == "s"@ && xs@.len() == PORTAL_CATEGORIES@.len() && forall|i: int|
            0 <= i < xs@.len() ==> (#[trigger] xs@[i] matches Variant::Str(s) && s@ == PORTAL_CATEGORIES@[i]@),
{
    let purposes: [&str; 7] = [
        "system.custom-alert",
        "im.reply-with-text",
        "call.accept",
        "call.decline",
        "call.hang-up",
        "call.enable-speakerphone",
        "call.disable-speakerphone",
    ];
    let purposes_value = strings_array(&purposes);
    let categories = PORTAL_CATEGORIES;
    let categories_value = strings_array(&categories);
    let mut options: Vardict = Vec::new();
    options.push((owned("button-purpose"), purposes_value));
    options.push((owned("category"), categories_value));
    proof {
        assert(purposes@ =~= seq![
            "system.custom-alert",
            "im.reply-with-text",
            "call.accept",
            "call.decline",
            "call.hang-up",
            "call.enable-speakerphone",
            "call.disable-speakerphone",
        ]);
    }
    options
}

/// The `(app_id, id)` key of a portal notification.
pub open spec fn portal_key(p: Notification) -> Option<(Seq<char>, Seq<char>)> {
    match p.dispatch {
        NotificationSource::Portal(d) => Some((d.app_id@, d.portal_id@)),
        _ => None,
    }
}

/// The keys of the restored portal notifications, a later one winning a shared key.
pub open spec fn restored_portal_keys(s: Seq<Notification>) -> Map<(Seq<char>, Seq<char>), NotificationId>
    decreases s.len(),
{
    if s.len() == 0 {
        Map::empty()
    } else {
        match portal_key(s.last()) {
            Some(k) => restored_portal_keys(s.drop_last()).insert(k, s.last().id),
            None => restored_portal_keys(s.drop_last()),
        }
    }
}

/// Re-seeds the key map from restored portal notifications, so a re-send replaces in place
/// (and a withdrawal still finds them) across a restart.
pub fn restore_keys(restored: &[Notification]) -> (r: KeyRegistry)
    ensures
        r.wf(),
        r@ == restored_portal_keys(restored@),
{
    let mut reg = KeyRegistry::new();
    let mut i: usize = 0;
    while i < restored.len()
        invariant
            i <= restored@.len(),
            reg.wf(),
            reg@ == restored_portal_keys(restored@.take(i as int)),
        decreases restored@.len() - i,
    {
        proof {
            assert(restored@.take(i + 1).drop_last() =~= restored@.take(i as int));
            assert(restored@.take(i + 1).last() == restored@[i as int]);
        }
        if let NotificationSource::Portal(d) = &restored[i].dispatch {
            reg.seed(d.app_id.as_str(), d.portal_id.as_str(), restored[i].id);
        }
        i = i + 1;
    }
    proof {
        assert(restored@.take(restored@.len() as int) =~= restored@);
    }
    reg
}

/// What adding a portal notification does (see [`add_notification_with`]): from the keys
/// `before` to the keys `after`, with the result `r`.
pub open spec fn portal_added(
    before: Map<(Seq<char>, Seq<char>), NotificationId>,
    after: Map<(Seq<char>, Seq<char>), NotificationId>,
    blocklist: Seq<String>,
    timestamp: i64,
    app_id: Seq<char>,
    portal_id: Seq<char>,
    resolved: Option<Seq<char>>,
    map: Seq<(String, Variant)>,
    icon: Option<Image>,
    cached_sound: Option<String>,
    fresh: NotificationId,
    r: Option<NotificationProps>,
) -> bool {
    let name = shown_name(resolved, app_id);
    let (guid, keys) = key_resolution(before, (app_id, portal_id), fresh);
    if blocked(blocklist, name) {
        r is None && after == before
    } else {
        after == keys && (r matches Some(p) && portal_props_ok(
            guid,
            timestamp,
            app_id,
            portal_id,
            name,
            map,
            icon,
            cached_sound,
            p,
        ))
    }
}

/// `AddNotification(app_id, id, map)`: dropped (the keys untouched) when the blocklist matches
/// the shown name (`resolved_name`, the desktop-file name, else the app id); otherwise keyed to
/// its identity (an existing key's, else `fresh`) and translated.
pub fn add_notification_with(
    keys: &mut KeyRegistry,
    blocklist: &[String],
    timestamp: i64,
    app_id: &str,
    portal_id: &str,
    resolved_name: Option<String>,
    map: Vardict,
    icon: Option<Image>,
    cached_sound: Option<String>,
    fresh: NotificationId,
) -> (r: Option<NotificationProps>)
    requires
        old(keys).wf(),
    ensures
        final(keys).wf(),
        portal_added(
            old(keys)@,
            final(keys)@,
            blocklist@,
            timestamp,
            app_id@,
            portal_id@,
            opt_view(resolved_name),
            map@,
            icon,
            cached_sound,
            fresh,
            r,
        ),
{
    let app_name = match resolved_name {
        Some(n) => n,
        None => owned(app_id),
    };
    if is_blocked(blocklist, app_name.as_str()) {
        return None;
    }
    let id = keys.resolve_id_with(app_id, portal_id, fresh);
    Some(build_props(id, timestamp, app_id, portal_id, app_name, map, icon, cached_sound))
}

/// `AddNotification` with a freshly generated identity for a new key (see
/// [`add_notification_with`]).
pub fn add_notification(
    keys: &mut KeyRegistry,
    blocklist: &[String],
    timestamp: i64,
    app_id: &str,
    portal_id: &str,
    resolved_name: Option<String>,
    map: Vardict,
    icon: Option<Image>,
    cached_sound: Option<String>,
) -> (r: Option<NotificationProps>)
    requires
        old(keys).wf(),
    ensures
        final(keys).wf(),
        exists|fresh: NotificationId|
            portal_added(
                old(keys)@,
                final(keys)@,
                blocklist@,
                timestamp,
                app_id@,
                portal_id@,
                opt_view(resolved_name),
                map@,
                icon,
                cached_sound,
                fresh,
                r,
            ),
{
    let fresh = NotificationId::generate();
    add_notification_with(
        keys,
        blocklist,
        timestamp,
        app_id,
        portal_id,
        resolved_name,
        map,
        icon,
        cached_sound,
        fresh,
    )
}

/// `RemoveNotification(app_id, id)`: withdraws the key; the notification it named is closed.
pub fn remove_notification(keys: &mut KeyRegistry, app_id: &str, id: &str) -> (r: Option<
    NotificationEvent,
>)
    requires
        old(keys).wf(),
    ensures
        final(keys).wf(),
        final(keys)@ == old(keys)@.remove((app_id@, id@)),
        old(keys)@.contains_key((app_id@, id@)) ==> (r matches Some(NotificationEvent::Remove(g, reason))
            && g == old(keys)@[(app_id@, id@)] && reason == ClosedReason::Closed),
        !old(keys)@.contains_key((app_id@, id@)) ==> r is None,
{
    match keys.take_id(app_id, id) {
        Some(guid) => Some(NotificationEvent::Remove(guid, ClosedReason::Closed)),
        None => None,
    }
}

} // verus!
