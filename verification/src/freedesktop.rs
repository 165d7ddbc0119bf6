//! The `org.freedesktop.Notifications` adapter: translating a `Notify` call into the unified
//! facet model, and the decisions its daemon makes (capabilities, timeouts, icons).
use vstd::prelude::*;
use crate::hints::{
    as_u8, get, get_bool, get_string, lookup, peel, peeled, string_at, bool_at, Variant,
};
use crate::model::{
    action_pairs, alert_view, dbus_pairs, default_key, opt_body_view, opt_image_view,
    strings_view, Action, ActionId, Actions, Alert, AlertView, Body, Classification, Content,
    DesktopEntryId, FreedesktopDispatch, Image, ImageView, Lifecycle, NotificationId,
    NotificationProps, NotificationSource, Origin, Presentation, Reply, SoundName, Timeout,
    Uri,
};
use crate::text::{chars_of, opt_view, owned, starts_with, str_eq, string_from_chars, strip_prefix};
use crate::types::{
    priority_of_urgency, urgency_of, Category, Priority, Urgency, known_category, vendor_string,
};

verus! {

/// The action key that requests KDE's inline text reply.
pub open spec fn inline_reply_key() -> Seq<char> {
    "inline-reply"@
}

/// `p` without a leading `file://`.
pub open spec fn strip_file_scheme(p: Seq<char>) -> Seq<char> {
    if "file://"@.is_prefix_of(p) {
        p.skip("file://"@.len() as int)
    } else {
        p
    }
}

/// The displayed application name: `x-kde-display-appname` when non-empty, else the
/// `Notify` app name when non-empty.
pub open spec fn display_name(h: Seq<(String, Variant)>, app: Seq<char>) -> Option<Seq<char>> {
    match string_at(h, "x-kde-display-appname"@) {
        Some(n) if n.len() > 0 => Some(n),
        _ => if app.len() > 0 {
            Some(app)
        } else {
            None
        },
    }
}

/// The content image path (`image-path`, or the legacy `image_path`), without `file://`.
pub open spec fn image_path(h: Seq<(String, Variant)>) -> Option<Seq<char>> {
    let p = match string_at(h, "image-path"@) {
        Some(p) => Some(p),
        None => string_at(h, "image_path"@),
    };
    match p {
        Some(p) if p.len() > 0 => Some(strip_file_scheme(p)),
        _ => None,
    }
}

/// The strings among `items`, in order.
pub open spec fn str_elements(items: Seq<Variant>) -> Seq<Seq<char>>
    decreases items.len(),
{
    if items.len() == 0 {
        seq![]
    } else {
        let rest = str_elements(items.drop_last());
        match items.last() {
            Variant::Str(s) => rest.push(s@),
            _ => rest,
        }
    }
}

/// The attached links (`x-kde-urls`, an array of strings).
pub open spec fn urls_of(h: Seq<(String, Variant)>) -> Seq<Seq<char>> {
    match lookup(h, "x-kde-urls"@) {
        Some(Variant::Array(_, items)) => str_elements(items@),
        _ => seq![],
    }
}

/// `x` clamped to `0..=100`.
pub open spec fn percent(x: int) -> u8 {
    if x < 0 {
        0
    } else if x > 100 {
        100
    } else {
        x as u8
    }
}

/// The progress percentage of the `value` hint (an `int` or a `uint` that fits one).
pub open spec fn progress_of(h: Seq<(String, Variant)>) -> Option<u8> {
    match lookup(h, "value"@) {
        Some(v) => match peel(v) {
            Variant::I32(x) => Some(percent(x as int)),
            Variant::U32(x) => if x <= i32::MAX {
                Some(percent(x as int))
            } else {
                None
            },
            _ => None,
        },
        None => None,
    }
}

/// The urgency of the `urgency` hint (absent or not a byte: normal).
pub open spec fn urgency_hint(h: Seq<(String, Variant)>) -> Urgency {
    match lookup(h, "urgency"@) {
        Some(v) => match as_u8(v) {
            Some(b) => urgency_of(b),
            None => Urgency::Normal,
        },
        None => Urgency::Normal,
    }
}

/// The coalescing key: dunst's stack tag, else Canonical's synchronous keys.
pub open spec fn stack_tag_of(h: Seq<(String, Variant)>) -> Option<Seq<char>> {
    match string_at(h, "x-dunst-stack-tag"@) {
        Some(t) => Some(t),
        None => match string_at(h, "x-canonical-private-synchronous"@) {
            Some(t) => Some(t),
            None => string_at(h, "synchronous"@),
        },
    }
}

/// The audio intent of the `suppress-sound` / `sound-file` / `sound-name` hints.
pub open spec fn fdo_alert(h: Seq<(String, Variant)>) -> AlertView {
    if bool_at(h, "suppress-sound"@) {
        AlertView::Silent
    } else if let Some(f) = string_at(h, "sound-file"@) {
        AlertView::File(f)
    } else if let Some(n) = string_at(h, "sound-name"@) {
        AlertView::Named(n)
    } else {
        AlertView::Unspecified
    }
}

/// The auto-dismiss policy of an `expire_timeout`: positive ⇒ after that many ms, `0` ⇒
/// never, negative ⇒ the server default, except that an urgent notification is never
/// dismissed by a server default.
pub open spec fn timeout_for(expire_timeout: i32, priority: Priority) -> Timeout {
    if expire_timeout > 0 {
        Timeout::After(expire_timeout as u64)
    } else if expire_timeout == 0 {
        Timeout::NeverByApp
    } else if priority == Priority::Urgent {
        Timeout::NeverByApp
    } else {
        Timeout::ServerDefault
    }
}

/// How an fdo `app_icon` string is read: empty ⇒ none, a `file://` URI or an absolute path
/// ⇒ a file, anything else ⇒ a themed name.
pub open spec fn icon_of(value: Seq<char>) -> Option<ImageView> {
    if value.len() == 0 {
        None
    } else if "file://"@.is_prefix_of(value) {
        Some(ImageView::Path(value.skip("file://"@.len() as int)))
    } else if value[0] == '/' {
        Some(ImageView::Path(value))
    } else {
        Some(ImageView::Named(value))
    }
}

/// The label of the first `"default"` entry of an actions list, if any.
pub open spec fn default_label(pairs: Seq<(Seq<char>, Seq<char>)>) -> Option<Seq<char>>
    decreases pairs.len(),
{
    if pairs.len() == 0 {
        None
    } else if pairs[0].0 == default_key() {
        Some(pairs[0].1)
    } else {
        default_label(pairs.drop_first())
    }
}

/// Whether an actions entry is a button (neither the default nor the inline reply).
pub open spec fn is_button(p: (Seq<char>, Seq<char>)) -> bool {
    p.0 != default_key() && p.0 != inline_reply_key()
}

/// [`is_button`] as a filter predicate.
pub open spec fn button_pred() -> spec_fn((Seq<char>, Seq<char>)) -> bool {
    |p: (Seq<char>, Seq<char>)| is_button(p)
}

/// The server default never dismisses an urgent notification: an `expire_timeout` that asks
/// for the server default (a negative one) leaves an urgent notification up until it is
/// closed, and gives any other the server default; the app's own choices (a positive time, or
/// `0` for never) stand whatever the priority.
pub proof fn law_urgent_is_never_dismissed_by_default(expire_timeout: i32, priority: Priority)
    ensures
        expire_timeout < 0 && priority == Priority::Urgent ==> timeout_for(expire_timeout, priority)
            == Timeout::NeverByApp,
        expire_timeout < 0 && priority != Priority::Urgent ==> timeout_for(expire_timeout, priority)
            == Timeout::ServerDefault,
        expire_timeout == 0 ==> timeout_for(expire_timeout, priority) == Timeout::NeverByApp,
        expire_timeout > 0 ==> timeout_for(expire_timeout, priority) == Timeout::After(expire_timeout as u64),
        timeout_for(expire_timeout, priority) == Timeout::ServerDefault ==> priority != Priority::Urgent,
{
}

/// The coalescing key is the first of the three de-facto hints that is present as a string:
/// `x-dunst-stack-tag`, then `x-canonical-private-synchronous`, then `synchronous`; without
/// any of them there is none.
pub proof fn law_stack_tag_takes_first_present_hint(h: Seq<(String, Variant)>)
    ensures
        string_at(h, "x-dunst-stack-tag"@) matches Some(t) ==> stack_tag_of(h) == Some(t),
        string_at(h, "x-dunst-stack-tag"@) is None ==> (string_at(h, "x-canonical-private-synchronous"@)
            matches Some(t) ==> stack_tag_of(h) == Some(t)),
        string_at(h, "x-dunst-stack-tag"@) is None && string_at(h, "x-canonical-private-synchronous"@) is None
            ==> (string_at(h, "synchronous"@) matches Some(t) ==> stack_tag_of(h) == Some(t)),
        stack_tag_of(h) is None <==> string_at(h, "x-dunst-stack-tag"@) is None && string_at(
            h,
            "x-canonical-private-synchronous"@,
        ) is None && string_at(h, "synchronous"@) is None,
{
}

/// Maps the fdo `expire_timeout` to a [`Timeout`] (see [`timeout_for`]).
pub fn resolve_timeout(expire_timeout: i32, priority: Priority) -> (r: Timeout)
    ensures
        r == timeout_for(expire_timeout, priority),
        expire_timeout < 0 ==> (r == Timeout::NeverByApp <==> priority == Priority::Urgent),
        expire_timeout < 0 && priority != Priority::Urgent ==> r == Timeout::ServerDefault,
{
    if expire_timeout > 0 {
        Timeout::After(expire_timeout as u64)
    } else if expire_timeout == 0 {
        Timeout::NeverByApp
    } else if priority == Priority::Urgent {
        Timeout::NeverByApp
    } else {
        Timeout::ServerDefault
    }
}

/// Classifies the fdo `app_icon` string as a themed name or a filesystem path.
pub fn classify_icon(value: String) -> (r: Option<Image>)
    ensures
        opt_image_view(r) == icon_of(value@),
{
    let chars = chars_of(value.as_str());
    if chars.len() == 0 {
        return None;
    }
    let scheme = chars_of("file://");
    match strip_prefix(chars.as_slice(), scheme.as_slice()) {
        Some(path) => Some(Image::Path(string_from_chars(path.as_slice()))),
        None => {
            if chars[0] == '/' {
                Some(Image::Path(value))
            } else {
                Some(Image::Named(value))
            }
        },
    }
}

/// `p` without a leading `file://`.
pub fn strip_file_uri(path: &str) -> (r: String)
    ensures
        r@ == strip_file_scheme(path@),
{
    let chars = chars_of(path);
    let scheme = chars_of("file://");
    match strip_prefix(chars.as_slice(), scheme.as_slice()) {
        Some(rest) => string_from_chars(rest.as_slice()),
        None => owned(path),
    }
}

/// The strings among `items` as links.
fn uris_of(items: &[Variant]) -> (r: Vec<Uri>)
    ensures
        r@.map_values(|u: Uri| u@) == str_elements(items@),
{
    let mut out: Vec<Uri> = Vec::new();
    let mut i: usize = 0;
    while i < items.len()
        invariant
            i <= items.len(),
            out@.map_values(|u: Uri| u@) == str_elements(items@.take(i as int)),
        decreases items.len() - i,
    {
        assert(items@.take(i + 1).drop_last() == items@.take(i as int));
        match &items[i] {
            Variant::Str(s) => {
                out.push(Uri::new(s.as_str()));
            },
            _ => {},
        }
        assert(out@.map_values(|u: Uri| u@) =~= str_elements(items@.take(i + 1)));
        i = i + 1;
    }
    assert(items@.take(items.len() as int) == items@);
    out
}

/// Reads the KDE `x-kde-urls` hint (a string array) into links.
pub fn hint_urls(hints: &[(String, Variant)]) -> (r: Vec<Uri>)
    ensures
        r@.map_values(|u: Uri| u@) == urls_of(hints@),
{
    match get(hints, "x-kde-urls") {
        Some(Variant::Array(_, items)) => uris_of(items.as_slice()),
        _ => {
            let out: Vec<Uri> = Vec::new();
            assert(out@.map_values(|u: Uri| u@) =~= seq![]);
            out
        },
    }
}

/// `x` clamped to a percentage.
fn clamp_percent(x: i32) -> (r: u8)
    ensures
        r == percent(x as int),
{
    if x < 0 {
        0
    } else if x > 100 {
        100
    } else {
        x as u8
    }
}

/// Reads the `value` progress hint (sent as `int` or `uint`), clamped to `0..=100`.
pub fn hint_progress(hints: &[(String, Variant)]) -> (r: Option<u8>)
    ensures
        r == progress_of(hints@),
{
    match get(hints, "value") {
        Some(v) => match peeled(v) {
            Variant::I32(x) => Some(clamp_percent(*x)),
            Variant::U32(x) => {
                if *x <= 2147483647 {
                    Some(clamp_percent(*x as i32))
                } else {
                    None
                }
            },
            _ => None,
        },
        None => None,
    }
}

/// The urgency of the `urgency` hint.
pub fn hint_urgency(hints: &[(String, Variant)]) -> (r: Urgency)
    ensures
        r == urgency_hint(hints@),
{
    match get(hints, "urgency") {
        Some(v) => match peeled(v) {
            Variant::U8(b) => Urgency::from(*b),
            _ => Urgency::Normal,
        },
        None => Urgency::Normal,
    }
}

/// Extracts the coalescing stack tag from the de-facto hints apps use for it.
pub fn stack_tag_from_hints(hints: &[(String, Variant)]) -> (r: Option<String>)
    ensures
        opt_view(r) == stack_tag_of(hints@),
        string_at(hints@, "x-dunst-stack-tag"@) is None && string_at(hints@, "x-canonical-private-synchronous"@)
            is None ==> opt_view(r) == string_at(hints@, "synchronous"@),
{
    match get_string(hints, "x-dunst-stack-tag") {
        Some(t) => Some(t),
        None => match get_string(hints, "x-canonical-private-synchronous") {
            Some(t) => Some(t),
            None => get_string(hints, "synchronous"),
        },
    }
}


/// The label of the first `"default"` entry among `actions`.
fn first_default_label(actions: &[Action]) -> (r: Option<String>)
    ensures
        opt_view(r) == default_label(action_pairs(actions@)),
{
    let ghost pairs = action_pairs(actions@);
    let mut i: usize = 0;
    assert(pairs.skip(0) == pairs);
    while i < actions.len()
        invariant
            i <= actions.len(),
            pairs == action_pairs(actions@),
            default_label(pairs) == default_label(pairs.skip(i as int)),
        decreases actions.len() - i,
    {
        assert(pairs.skip(i as int).drop_first() == pairs.skip(i + 1));
        if actions[i].id.is_default() {
            return Some(actions[i].label.clone());
        }
        i = i + 1;
    }
    None
}

/// Whether some entry of `actions` is the inline-reply request.
fn has_inline_reply(actions: &[Action]) -> (r: bool)
    ensures
        r == (exists|j: int|
            0 <= j < actions@.len() && #[trigger] action_pairs(actions@)[j].0 == inline_reply_key()),
{
    let mut i: usize = 0;
    while i < actions.len()
        invariant
            i <= actions.len(),
            forall|j: int| 0 <= j < i ==> #[trigger] action_pairs(actions@)[j].0 != inline_reply_key(),
        decreases actions.len() - i,
    {
        if str_eq(actions[i].id.as_str(), "inline-reply") {
            assert(action_pairs(actions@)[i as int].0 == inline_reply_key());
            return true;
        }
        i = i + 1;
    }
    false
}

/// The entries of `actions` that are buttons, in order.
fn buttons_of(actions: &[Action]) -> (r: Vec<Action>)
    requires
        forall|i: int| 0 <= i < actions@.len() ==> actions@[i].purpose is None,
    ensures
        action_pairs(r@) == action_pairs(actions@).filter(button_pred()),
        forall|i: int| 0 <= i < r@.len() ==> r@[i].purpose is None,
{
    let ghost pred = button_pred();
    let mut out: Vec<Action> = Vec::new();
    let mut i: usize = 0;
    while i < actions.len()
        invariant
            i <= actions.len(),
            forall|k: int| 0 <= k < actions@.len() ==> actions@[k].purpose is None,
            pred == button_pred(),
            action_pairs(out@) == action_pairs(actions@).take(i as int).filter(pred),
            forall|k: int| 0 <= k < out@.len() ==> out@[k].purpose is None,
        decreases actions.len() - i,
    {
        let ghost p = action_pairs(actions@)[i as int];
        assert(p.0 == actions@[i as int].id@);
        proof {
            assert(action_pairs(actions@).take(i + 1) == action_pairs(actions@).take(i as int).push(p));
            action_pairs(actions@).take(i as int).lemma_filter_push(p, pred);
        }
        let keep = !actions[i].id.is_default() && !str_eq(actions[i].id.as_str(), "inline-reply");
        assert(keep == pred(p));
        if keep {
            let a = Action {
                id: ActionId::copy_of(&actions[i].id),
                label: actions[i].label.clone(),
                purpose: None,
            };
            out.push(a);
            assert(action_pairs(out@) =~= action_pairs(actions@).take(i as int).filter(pred).push(p));
        } else {
            assert(action_pairs(actions@).take(i + 1).filter(pred) == action_pairs(actions@).take(i as int).filter(pred));
        }
        i = i + 1;
    }
    assert(action_pairs(actions@).take(actions.len() as int) == action_pairs(actions@));
    out
}

/// The decoded arguments of a `Notify` call, ready to translate into facets.
pub struct FdoNotify {
    /// The notification identity (already resolved for coalescing).
    pub guid: NotificationId,
    /// The freedesktop D-Bus wire id returned to the app.
    pub wire_id: u32,
    /// The session bus GUID this notification was created under.
    pub session_id: String,
    /// When it was received, in milliseconds since the Unix epoch.
    pub timestamp: i64,
    /// The unique bus name of the sender.
    pub owner: Option<String>,
    /// `app_name` argument.
    pub app_name: String,
    /// `app_icon` argument.
    pub app_icon: String,
    /// `summary` argument.
    pub summary: String,
    /// `body` argument.
    pub body: String,
    /// Flat `[id, label, ...]` actions argument.
    pub actions: Vec<String>,
    /// Hints, with any image data already materialized as `image-path`.
    pub hints: Vec<(String, Variant)>,
    /// `expire_timeout` argument.
    pub expire_timeout: i32,
}

/// The `(id, label)` pairs of a call's actions list.
pub open spec fn notify_pairs(n: FdoNotify) -> Seq<(Seq<char>, Seq<char>)> {
    dbus_pairs(strings_view(n.actions@))
}

/// The facets a freedesktop `Notify` translates into, from its arguments: the display
/// name, origin and icon; summary, body and progress; image; default action, buttons, inline
/// reply and URLs; alert; priority, category and behavior flags; timeout and presentation.
pub open spec fn fdo_facets(
    app_name: Seq<char>,
    app_icon: Seq<char>,
    summary: String,
    body: Seq<char>,
    pairs: Seq<(Seq<char>, Seq<char>)>,
    hints: Seq<(String, Variant)>,
    expire_timeout: i32,
    r: NotificationProps,
) -> bool {
    &&& opt_view(r.origin.name) == display_name(hints, app_name)
    &&& opt_view(r.origin.origin_name) == string_at(hints, "x-kde-origin-name"@)
    &&& match string_at(hints, "desktop-entry"@) {
        Some(d) => r.origin.desktop_entry matches Some(e) && e@ == d,
        None => r.origin.desktop_entry is None
    }
    &&& opt_image_view(r.origin.icon) == icon_of(app_icon)
    &&& r.content.summary == summary
    &&& opt_body_view(r.content.body) == if body.len() == 0 {
        None
    } else {
        Some((true, body))
    }
    &&& r.content.progress == progress_of(hints)
    &&& opt_image_view(r.image) == match image_path(hints) {
        Some(p) => Some(ImageView::Path(p)),
        None => None
    }
    &&& r.actions.urls@.map_values(|u: Uri| u@) == urls_of(hints)
    &&& match default_label(pairs) {
        Some(l) => r.actions.default matches Some(a) && a.id@ == default_key() && a.label@
            == l && a.purpose is None,
        None => if urls_of(hints).len() > 0 {
            r.actions.default matches Some(a) && a.id@ == default_key() && a.label@
                == Seq::<char>::empty() && a.purpose is None
        } else {
            r.actions.default is None
        }
    }
    &&& action_pairs(r.actions.buttons@) == pairs.filter(button_pred())
    &&& forall|i: int| 0 <= i < r.actions.buttons@.len() ==> r.actions.buttons@[i].purpose is None
    &&& r.actions.reply is Some <==> exists|j: int|
        0 <= j < pairs.len() && #[trigger] pairs[j].0
            == inline_reply_key()
    &&& r.actions.reply matches Some(rep) ==> opt_view(rep.placeholder) == string_at(
        hints,
        "x-kde-reply-placeholder-text"@
    ) && opt_view(rep.submit_label) == string_at(
        hints,
        "x-kde-reply-submit-button-text"@
    ) && opt_view(rep.submit_icon) == string_at(
        hints,
        "x-kde-reply-submit-button-icon-name"@
    )
    &&& r.actions.action_icons == bool_at(hints, "action-icons"@)
    &&& alert_view(r.alert) == fdo_alert(hints)
    &&& r.classification.priority == priority_of_urgency(urgency_hint(hints))
    &&& match string_at(hints, "category"@) {
        Some(c) => match known_category(c) {
            Some(k) => r.classification.category == Some(k),
            None => r.classification.category matches Some(Category::Vendor(v)) && v@
                == vendor_string(c),
        },
        None => r.classification.category is None
    }
    &&& r.classification.transient == bool_at(hints, "transient"@)
    &&& r.classification.resident == bool_at(hints, "resident"@)
    &&& opt_view(r.classification.stack_tag) == stack_tag_of(hints)
    &&& r.lifecycle == (Lifecycle {
        timeout: timeout_for(
            expire_timeout,
            priority_of_urgency(urgency_hint(hints)),
        ),
        locked_open: false
    })
    &&& r.presentation == Presentation::standard_spec()
}

/// Translates a freedesktop `Notify` into the unified facet model. This is the only place
/// the fdo hint vocabulary is read; unrecognized hints are dropped.
pub fn build_props(notify: FdoNotify) -> (r: NotificationProps)
    ensures
        r.id == notify.guid,
        r.timestamp == notify.timestamp,
        r.dispatch == NotificationSource::Freedesktop(
            FreedesktopDispatch {
                wire_id: notify.wire_id,
                session_id: notify.session_id,
                owner: notify.owner,
            },
        ),
        fdo_facets(
            notify.app_name@,
            notify.app_icon@,
            notify.summary,
            notify.body@,
            notify_pairs(notify),
            notify.hints@,
            notify.expire_timeout,
            r,
        ),
{
    let FdoNotify {
        guid,
        wire_id,
        session_id,
        timestamp,
        owner,
        app_name,
        app_icon,
        summary,
        body,
        actions,
        hints,
        expire_timeout,
    } = notify;
    let h = hints.as_slice();

    let name = match get_string(h, "x-kde-display-appname") {
        Some(n) if n.as_str().is_empty() == false => Some(n),
        _ => if app_name.as_str().is_empty() == false {
            Some(app_name)
        } else {
            None
        },
    };
    let desktop_entry = match get_string(h, "desktop-entry") {
        Some(d) => Some(DesktopEntryId::new(d.as_str())),
        None => None,
    };
    let origin = Origin {
        name,
        origin_name: get_string(h, "x-kde-origin-name"),
        desktop_entry,
        icon: classify_icon(app_icon),
    };

    let content = Content {
        summary,
        body: if body.as_str().is_empty() == false {
            Some(Body::Markup(body))
        } else {
            None
        },
        progress: hint_progress(h),
    };

    let path = match get_string(h, "image-path") {
        Some(p) => Some(p),
        None => get_string(h, "image_path"),
    };
    let image = match path {
        Some(p) if p.as_str().is_empty() == false => Some(Image::Path(strip_file_uri(p.as_str()))),
        _ => None,
    };

    let urls = hint_urls(h);
    let parsed = Action::parse_dbus_actions(actions.as_slice());
    let default = match first_default_label(parsed.as_slice()) {
        Some(label) => Some(Action { id: ActionId::default_action(), label, purpose: None }),
        None => if urls.len() > 0 {
            Some(Action { id: ActionId::default_action(), label: String::new(), purpose: None })
        } else {
            None
        },
    };
    let reply = if has_inline_reply(parsed.as_slice()) {
        Some(
            Reply {
                placeholder: get_string(h, "x-kde-reply-placeholder-text"),
                submit_label: get_string(h, "x-kde-reply-submit-button-text"),
                submit_icon: get_string(h, "x-kde-reply-submit-button-icon-name"),
            },
        )
    } else {
        None
    };
    let buttons = buttons_of(parsed.as_slice());
    let actions = Actions {
        default,
        buttons,
        urls,
        reply,
        action_icons: get_bool(h, "action-icons"),
    };

    let alert = if get_bool(h, "suppress-sound") {
        Alert::Silent
    } else if let Some(file) = get_string(h, "sound-file") {
        Alert::File(file)
    } else if let Some(name) = get_string(h, "sound-name") {
        Alert::Named(SoundName::from_string(name))
    } else {
        Alert::Unspecified
    };

    let priority = Priority::from(hint_urgency(h));
    let category = match get_string(h, "category") {
        Some(c) => Some(Category::parse(c.as_str())),
        None => None,
    };
    let classification = Classification {
        priority,
        category,
        transient: get_bool(h, "transient"),
        resident: get_bool(h, "resident"),
        stack_tag: stack_tag_from_hints(h),
    };
    let lifecycle = Lifecycle { timeout: resolve_timeout(expire_timeout, priority), locked_open: false };

    NotificationProps {
        id: guid,
        timestamp,
        dispatch: NotificationSource::Freedesktop(FreedesktopDispatch { wire_id, session_id, owner }),
        origin,
        content,
        image,
        actions,
        alert,
        classification,
        lifecycle,
        presentation: Presentation::standard(),
    }
}

} // verus!
