//! The protocol-independent notification model a shell consumes: identities, the display
//! facets (origin, content, actions, alert, classification, lifecycle, presentation), and
//! the per-backend dispatch data that routes interactions back to the sending app.
use vstd::prelude::*;
use std::hash::BuildHasher;
use crate::hints::Variant;
use crate::text::{owned, push_signed_decimal, signed_decimal, str_eq};
use crate::types::{ButtonPurpose, Category, Priority};

verus! {

/// A globally-unique notification identity, independent of any D-Bus wire id. Randomly
/// generated per notification; coalescing reuses an existing identity.
#[derive(Debug, Clone, Copy, PartialEq, Eq, Hash, PartialOrd, Ord, Structural)]
pub struct NotificationId(i64);

/// The raw value of an identity.
pub closed spec fn id_value(id: NotificationId) -> i64 {
    id.0
}

/// Identities with the same raw value are the same identity.
pub proof fn lemma_id_value_injective(a: NotificationId, b: NotificationId)
    ensures
        id_value(a) == id_value(b) <==> a == b,
{
}

/// A fresh random 64-bit value from the OS-seeded `RandomState` hasher.
#[verifier::external_body]
fn random_identity() -> (r: i64) {
    std::collections::hash_map::RandomState::new().hash_one(()) as i64
}

impl NotificationId {
    /// Wraps a raw identity value (persistence / tests).
    pub fn new(id: i64) -> (r: Self)
        ensures
            id_value(r) == id,
    {
        NotificationId(id)
    }

    /// Generates a fresh random identity.
    pub fn generate() -> (r: Self) {
        NotificationId(random_identity())
    }

    /// The raw identity value.
    pub fn get(self) -> (r: i64)
        ensures
            r == id_value(self),
    {
        self.0
    }

    /// The identity as text: its raw value in decimal.
    pub fn to_string(&self) -> (r: String)
        ensures
            r@ == signed_decimal(id_value(*self) as int),
    {
        let mut s = String::new();
        push_signed_decimal(&mut s, self.0);
        s
    }
}

/// A trusted, locale-independent `.desktop` entry id (e.g. `org.gnome.Clocks`).
#[derive(Debug, Clone, PartialEq, Eq, Hash)]
pub struct DesktopEntryId(String);

impl View for DesktopEntryId {
    type V = Seq<char>;

    closed spec fn view(&self) -> Seq<char> {
        self.0@
    }
}

impl DesktopEntryId {
    /// Wraps a desktop-entry id.
    pub fn new(id: &str) -> (r: Self)
        ensures
            r@ == id@,
    {
        DesktopEntryId(owned(id))
    }

    /// The id as a string slice.
    pub fn as_str(&self) -> (r: &str)
        ensures
            r@ == self@,
    {
        self.0.as_str()
    }
}

/// An app-defined action id. A button id is never the reserved body-click key; the default
/// action carries [`ActionId::default_action`].
#[derive(Debug, Clone, PartialEq, Eq, Hash)]
pub struct ActionId(String);

impl View for ActionId {
    type V = Seq<char>;

    closed spec fn view(&self) -> Seq<char> {
        self.0@
    }
}

/// Returned by [`ActionId::new`] when given the reserved `"default"` key.
#[derive(Debug, Clone, Copy, PartialEq, Eq, Structural)]
pub struct ReservedActionId;

/// The reserved key naming the body-click / default action.
pub open spec fn default_key() -> Seq<char> {
    "default"@
}

impl ReservedActionId {
    /// The error's message: `"default" is a reserved action id`.
    pub fn message(&self) -> (r: String)
        ensures
            r@ == "\"default\" is a reserved action id"@,
    {
        owned("\"default\" is a reserved action id")
    }
}

impl ActionId {
    /// Wraps an app action id, rejecting the reserved `"default"` key.
    pub fn new(id: &str) -> (r: Result<Self, ReservedActionId>)
        ensures
            r is Err <==> id@ == default_key(),
            r matches Ok(a) ==> a@ == id@,
    {
        if str_eq(id, "default") {
            Err(ReservedActionId)
        } else {
            Ok(ActionId(owned(id)))
        }
    }

    /// A copy of `id`.
    pub fn copy_of(id: &ActionId) -> (r: Self)
        ensures
            r@ == id@,
    {
        ActionId(id.0.clone())
    }

    /// The reserved default (body-click) action id.
    pub fn default_action() -> (r: Self)
        ensures
            r@ == default_key(),
    {
        ActionId(owned("default"))
    }

    /// Whether this is the reserved default (body-click) action.
    pub fn is_default(&self) -> (r: bool)
        ensures
            r == (self@ == default_key()),
    {
        str_eq(self.0.as_str(), "default")
    }

    /// The id as a string slice (the dispatch key / wire action name).
    pub fn as_str(&self) -> (r: &str)
        ensures
            r@ == self@,
    {
        self.0.as_str()
    }
}

/// A URI attached to a notification (a freedesktop `x-kde-urls` entry).
#[derive(Debug, Clone, PartialEq, Eq, Hash)]
pub struct Uri(String);

impl View for Uri {
    type V = Seq<char>;

    closed spec fn view(&self) -> Seq<char> {
        self.0@
    }
}

impl Uri {
    /// Wraps a URI string.
    pub fn new(uri: &str) -> (r: Self)
        ensures
            r@ == uri@,
    {
        Uri(owned(uri))
    }

    /// Wraps an owned URI string.
    pub fn from_string(uri: String) -> (r: Self)
        ensures
            r@ == uri@,
    {
        Uri(uri)
    }

    /// The URI as a string slice.
    pub fn as_str(&self) -> (r: &str)
        ensures
            r@ == self@,
    {
        self.0.as_str()
    }
}

/// The `(id, label)` pairs of a flat freedesktop actions list `[id, label, ...]`; a trailing
/// id without a label is its own label.
pub open spec fn dbus_pairs(raw: Seq<Seq<char>>) -> Seq<(Seq<char>, Seq<char>)> {
    Seq::new(
        ((raw.len() + 1) / 2) as nat,
        |i: int|
            (raw[2 * i], if 2 * i + 1 < raw.len() {
                raw[2 * i + 1]
            } else {
                raw[2 * i]
            }),
    )
}

/// The flat `[id, label, ...]` list of `(id, label)` pairs.
pub open spec fn dbus_flat(pairs: Seq<(Seq<char>, Seq<char>)>) -> Seq<Seq<char>> {
    Seq::new(
        2 * pairs.len(),
        |k: int|
            if k % 2 == 0 {
                pairs[k / 2].0
            } else {
                pairs[k / 2].1
            },
    )
}

/// The characters of each string of a list.
pub open spec fn strings_view(v: Seq<String>) -> Seq<Seq<char>> {
    v.map_values(|s: String| s@)
}

/// The `(id, label)` pairs of a list of actions.
pub open spec fn action_pairs(actions: Seq<Action>) -> Seq<(Seq<char>, Seq<char>)> {
    actions.map_values(|a: Action| (a.id@, a.label@))
}

/// An even-length flat actions list is exactly the flattening of the pairs read from it, so
/// parsing then re-encoding gives the original list back.
pub proof fn law_dbus_actions_round_trip(raw: Seq<Seq<char>>)
    requires
        raw.len() % 2 == 0,
    ensures
        dbus_flat(dbus_pairs(raw)) == raw,
{
    let f = dbus_flat(dbus_pairs(raw));
    assert(f.len() == raw.len());
    assert forall|k: int| 0 <= k < raw.len() implies f[k] == raw[k] by {
        if k % 2 == 0 {
            assert(2 * (k / 2) == k);
        } else {
            assert(2 * (k / 2) + 1 == k);
        }
    }
    assert(f =~= raw);
}

impl Action {
    /// Parses the freedesktop flat `[id, label, ...]` actions list. The reserved `"default"`
    /// id becomes [`ActionId::default_action`]; every other becomes a normal [`ActionId`].
    pub fn parse_dbus_actions(raw_actions: &[String]) -> (r: Vec<Action>)
        ensures
            action_pairs(r@) == dbus_pairs(strings_view(raw_actions@)),
            forall|i: int| 0 <= i < r@.len() ==> r@[i].purpose is None,
    {
        let ghost raw = strings_view(raw_actions@);
        let mut actions: Vec<Action> = Vec::new();
        let mut i: usize = 0;
        while i < raw_actions.len()
            invariant
                i <= raw_actions.len(),
                i % 2 == 0 || i == raw_actions.len(),
                raw == strings_view(raw_actions@),
                actions@.len() == (i + 1) / 2,
                forall|j: int|
                    0 <= j < actions@.len() ==> (actions@[j].id@, actions@[j].label@)
                        == dbus_pairs(raw)[j],
                forall|j: int| 0 <= j < actions@.len() ==> actions@[j].purpose is None,
            decreases raw_actions.len() - i,
        {
            let id = &raw_actions[i];
            let label = if i + 1 < raw_actions.len() {
                &raw_actions[i + 1]
            } else {
                id
            };
            let action_id = if str_eq(id.as_str(), "default") {
                ActionId::default_action()
            } else {
                ActionId(id.clone())
            };
            actions.push(Action { id: action_id, label: label.clone(), purpose: None });
            proof {
                assert(2 * (i / 2) == i);
            }
            i = if i + 1 < raw_actions.len() {
                i + 2
            } else {
                raw_actions.len()
            };
        }
        assert(action_pairs(actions@) =~= dbus_pairs(raw));
        actions
    }

    /// The flat `[id, label, ...]` list of `actions`.
    pub fn to_dbus_format(actions: &[Action]) -> (r: Vec<String>)
        ensures
            strings_view(r@) == dbus_flat(action_pairs(actions@)),
    {
        let mut raw: Vec<String> = Vec::new();
        let mut i: usize = 0;
        while i < actions.len()
            invariant
                i <= actions.len(),
                raw@.len() == 2 * i,
                forall|k: int|
                    0 <= k < raw@.len() ==> raw@[k]@ == dbus_flat(action_pairs(actions@))[k],
            decreases actions.len() - i,
        {
            raw.push(owned(actions[i].id.as_str()));
            raw.push(actions[i].label.clone());
            proof {
                assert((2 * i) / 2 == i && (2 * i + 1) / 2 == i);
            }
            i = i + 1;
        }
        assert(strings_view(raw@) =~= dbus_flat(action_pairs(actions@)));
        raw
    }
}

/// Where a notification interaction originated, deciding how it dismisses itself.
#[derive(Debug, Clone, Copy, PartialEq, Eq, Structural)]
pub enum InvokeSource {
    /// Invoked from the history list: removed from history on activation.
    History,
    /// Invoked from a popup banner: the banner is always dismissed, and the notification is
    /// also removed from history when `remove_from_history`.
    Popup {
        /// Whether to also remove it from history.
        remove_from_history: bool,
    },
}

/// A notification action with an id and a label.
#[derive(Debug, Clone, PartialEq)]
pub struct Action {
    /// Action identifier (the dispatch key).
    pub id: ActionId,
    /// Human-readable label for display.
    pub label: String,
    /// The button's purpose (portal v2), when the app declared one.
    pub purpose: Option<ButtonPurpose>,
}

/// The body text fused with whether it is markup.
#[derive(Debug, Clone, PartialEq, Eq)]
pub enum Body {
    /// Plain text; escape before rendering.
    Plain(String),
    /// A markup subset (`<b> <i> <a href>` …).
    Markup(String),
}

/// The text of a body, regardless of markup mode.
pub open spec fn body_text(b: Body) -> Seq<char> {
    match b {
        Body::Plain(t) => t@,
        Body::Markup(t) => t@,
    }
}

impl Body {
    /// The underlying text regardless of markup mode.
    pub fn text(&self) -> (r: &str)
        ensures
            r@ == body_text(*self),
    {
        match self {
            Body::Plain(text) => text.as_str(),
            Body::Markup(text) => text.as_str(),
        }
    }

    /// Whether the text should be rendered as markup.
    pub fn is_markup(&self) -> (r: bool)
        ensures
            r == (*self is Markup),
    {
        match self {
            Body::Markup(_) => true,
            Body::Plain(_) => false,
        }
    }
}

/// A resolved image source.
#[derive(Debug, Clone, PartialEq, Eq)]
pub enum Image {
    /// An icon-theme name to look up.
    Named(String),
    /// A file on disk (a cache path or a plain path).
    Path(String),
}

/// The image sources a shell can tell apart, as characters.
pub enum ImageView {
    /// A themed icon name.
    Named(Seq<char>),
    /// A file path.
    Path(Seq<char>),
}

/// The characters of an image source.
pub open spec fn image_view(i: Image) -> ImageView {
    match i {
        Image::Named(n) => ImageView::Named(n@),
        Image::Path(p) => ImageView::Path(p@),
    }
}

/// The characters of an optional image source.
pub open spec fn opt_image_view(o: Option<Image>) -> Option<ImageView> {
    match o {
        Some(i) => Some(image_view(i)),
        None => None,
    }
}

/// Audio-feedback intents, as characters.
pub enum AlertView {
    /// No sound requested.
    Unspecified,
    /// Explicitly silent.
    Silent,
    /// The default alert.
    Default,
    /// A themed sound event.
    Named(Seq<char>),
    /// A sound file.
    File(Seq<char>),
}

/// The characters of an alert.
pub open spec fn alert_view(a: Alert) -> AlertView {
    match a {
        Alert::Unspecified => AlertView::Unspecified,
        Alert::Silent => AlertView::Silent,
        Alert::Default => AlertView::Default,
        Alert::Named(n) => AlertView::Named(n@),
        Alert::File(f) => AlertView::File(f@),
    }
}

/// The text of an optional body with its markup flag.
pub open spec fn opt_body_view(b: Option<Body>) -> Option<(bool, Seq<char>)> {
    match b {
        Some(Body::Plain(t)) => Some((false, t@)),
        Some(Body::Markup(t)) => Some((true, t@)),
        None => None,
    }
}

/// A freedesktop sound-naming-spec event id.
#[derive(Debug, Clone, PartialEq, Eq)]
pub struct SoundName(String);

impl View for SoundName {
    type V = Seq<char>;

    closed spec fn view(&self) -> Seq<char> {
        self.0@
    }
}

impl SoundName {
    /// Wraps a sound-naming-spec event id.
    pub fn new(name: &str) -> (r: Self)
        ensures
            r@ == name@,
    {
        SoundName(owned(name))
    }

    /// Wraps an owned event id.
    pub fn from_string(name: String) -> (r: Self)
        ensures
            r@ == name@,
    {
        SoundName(name)
    }

    /// The event id as a string slice.
    pub fn as_str(&self) -> (r: &str)
        ensures
            r@ == self@,
    {
        self.0.as_str()
    }
}

/// Audio-feedback intent.
#[derive(Debug, Clone, PartialEq, Eq)]
pub enum Alert {
    /// No sound requested.
    Unspecified,
    /// Explicitly silent.
    Silent,
    /// Play the system/shell default alert (portal-only intent).
    Default,
    /// A themed sound-naming-spec event id.
    Named(SoundName),
    /// A specific sound file.
    File(String),
}

/// Requested auto-dismiss policy.
#[derive(Debug, Clone, Copy, PartialEq, Eq, Structural)]
pub enum Timeout {
    /// Use the shell's per-priority default (fdo `-1`).
    ServerDefault,
    /// The app explicitly requested never-auto-expire (fdo `0`).
    NeverByApp,
    /// The backend has no timeout concept; persists until withdrawn (gtk/portal).
    PersistentByBackend,
    /// Auto-close after this many milliseconds (fdo `>0`).
    After(u64),
}

/// Banner-vs-tray routing intent.
#[derive(Debug, Clone, Copy, PartialEq, Eq, Structural)]
pub enum Routing {
    /// Show as a banner.
    Banner,
    /// No banner; straight to a tray/center (portal `tray`).
    TrayOnly,
}

/// Lock-screen redaction.
#[derive(Debug, Clone, Copy, PartialEq, Eq, Structural)]
pub enum LockscreenVisibility {
    /// Show fully.
    Show,
    /// Show that a notification exists but redact its content.
    HideContent,
    /// Omit it entirely from the lock screen.
    Hide,
}

/// The sending application.
#[derive(Debug, Clone, PartialEq)]
pub struct Origin {
    /// Human display name (spoofable: a label, never a key).
    pub name: Option<String>,
    /// A secondary attribution line (KDE `x-kde-origin-name`).
    pub origin_name: Option<String>,
    /// Trusted, locale-independent `.desktop` id.
    pub desktop_entry: Option<DesktopEntryId>,
    /// Small header/branding icon.
    pub icon: Option<Image>,
}

/// The renderable text.
#[derive(Debug, Clone, PartialEq)]
pub struct Content {
    /// Single-line headline, always rendered.
    pub summary: String,
    /// Optional multi-line message.
    pub body: Option<Body>,
    /// A completion percentage (0–100) for a progress bar.
    pub progress: Option<u8>,
}

/// An inline text-reply affordance.
#[derive(Debug, Clone, PartialEq, Eq)]
pub struct Reply {
    /// Placeholder text for the empty field.
    pub placeholder: Option<String>,
    /// Submit-button label.
    pub submit_label: Option<String>,
    /// Submit-button themed icon name.
    pub submit_icon: Option<String>,
}

/// The interaction surface of the card.
#[derive(Debug, Clone, PartialEq)]
pub struct Actions {
    /// The body-click action; `None` = inert body.
    pub default: Option<Action>,
    /// Ordered buttons, never including the default or the inline-reply action.
    pub buttons: Vec<Action>,
    /// Links attached to the notification (freedesktop `x-kde-urls`).
    pub urls: Vec<Uri>,
    /// An inline text-reply affordance, when requested.
    pub reply: Option<Reply>,
    /// Render button ids as themed icon names (fdo `action-icons`).
    pub action_icons: bool,
}

impl Actions {
    /// No actions at all: an inert card.
    pub fn none() -> (r: Actions)
        ensures
            r.default is None,
            r.buttons@.len() == 0,
            r.urls@.len() == 0,
            r.reply is None,
            !r.action_icons,
    {
        Actions {
            default: None,
            buttons: Vec::new(),
            urls: Vec::new(),
            reply: None,
            action_icons: false,
        }
    }
}

/// Importance, type, and the persistence/coalescing behavior axes.
#[derive(Debug, Clone, PartialEq)]
pub struct Classification {
    /// 4-level importance.
    pub priority: Priority,
    /// Semantic type.
    pub category: Option<Category>,
    /// Banner-only: do not archive to history after close.
    pub transient: bool,
    /// Keep the card alive after an action fires (media controls).
    pub resident: bool,
    /// Coalescing key beyond `replaces`.
    pub stack_tag: Option<String>,
}

/// How long the notification lives and how it may leave.
#[derive(Debug, Clone, Copy, PartialEq, Eq, Structural)]
pub struct Lifecycle {
    /// The app's requested auto-dismiss policy.
    pub timeout: Timeout,
    /// The app forbids manual dismissal (portal `persistent`).
    pub locked_open: bool,
}

/// Where the card surfaces and how it is redacted.
#[derive(Debug, Clone, Copy, PartialEq, Eq, Structural)]
pub struct Presentation {
    /// Banner-vs-tray routing.
    pub routing: Routing,
    /// Lock-screen privacy.
    pub lockscreen: LockscreenVisibility,
    /// On replace, re-alert instead of updating silently (portal `show-as-new`).
    pub realert_on_replace: bool,
}

impl Presentation {
    /// A banner, shown on the lock screen, updated silently on replace.
    pub open spec fn standard_spec() -> Presentation {
        Presentation {
            routing: Routing::Banner,
            lockscreen: LockscreenVisibility::Show,
            realert_on_replace: false,
        }
    }

    /// A banner, shown on the lock screen, updated silently on replace.
    pub fn standard() -> (r: Presentation)
        ensures
            r == Presentation::standard_spec(),
    {
        Presentation {
            routing: Routing::Banner,
            lockscreen: LockscreenVisibility::Show,
            realert_on_replace: false,
        }
    }
}

/// Everything needed to dispatch a freedesktop notification's actions to the owning app.
#[derive(Debug, Clone, PartialEq)]
pub struct FreedesktopDispatch {
    /// The `org.freedesktop.Notifications` wire id.
    pub wire_id: u32,
    /// The session bus GUID this notification was created under.
    pub session_id: String,
    /// Unique bus name of the creating connection; `None` once it is gone.
    pub owner: Option<String>,
}

/// A single GTK action: the action name as received plus its optional parameter.
#[derive(Debug, Clone, PartialEq)]
pub struct GtkAction {
    /// Action name as received (the `"app."` prefix is stripped only at dispatch).
    pub name: String,
    /// Optional GVariant parameter.
    pub target: Option<Variant>,
}

/// Everything needed to dispatch a GTK notification's actions to the owning app.
#[derive(Debug, Clone, PartialEq)]
pub struct GtkDispatch {
    /// The GApplication id.
    pub app_id: String,
    /// The app-chosen notification id.
    pub gtk_id: String,
    /// The `default-action` (body click).
    pub default_action: Option<GtkAction>,
    /// Button actions, one per action name.
    pub button_actions: Vec<GtkAction>,
}

/// A single portal action: the name exactly as received, its parameter and purpose.
#[derive(Debug, Clone, PartialEq)]
pub struct PortalAction {
    /// Action name exactly as the app sent it.
    pub name: String,
    /// Optional GVariant parameter.
    pub target: Option<Variant>,
    /// The button's purpose (portal v2), if declared.
    pub purpose: Option<ButtonPurpose>,
}

/// Everything needed to dispatch a portal notification's actions.
#[derive(Debug, Clone, PartialEq)]
pub struct PortalDispatch {
    /// The sandboxed app's id.
    pub app_id: String,
    /// The app-chosen notification id.
    pub portal_id: String,
    /// The `default-action` (body click), if declared.
    pub default_action: Option<PortalAction>,
    /// Button actions, one per action name.
    pub button_actions: Vec<PortalAction>,
    /// The `im.reply-with-text` button's action, if one was declared.
    pub reply_action: Option<PortalAction>,
}

/// Where a notification came from, and how its actions are dispatched.
#[derive(Debug, Clone, PartialEq)]
pub enum NotificationSource {
    /// `org.freedesktop.Notifications`.
    Freedesktop(FreedesktopDispatch),
    /// `org.gtk.Notifications`.
    Gtk(GtkDispatch),
    /// `org.freedesktop.impl.portal.Notification`.
    Portal(PortalDispatch),
}

/// A fully-translated notification.
#[derive(Debug, Clone, PartialEq)]
pub struct NotificationProps {
    /// The identity.
    pub id: NotificationId,
    /// When it was received, in milliseconds since the Unix epoch.
    pub timestamp: i64,
    /// How its actions are dispatched back to the app.
    pub dispatch: NotificationSource,
    /// The sending application.
    pub origin: Origin,
    /// The renderable text.
    pub content: Content,
    /// Large content image.
    pub image: Option<Image>,
    /// The interaction surface.
    pub actions: Actions,
    /// Audio-feedback intent.
    pub alert: Alert,
    /// Priority, category and behavior axes.
    pub classification: Classification,
    /// Timeout policy + manual-dismiss lock.
    pub lifecycle: Lifecycle,
    /// Routing, lock-screen privacy, re-alert.
    pub presentation: Presentation,
}

/// The names of a list of GTK actions.
pub open spec fn gtk_action_names(actions: Seq<GtkAction>) -> Seq<Seq<char>> {
    actions.map_values(|a: GtkAction| a.name@)
}

/// The names of a list of portal actions.
pub open spec fn portal_action_names(actions: Seq<PortalAction>) -> Seq<Seq<char>> {
    actions.map_values(|a: PortalAction| a.name@)
}

/// The first GTK action named `name`.
pub open spec fn first_named(actions: Seq<GtkAction>, name: Seq<char>) -> Option<GtkAction>
    decreases actions.len(),
{
    if actions.len() == 0 {
        None
    } else if actions[0].name@ == name {
        Some(actions[0])
    } else {
        first_named(actions.drop_first(), name)
    }
}

/// The first portal action named `name`.
pub open spec fn first_named_portal(actions: Seq<PortalAction>, name: Seq<char>) -> Option<
    PortalAction,
>
    decreases actions.len(),
{
    if actions.len() == 0 {
        None
    } else if actions[0].name@ == name {
        Some(actions[0])
    } else {
        first_named_portal(actions.drop_first(), name)
    }
}

/// The button action named `name` (the first with that name).
pub fn find_gtk_action<'a>(actions: &'a [GtkAction], name: &str) -> (r: Option<&'a GtkAction>)
    ensures
        match r {
            Some(a) => first_named(actions@, name@) == Some(*a),
            None => first_named(actions@, name@) is None,
        },
{
    let mut i: usize = 0;
    assert(actions@.skip(0) =~= actions@);
    while i < actions.len()
        invariant
            i <= actions.len(),
            first_named(actions@, name@) == first_named(actions@.skip(i as int), name@),
        decreases actions.len() - i,
    {
        proof {
            assert(actions@.skip(i as int).drop_first() =~= actions@.skip(i + 1));
        }
        if str_eq(actions[i].name.as_str(), name) {
            return Some(&actions[i]);
        }
        i = i + 1;
    }
    None
}

/// The portal button action named `name` (the first with that name).
pub fn find_portal_action<'a>(actions: &'a [PortalAction], name: &str) -> (r: Option<
    &'a PortalAction,
>)
    ensures
        match r {
            Some(a) => first_named_portal(actions@, name@) == Some(*a),
            None => first_named_portal(actions@, name@) is None,
        },
{
    let mut i: usize = 0;
    assert(actions@.skip(0) =~= actions@);
    while i < actions.len()
        invariant
            i <= actions.len(),
            first_named_portal(actions@, name@) == first_named_portal(
                actions@.skip(i as int),
                name@,
            ),
        decreases actions.len() - i,
    {
        proof {
            assert(actions@.skip(i as int).drop_first() =~= actions@.skip(i + 1));
        }
        if str_eq(actions[i].name.as_str(), name) {
            return Some(&actions[i]);
        }
        i = i + 1;
    }
    None
}

impl GtkDispatch {
    /// The button action named `name`.
    pub fn button_action(&self, name: &str) -> (r: Option<&GtkAction>)
        ensures
            match r {
                Some(a) => first_named(self.button_actions@, name@) == Some(*a),
                None => first_named(self.button_actions@, name@) is None,
            },
    {
        find_gtk_action(self.button_actions.as_slice(), name)
    }
}

impl PortalDispatch {
    /// The button action named `name`.
    pub fn button_action(&self, name: &str) -> (r: Option<&PortalAction>)
        ensures
            match r {
                Some(a) => first_named_portal(self.button_actions@, name@) == Some(*a),
                None => first_named_portal(self.button_actions@, name@) is None,
            },
    {
        find_portal_action(self.button_actions.as_slice(), name)
    }
}

} // verus!
