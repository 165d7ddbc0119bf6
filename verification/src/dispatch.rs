//! How an interaction with a notification reaches the app that sent it. Each protocol
//! decides which bus calls to make (and in which order); the caller performs them in order
//! and stops at the first that fails.
use vstd::prelude::*;
use crate::hints::{Variant, clone_variant, same_value};
use crate::model::{
    ActionId, FreedesktopDispatch, GtkAction, GtkDispatch, NotificationSource, PortalAction,
    PortalDispatch, Uri, default_key, first_named, first_named_portal,
};
use crate::text::{chars_of, contains_str, owned, push_char, str_starts_with, string_from_chars, slice_from};
use crate::types::{ClosedReason, Signal, closed_reason_code};
use crate::wire_registry::opt_str;

verus! {

/// The argument a freedesktop notifications signal carries after the wire id.
#[derive(Debug, PartialEq)]
pub enum FdoArgument {
    /// A string: the activation token, the action key, or the reply text.
    Text(String),
    /// A number: the close reason code.
    Code(u32),
}

/// One bus operation an interaction calls for.
#[derive(Debug, PartialEq)]
pub enum BusCall {
    /// Open a URI through the desktop portal's `OpenURI`.
    OpenUri(String),
    /// A signal on the freedesktop notifications interface, directed to the connection that
    /// owns the notification, about its wire id.
    FdoSignal { owner: String, wire_id: u32, signal: Signal, argument: FdoArgument },
    /// `org.freedesktop.Application.Activate(platform_data)` on the app's bus name and path:
    /// raises, or cold-launches, the app. A best-effort raise that fails counts as done.
    Activate { app_id: String, path: String, platform_data: Vec<(String, String)>, best_effort: bool },
    /// `org.freedesktop.Application.ActivateAction(action, parameter, platform_data)`.
    ActivateAction {
        app_id: String,
        path: String,
        action: String,
        parameter: Vec<Variant>,
        platform_data: Vec<(String, String)>,
    },
    /// The broadcast `org.gtk.Notifications.ActionInvoked(app_id, id, action, parameter,
    /// platform_data)` signal.
    GtkActionInvoked {
        app_id: String,
        gtk_id: String,
        action: String,
        parameter: Vec<Variant>,
        platform_data: Vec<(String, String)>,
    },
    /// The portal backend's broadcast `ActionInvoked(app_id, id, action, parameter)` signal.
    PortalActionInvoked { app_id: String, portal_id: String, action: String, parameter: Vec<Variant> },
}

/// The `"app."` prefix on a GNotification action that lives in the app's action group.
pub open spec fn app_prefix() -> Seq<char> {
    "app."@
}

/// A character of an app id as it appears in its object path.
pub open spec fn path_char(c: char) -> char {
    if c == '.' {
        '/'
    } else if c == '-' {
        '_'
    } else {
        c
    }
}

/// The characters of an app id as they appear in its object path.
pub open spec fn path_chars(s: Seq<char>) -> Seq<char> {
    s.map_values(|c: char| path_char(c))
}

/// The `org.freedesktop.Application` object path of `app_id`: `/` followed by the id with
/// `.` turned into `/` and `-` into `_`.
pub open spec fn object_path(app_id: Seq<char>) -> Seq<char> {
    seq!['/'] + path_chars(app_id)
}

/// The views of string pairs.
pub open spec fn pairs_view(v: Seq<(String, String)>) -> Seq<(Seq<char>, Seq<char>)> {
    v.map_values(|p: (String, String)| (p.0@, p.1@))
}

/// The `org.freedesktop.Application` platform data carrying the shell's focus token under
/// `desktop-startup-id` (the legacy alias) and `activation-token`; empty without a token.
pub open spec fn platform_data_spec(token: Option<Seq<char>>) -> Seq<(Seq<char>, Seq<char>)> {
    match token {
        Some(t) => seq![("desktop-startup-id"@, t), ("activation-token"@, t)],
        None => Seq::empty(),
    }
}

/// `c` is the freedesktop signal `signal` about `wire_id` with a text argument, directed to
/// `owner`.
pub open spec fn is_fdo_text(c: BusCall, owner: Seq<char>, wire_id: u32, signal: Signal, text: Seq<char>) -> bool {
    c matches BusCall::FdoSignal { owner: o, wire_id: w, signal: s, argument: FdoArgument::Text(t) }
        && o@ == owner && w == wire_id && s == signal && t@ == text
}

/// `c` raises `app_id` with the platform data for `token`.
pub open spec fn is_activate(c: BusCall, app_id: Seq<char>, token: Option<Seq<char>>, best_effort: bool) -> bool {
    c matches BusCall::Activate { app_id: a, path, platform_data, best_effort: b } && b == best_effort && a@ == app_id && path@
        == object_path(app_id) && pairs_view(platform_data@) == platform_data_spec(token)
}

/// `parameter` is the action's target, if it has one, as a zero- or one-element array.
pub open spec fn carries_target(parameter: Seq<Variant>, target: Option<Variant>) -> bool {
    match target {
        Some(t) => parameter.len() == 1 && same_value(parameter[0], t),
        None => parameter.len() == 0,
    }
}

/// What a freedesktop notification's dispatch sends: a body click on a notification with links
/// opens its first link; otherwise, with a known owner, `ActivationToken` (when there is a
/// token) then `ActionInvoked`, both directed to the owner; otherwise nothing.
pub open spec fn fdo_dispatched(
    d: FreedesktopDispatch,
    urls: Seq<Uri>,
    token: Option<Seq<char>>,
    action: Seq<char>,
    r: Seq<BusCall>,
) -> bool {
    if action == default_key() && urls.len() > 0 {
        r.len() == 1 && (r[0] matches BusCall::OpenUri(u) && u@ == urls[0]@)
    } else {
        match d.owner {
            None => r.len() == 0,
            Some(o) => {
                &&& r.len() == (if token is Some { 2int } else { 1int })
                &&& is_fdo_text(r.last(), o@, d.wire_id, Signal::ActionInvoked, action)
                &&& token matches Some(t) ==> is_fdo_text(
                    r[0],
                    o@,
                    d.wire_id,
                    Signal::ActivationToken,
                    t,
                )
            },
        }
    }
}

/// What a GTK notification's dispatch sends: the chosen action (the default action, or the
/// first button of that name) with an `app.` name goes to the app's action group with the
/// prefix stripped, any other name comes back as the `ActionInvoked` signal, and no chosen
/// action raises the app. Each carries the target, if any, and the focus token.
pub open spec fn gtk_dispatched(d: GtkDispatch, token: Option<Seq<char>>, action: Seq<char>, r: BusCall) -> bool {
    let chosen = if action == default_key() {
        d.default_action
    } else {
        first_named(d.button_actions@, action)
    };
    match chosen {
        None => is_activate(r, d.app_id@, token, false),
        Some(a) => if app_prefix().is_prefix_of(a.name@) {
            r matches BusCall::ActivateAction { app_id, path, action: name, parameter, platform_data }
                && app_id@ == d.app_id@ && path@ == object_path(d.app_id@) && name@ == a.name@.skip(4)
                && carries_target(parameter@, a.target) && pairs_view(platform_data@)
                == platform_data_spec(token)
        } else {
            r matches BusCall::GtkActionInvoked { app_id, gtk_id, action: name, parameter, platform_data }
                && app_id@ == d.app_id@ && gtk_id@ == d.gtk_id@ && name@ == a.name@
                && carries_target(parameter@, a.target) && pairs_view(platform_data@)
                == platform_data_spec(token)
        },
    }
}

/// `v` is the portal platform data `{"activation-token": <t>}`.
pub open spec fn is_token_dict(v: Variant, t: Seq<char>) -> bool {
    v matches Variant::Dict(ks, vs, entries) && ks@ == "s"@ && vs@ == "v"@ && entries@.len() == 1 && (entries@[0].0 matches Variant::Str(
        k,
    ) && k@ == "activation-token"@) && (entries@[0].1 matches Variant::Value(b) && (*b matches Variant::Str(
        x,
    ) && x@ == t))
}

/// A portal `ActionInvoked` parameter: the target, if any, then the platform data with the
/// focus token, if there is one.
pub open spec fn portal_parameter(p: Seq<Variant>, target: Option<Variant>, token: Option<Seq<char>>) -> bool {
    let n: int = if target is Some { 1 } else { 0 };
    &&& carries_target(p.take(n), target)
    &&& match token {
        Some(t) => p.len() == n + 1 && is_token_dict(p[n], t),
        None => p.len() == n,
    }
}

/// `c` is the portal `ActionInvoked` for `a` of the notification `d`.
pub open spec fn is_portal_invoked(c: BusCall, d: PortalDispatch, a: PortalAction) -> bool {
    c matches BusCall::PortalActionInvoked { app_id, portal_id, action, .. } && app_id@ == d.app_id@
        && portal_id@ == d.portal_id@ && action@ == a.name@
}

/// What a portal notification's dispatch sends: the chosen action (the default action, or the
/// first button of that name) as the portal `ActionInvoked` with its target and the focus
/// token; a body click with no default action raises the app (best effort: an app that
/// cannot be activated is no failure); an unknown button sends
/// nothing.
pub open spec fn portal_dispatched(
    d: PortalDispatch,
    token: Option<Seq<char>>,
    action: Seq<char>,
    r: Option<BusCall>,
) -> bool {
    let chosen = if action == default_key() {
        d.default_action
    } else {
        first_named_portal(d.button_actions@, action)
    };
    match chosen {
        None => if action == default_key() {
            r matches Some(c) && is_activate(c, d.app_id@, token, true)
        } else {
            r is None
        },
        Some(a) => r matches Some(c) && is_portal_invoked(c, d, a) && (c matches BusCall::PortalActionInvoked {
            parameter,
            ..
        } && portal_parameter(parameter@, a.target, token)),
    }
}

/// What a portal inline reply sends: the reply button's `ActionInvoked` with its target and
/// then the typed text; nothing when no reply button was declared.
pub open spec fn portal_replied(d: PortalDispatch, text: Seq<char>, r: Option<BusCall>) -> bool {
    match d.reply_action {
        None => r is None,
        Some(a) => r matches Some(c) && is_portal_invoked(c, d, a) && (c matches BusCall::PortalActionInvoked {
            parameter,
            ..
        } && {
            let n: int = if a.target is Some { 1 } else { 0 };
            &&& parameter@.len() == n + 1
            &&& carries_target(parameter@.take(n), a.target)
            &&& parameter@[n] matches Variant::Str(x) && x@ == text
        }),
    }
}

/// What a notification's dispatch sends, by its protocol.
pub open spec fn source_dispatched(
    src: NotificationSource,
    urls: Seq<Uri>,
    token: Option<Seq<char>>,
    action: Seq<char>,
    r: Seq<BusCall>,
) -> bool {
    match src {
        NotificationSource::Freedesktop(d) => fdo_dispatched(d, urls, token, action, r),
        NotificationSource::Gtk(d) => r.len() == 1 && gtk_dispatched(d, token, action, r[0]),
        NotificationSource::Portal(d) => r.len() <= 1 && portal_dispatched(
            d,
            token,
            action,
            if r.len() == 0 {
                None
            } else {
                Some(r[0])
            },
        ),
    }
}

/// What an inline reply sends, by protocol: freedesktop a `NotificationReplied` signal with
/// the text to a known owner; GNotification nothing; the portal its reply button's
/// `ActionInvoked` (see [`portal_replied`]).
pub open spec fn source_replied(s: NotificationSource, text: Seq<char>, r: Option<BusCall>) -> bool {
    match s {
        NotificationSource::Freedesktop(d) => match d.owner {
            None => r is None,
            Some(o) => r matches Some(c) && is_fdo_text(c, o@, d.wire_id, Signal::NotificationReplied, text),
        },
        NotificationSource::Gtk(_) => r is None,
        NotificationSource::Portal(d) => portal_replied(d, text, r),
    }
}

/// `r` is the close-back signal of `s` for `reason`: `NotificationClosed(wire_id, code)`
/// directed to the owner of a freedesktop notification that has one; nothing otherwise.
pub open spec fn closes_back(s: NotificationSource, reason: ClosedReason, r: Option<BusCall>) -> bool {
    match s {
        NotificationSource::Freedesktop(d) => match d.owner {
            None => r is None,
            Some(o) => r matches Some(
                BusCall::FdoSignal { owner, wire_id, signal, argument: FdoArgument::Code(code) },
            ) && owner@ == o@ && wire_id == d.wire_id && signal == Signal::NotificationClosed
                && code == closed_reason_code(reason),
        },
        _ => r is None,
    }
}

/// The object path of `app_id`.
pub fn gtk_object_path(app_id: &str) -> (r: String)
    ensures
        r@ == object_path(app_id@),
{
    let chars = chars_of(app_id);
    let mut path = String::new();
    push_char(&mut path, '/');
    let mut i: usize = 0;
    while i < chars.len()
        invariant
            i <= chars@.len(),
            path@ == seq!['/'] + path_chars(chars@.take(i as int)),
        decreases chars@.len() - i,
    {
        let c = chars[i];
        let mapped = if c == '.' {
            '/'
        } else if c == '-' {
            '_'
        } else {
            c
        };
        push_char(&mut path, mapped);
        proof {
            assert(path_chars(chars@.take(i + 1)) =~= path_chars(chars@.take(i as int)).push(
                path_char(c),
            ));
            assert(seq!['/'] + path_chars(chars@.take(i + 1)) =~= (seq!['/'] + path_chars(
                chars@.take(i as int),
            )).push(path_char(c)));
        }
        i = i + 1;
    }
    proof {
        assert(chars@.take(chars@.len() as int) =~= chars@);
    }
    path
}

/// The platform data handing the shell's focus token to an app.
pub fn platform_data(token: Option<&str>) -> (r: Vec<(String, String)>)
    ensures
        pairs_view(r@) == platform_data_spec(opt_str(token)),
{
    let mut data: Vec<(String, String)> = Vec::new();
    if let Some(t) = token {
        data.push((owned("desktop-startup-id"), owned(t)));
        data.push((owned("activation-token"), owned(t)));
    }
    proof {
        assert(pairs_view(data@) =~= platform_data_spec(opt_str(token)));
    }
    data
}

/// A zero- or one-element array holding a copy of `target`.
fn target_parameter(target: &Option<Variant>) -> (r: Vec<Variant>)
    ensures
        carries_target(r@, *target),
{
    let mut parameter: Vec<Variant> = Vec::new();
    if let Some(t) = target {
        parameter.push(clone_variant(t));
    }
    parameter
}

/// `raise` for the app `app_id` with the shell's focus token.
fn activate_call(app_id: &str, token: Option<&str>, best_effort: bool) -> (r: BusCall)
    ensures
        is_activate(r, app_id@, opt_str(token), best_effort),
{
    BusCall::Activate {
        app_id: owned(app_id),
        path: gtk_object_path(app_id),
        platform_data: platform_data(token),
        best_effort,
    }
}

/// A directed freedesktop signal with a text argument.
fn fdo_text(owner: &str, wire_id: u32, signal: Signal, text: &str) -> (r: BusCall)
    ensures
        is_fdo_text(r, owner@, wire_id, signal, text@),
{
    BusCall::FdoSignal { owner: owned(owner), wire_id, signal, argument: FdoArgument::Text(owned(text)) }
}

impl FreedesktopDispatch {
    /// Dispatches a button, or the default action. A body click on a notification with links
    /// opens its first link (taking precedence over any default action). Otherwise, with a
    /// known owner, the focus token (when the shell minted one) goes out as `ActivationToken`
    /// just before `ActionInvoked`, both directed to the owner; with no known owner nothing
    /// is sent rather than broadcast.
    pub fn dispatch_action(&self, urls: &[Uri], token: Option<&str>, action: &ActionId) -> (r: Vec<
        BusCall,
    >)
        ensures
            fdo_dispatched(*self, urls@, opt_str(token), action@, r@),
    {
        let mut calls: Vec<BusCall> = Vec::new();
        if action.is_default() && urls.len() > 0 {
            calls.push(BusCall::OpenUri(owned(urls[0].as_str())));
            return calls;
        }
        match &self.owner {
            None => calls,
            Some(owner) => {
                if let Some(t) = token {
                    calls.push(fdo_text(owner.as_str(), self.wire_id, Signal::ActivationToken, t));
                }
                calls.push(fdo_text(owner.as_str(), self.wire_id, Signal::ActionInvoked, action.as_str()));
                calls
            },
        }
    }

    /// KDE-style inline reply: `NotificationReplied(wire_id, text)` directed to the owner;
    /// nothing (not delivered) without a known owner.
    pub fn reply(&self, text: &str) -> (r: Option<BusCall>)
        ensures
            self.owner is None ==> r is None,
            self.owner matches Some(o) ==> (r matches Some(c) && is_fdo_text(
                c,
                o@,
                self.wire_id,
                Signal::NotificationReplied,
                text@,
            )),
    {
        match &self.owner {
            None => None,
            Some(owner) => Some(fdo_text(owner.as_str(), self.wire_id, Signal::NotificationReplied, text)),
        }
    }

    /// `NotificationClosed(wire_id, reason)` directed to the owner; nothing without one.
    pub fn close(&self, reason: ClosedReason) -> (r: Option<BusCall>)
        ensures
            self.owner is None ==> r is None,
            self.owner matches Some(o) ==> (r matches Some(
                BusCall::FdoSignal { owner, wire_id, signal, argument: FdoArgument::Code(code) },
            ) && owner@ == o@ && wire_id == self.wire_id && signal == Signal::NotificationClosed
                && code == closed_reason_code(reason)),
    {
        match &self.owner {
            None => None,
            Some(owner) => Some(
                BusCall::FdoSignal {
                    owner: owned(owner.as_str()),
                    wire_id: self.wire_id,
                    signal: Signal::NotificationClosed,
                    argument: FdoArgument::Code(reason.code()),
                },
            ),
        }
    }

    /// The actions can never fire again once the owner is gone from the bus (or was never
    /// known).
    pub fn is_unreachable(&self, live: &[String]) -> (r: bool)
        ensures
            r == match self.owner {
                Some(o) => !(exists|i: int| 0 <= i < live@.len() && #[trigger] live@[i]@ == o@),
                None => true,
            },
    {
        match &self.owner {
            Some(owner) => !contains_str(live, owner.as_str()),
            None => true,
        }
    }
}

impl GtkDispatch {
    /// Dispatches like GNOME Shell: the default action (or the named button) with an `app.`
    /// name goes to the app's action group via `ActivateAction` (the prefix stripped), any
    /// other name comes back as the `ActionInvoked` signal, and a body click with no default
    /// action (or an unknown button) raises the app. Each carries the target, if any, and the
    /// focus token.
    pub fn dispatch_action(&self, token: Option<&str>, action: &ActionId) -> (r: BusCall)
        ensures
            gtk_dispatched(*self, opt_str(token), action@, r),
    {
        let chosen: Option<&GtkAction> = if action.is_default() {
            self.default_action.as_ref()
        } else {
            self.button_action(action.as_str())
        };
        match chosen {
            None => activate_call(self.app_id.as_str(), token, false),
            Some(a) => {
                let parameter = target_parameter(&a.target);
                let data = platform_data(token);
                if str_starts_with(a.name.as_str(), "app.") {
                    let name_chars = chars_of(a.name.as_str());
                    proof {
                        reveal_strlit("app.");
                        assert(app_prefix().len() == 4);
                    }
                    let stripped = slice_from(name_chars.as_slice(), 4);
                    BusCall::ActivateAction {
                        app_id: owned(self.app_id.as_str()),
                        path: gtk_object_path(self.app_id.as_str()),
                        action: string_from_chars(stripped.as_slice()),
                        parameter,
                        platform_data: data,
                    }
                } else {
                    BusCall::GtkActionInvoked {
                        app_id: owned(self.app_id.as_str()),
                        gtk_id: owned(self.gtk_id.as_str()),
                        action: owned(a.name.as_str()),
                        parameter,
                        platform_data: data,
                    }
                }
            },
        }
    }

    /// A GTK notification stays reachable while its app owns its bus name or can be
    /// D-Bus-activated.
    pub fn is_unreachable(&self, live: &[String], activatable: &[String]) -> (r: bool)
        ensures
            r == (!(exists|i: int| 0 <= i < live@.len() && #[trigger] live@[i]@ == self.app_id@)
                && !(exists|i: int|
                0 <= i < activatable@.len() && #[trigger] activatable@[i]@ == self.app_id@)),
    {
        !contains_str(live, self.app_id.as_str()) && !contains_str(
            activatable,
            self.app_id.as_str(),
        )
    }
}

impl PortalDispatch {
    /// Dispatches the default action or a button through the portal frontend (which handles
    /// the `app.` prefix and launching itself); a body click with no default action raises
    /// the app directly, and an unknown button is a no-op.
    pub fn dispatch_action(&self, token: Option<&str>, action: &ActionId) -> (r: Option<BusCall>)
        ensures
            portal_dispatched(*self, opt_str(token), action@, r),
    {
        let is_default = action.is_default();
        let chosen: Option<&PortalAction> = if is_default {
            self.default_action.as_ref()
        } else {
            self.button_action(action.as_str())
        };
        match chosen {
            None => {
                if is_default {
                    Some(activate_call(self.app_id.as_str(), token, true))
                } else {
                    None
                }
            },
            Some(a) => {
                let mut parameter = target_parameter(&a.target);
                let ghost n: int = if a.target is Some { 1 } else { 0 };
                let ghost before = parameter@;
                if let Some(t) = token {
                    parameter.push(token_dict(t));
                }
                proof {
                    assert(parameter@.take(n) =~= before);
                }
                Some(
                    BusCall::PortalActionInvoked {
                        app_id: owned(self.app_id.as_str()),
                        portal_id: owned(self.portal_id.as_str()),
                        action: owned(a.name.as_str()),
                        parameter,
                    },
                )
            },
        }
    }

    /// An inline reply: the reply button's `ActionInvoked` with the text appended to its
    /// parameter; nothing (not delivered) when no reply button was declared.
    pub fn reply(&self, text: &str) -> (r: Option<BusCall>)
        ensures
            portal_replied(*self, text@, r),
    {
        match &self.reply_action {
            None => None,
            Some(a) => {
                let mut parameter = target_parameter(&a.target);
                let ghost n: int = if a.target is Some { 1 } else { 0 };
                let ghost before = parameter@;
                parameter.push(Variant::Str(owned(text)));
                proof {
                    assert(parameter@.take(n) =~= before);
                }
                Some(
                    BusCall::PortalActionInvoked {
                        app_id: owned(self.app_id.as_str()),
                        portal_id: owned(self.portal_id.as_str()),
                        action: owned(a.name.as_str()),
                        parameter,
                    },
                )
            },
        }
    }
}

/// The portal platform data `{"activation-token": <token>}`.
fn token_dict(token: &str) -> (r: Variant)
    ensures
        is_token_dict(r, token@),
{
    let mut entries: Vec<(Variant, Variant)> = Vec::new();
    entries.push(
        (Variant::Str(owned("activation-token")), Variant::Value(Box::new(Variant::Str(owned(token))))),
    );
    Variant::Dict(owned("s"), owned("v"), entries)
}

impl NotificationSource {
    /// Dispatches a button, or the default action, the way the notification's protocol does.
    pub fn dispatch_action(&self, urls: &[Uri], token: Option<&str>, action: &ActionId) -> (r: Vec<
        BusCall,
    >)
        ensures
            source_dispatched(*self, urls@, opt_str(token), action@, r@),
    {
        match self {
            NotificationSource::Freedesktop(d) => d.dispatch_action(urls, token, action),
            NotificationSource::Gtk(d) => {
                let mut calls: Vec<BusCall> = Vec::new();
                calls.push(d.dispatch_action(token, action));
                calls
            },
            NotificationSource::Portal(d) => {
                let mut calls: Vec<BusCall> = Vec::new();
                if let Some(c) = d.dispatch_action(token, action) {
                    calls.push(c);
                }
                calls
            },
        }
    }

    /// Delivers an inline reply when the protocol has one (GNotification has none).
    pub fn reply(&self, text: &str) -> (r: Option<BusCall>)
        ensures
            source_replied(*self, text@, r),
    {
        match self {
            NotificationSource::Freedesktop(d) => d.reply(text),
            NotificationSource::Gtk(_) => None,
            NotificationSource::Portal(d) => d.reply(text),
        }
    }

    /// The close-back signal, which only freedesktop has.
    pub fn close(&self, reason: ClosedReason) -> (r: Option<BusCall>)
        ensures
            closes_back(*self, reason, r),
    {
        match self {
            NotificationSource::Freedesktop(d) => d.close(reason),
            _ => None,
        }
    }

    /// Whether the notification's actions can never fire again, given the bus names that are
    /// `live` and those that are `activatable`: freedesktop when its owner is gone, GTK when
    /// its app is neither running nor activatable, portal never.
    pub fn is_unreachable(&self, live: &[String], activatable: &[String]) -> (r: bool)
        ensures
            r == match *self {
                NotificationSource::Freedesktop(d) => match d.owner {
                    Some(o) => !(exists|i: int| 0 <= i < live@.len() && #[trigger] live@[i]@ == o@),
                    None => true,
                },
                NotificationSource::Gtk(d) => !(exists|i: int|
                    0 <= i < live@.len() && #[trigger] live@[i]@ == d.app_id@) && !(exists|i: int|
                    0 <= i < activatable@.len() && #[trigger] activatable@[i]@ == d.app_id@),
                NotificationSource::Portal(_) => false,
            },
    {
        match self {
            NotificationSource::Freedesktop(d) => d.is_unreachable(live),
            NotificationSource::Gtk(d) => d.is_unreachable(live, activatable),
            NotificationSource::Portal(_) => false,
        }
    }

    /// The bus name whose disappearance can invalidate the actions: the freedesktop owner, the
    /// GTK app id; none for portal.
    pub fn dispatch_target(&self) -> (r: Option<&str>)
        ensures
            opt_str(r) == match *self {
                NotificationSource::Freedesktop(d) => match d.owner {
                    Some(o) => Some(o@),
                    None => None,
                },
                NotificationSource::Gtk(d) => Some(d.app_id@),
                NotificationSource::Portal(_) => None,
            },
    {
        match self {
            NotificationSource::Freedesktop(d) => match &d.owner {
                Some(o) => Some(o.as_str()),
                None => None,
            },
            NotificationSource::Gtk(d) => Some(d.app_id.as_str()),
            NotificationSource::Portal(_) => None,
        }
    }

    /// Only a GTK notification can arrive already unreachable (its app neither running nor
    /// activatable), so only it is checked at ingest.
    pub fn may_be_unreachable_at_ingest(&self) -> (r: bool)
        ensures
            r == (*self is Gtk),
    {
        match self {
            NotificationSource::Gtk(_) => true,
            _ => false,
        }
    }
}

} // verus!
