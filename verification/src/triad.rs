//! The Triad compositor: its state types, the line-delimited JSON protocol's requests and
//! replies, and how the service's state follows the compositor's snapshots and events.
use vstd::prelude::*;
use std::collections::HashMap;
use crate::text::{chars_of, owned, str_eq};
use vstd::std_specs::cmp::PartialEqSpecImpl;
use serde_json::Value;

verus! {

broadcast use vstd::std_specs::hash::group_hash_axioms;

/// Which socket role a connection error refers to.
#[derive(Debug, Clone, Copy, PartialEq, Eq, Structural)]
pub enum SocketKind {
    /// The short-lived socket used for request/reply command traffic.
    Command,
    /// The subscribed socket used for compositor events.
    EventStream,
}

impl SocketKind {
    /// The role's name in messages.
    pub fn as_str(&self) -> (r: &'static str)
        ensures
            r@ == match *self {
                SocketKind::Command => "command"@,
                SocketKind::EventStream => "event-stream"@,
            },
    {
        match self {
            SocketKind::Command => "command",
            SocketKind::EventStream => "event-stream",
        }
    }
}

/// Desktop capabilities reported by Triad.
#[derive(Debug, Clone, Copy, Default, PartialEq, Eq, Structural)]
pub struct Capabilities {
    /// Whether the native event stream is available.
    pub event_stream: bool,
    /// Whether full state snapshots are available.
    pub state: bool,
    /// Whether layout snapshots are available.
    pub layout_state: bool,
    /// Whether overview state is available.
    pub overview: bool,
    /// Whether workspace switching is supported.
    pub workspace_switching: bool,
    /// Whether window focusing is supported.
    pub window_focus: bool,
    /// Whether window closing is supported.
    pub window_close: bool,
    /// Whether commands can be spawned.
    pub spawn: bool,
    /// Whether keyboard layout switching is supported.
    pub keyboard_layout: bool,
    /// Whether workspace urgency is supported.
    pub workspace_urgency: bool,
}

/// Keyboard layouts reported by Triad.
#[derive(Debug, Clone, Default, PartialEq, Eq)]
pub struct KeyboardLayouts {
    /// Layout names in compositor order.
    pub names: Vec<String>,
    /// Active layout index.
    pub current_idx: u32,
}

/// Keyboard layout switch target.
#[derive(Debug, Clone, Copy, PartialEq, Eq, Structural)]
pub enum KeyboardLayoutTarget {
    /// Switch to the next layout.
    Next,
    /// Switch to the previous layout.
    Previous,
    /// Switch to a specific layout index.
    Index(u32),
}

/// Integer point.
#[derive(Debug, Clone, Copy, Default, PartialEq, Eq, Structural)]
pub struct Point {
    /// X coordinate.
    pub x: i32,
    /// Y coordinate.
    pub y: i32,
}

/// Integer size.
#[derive(Debug, Clone, Copy, Default, PartialEq, Eq, Structural)]
pub struct Size {
    /// Width.
    pub width: i32,
    /// Height.
    pub height: i32,
}

/// Integer rectangle.
#[derive(Debug, Clone, Copy, Default, PartialEq, Eq, Structural)]
pub struct Geometry {
    /// X coordinate.
    pub x: i32,
    /// Y coordinate.
    pub y: i32,
    /// Width.
    pub width: i32,
    /// Height.
    pub height: i32,
}

/// Window position inside a workspace layout.
#[derive(Debug, Clone, Copy, Default, PartialEq, Eq, Structural)]
pub struct WindowPosition {
    /// Column index, when the active layout exposes one.
    pub column_idx: Option<u32>,
    /// Window index inside its column or container.
    pub window_idx: Option<u32>,
}

/// Event emitted after the service state is refreshed.
#[derive(Debug, Clone, Copy, PartialEq, Eq, Structural)]
pub enum TriadEvent {
    /// A full state snapshot changed.
    StateChanged,
    /// The layout/workspace snapshot changed.
    LayoutStateChanged,
    /// A single window changed.
    WindowChanged {
        /// Window id, when the event contained one.
        window_id: Option<u64>,
    },
}

/// A workspace as the compositor reports it. Two workspaces are equal when they have the
/// same tag id.
#[derive(Debug, Clone, Default)]
pub struct Workspace {
    /// Stable tag id.
    pub tag_id: u64,
    /// User-facing workspace index.
    pub workspace_idx: u32,
    /// Optional workspace name.
    pub name: Option<String>,
    /// Connector name of its output.
    pub output: Option<String>,
    /// Current layout name.
    pub layout: String,
    /// Whether it has focus.
    pub is_active: bool,
    /// Whether it is visible on an output.
    pub is_output_visible: bool,
    /// Whether a window on it requested attention.
    pub is_urgent: bool,
    /// Whether it contains windows.
    pub occupied: bool,
    /// The focused window on it.
    pub focused_window_id: Option<u64>,
}

/// A toplevel window as the compositor reports it. Two windows are equal when they have the
/// same id.
#[derive(Debug, Clone, Default)]
pub struct Window {
    /// Stable window id.
    pub id: u64,
    /// Title, if set.
    pub title: Option<String>,
    /// Wayland application id, if set.
    pub app_id: Option<String>,
    /// PID, if known.
    pub pid: Option<i32>,
    /// Workspace tag id.
    pub tag_id: Option<u64>,
    /// User-facing workspace index.
    pub workspace_idx: Option<u32>,
    /// Connector name of its output.
    pub output: Option<String>,
    /// Position inside the layout.
    pub position: WindowPosition,
    /// Whether it has input focus.
    pub is_focused: bool,
    /// Whether it floats.
    pub is_floating: bool,
}

impl PartialEq for Workspace {
    fn eq(&self, other: &Self) -> (r: bool) {
        self.tag_id == other.tag_id
    }
}

impl PartialEqSpecImpl for Workspace {
    open spec fn obeys_eq_spec() -> bool {
        true
    }

    open spec fn eq_spec(&self, other: &Self) -> bool {
        self.tag_id == other.tag_id
    }
}

impl PartialEq for Window {
    fn eq(&self, other: &Self) -> (r: bool) {
        self.id == other.id
    }
}

impl PartialEqSpecImpl for Window {
    open spec fn obeys_eq_spec() -> bool {
        true
    }

    open spec fn eq_spec(&self, other: &Self) -> bool {
        self.id == other.id
    }
}

/// A JSON number.
#[derive(Debug, PartialEq)]
pub enum JsonNumber {
    /// A non-negative integer.
    Unsigned(u64),
    /// A negative integer.
    Signed(i64),
    /// Any other number, in its textual form.
    Text(String),
}

/// A JSON value.
#[derive(Debug, PartialEq)]
pub enum Json {
    /// `null`.
    Null,
    /// `true` / `false`.
    Bool(bool),
    /// A number.
    Number(JsonNumber),
    /// A string.
    Str(String),
    /// An array.
    Array(Vec<Json>),
    /// An object, one entry per key.
    Object(Vec<(String, Json)>),
}

/// The member `key` of an object (nothing for other values).
pub open spec fn member(v: Json, key: Seq<char>) -> Option<Json> {
    match v {
        Json::Object(entries) => member_of(entries@, key),
        _ => None,
    }
}

/// The first entry keyed `key`.
pub open spec fn member_of(entries: Seq<(String, Json)>, key: Seq<char>) -> Option<Json>
    decreases entries.len(),
{
    if entries.len() == 0 {
        None
    } else if entries[0].0@ == key {
        Some(entries[0].1)
    } else {
        member_of(entries.drop_first(), key)
    }
}

/// Takes the member `key` out of an object.
#[verifier::loop_isolation(false)]
fn take_member(v: Json, key: &str) -> (r: Option<Json>)
    ensures
        r == member(v, key@),
{
    match v {
        Json::Object(entries) => {
            let ghost orig = entries@;
            let mut rest = entries;
            let ghost mut i: int = 0;
            assert(orig.skip(0) =~= orig);
            while rest.len() > 0
                invariant
                    0 <= i <= orig.len(),
                    rest@ == orig.skip(i),
                    member_of(orig, key@) == member_of(orig.skip(i), key@),
                decreases rest@.len(),
            {
                let (k, value) = rest.remove(0);
                proof {
                    assert((k, value) == orig[i]);
                    assert(orig.skip(i).drop_first() =~= orig.skip(i + 1));
                    assert(rest@ =~= orig.skip(i + 1));
                }
                if str_eq(k.as_str(), key) {
                    return Some(value);
                }
                proof {
                    i = i + 1;
                }
            }
            None
        },
        _ => None,
    }
}

/// Whether the member `key` of `v` is the boolean `false`.
#[verifier::loop_isolation(false)]
fn member_is_false(v: &Json, key: &str) -> (r: bool)
    ensures
        r == (member(*v, key@) == Some(Json::Bool(false))),
{
    match v {
        Json::Object(entries) => {
            let mut i: usize = 0;
            assert(entries@.skip(0) =~= entries@);
            while i < entries.len()
                invariant
                    i <= entries@.len(),
                    member_of(entries@, key@) == member_of(entries@.skip(i as int), key@),
                decreases entries@.len() - i,
            {
                proof {
                    assert(entries@.skip(i as int).drop_first() =~= entries@.skip(i + 1));
                }
                if str_eq(entries[i].0.as_str(), key) {
                    return match &entries[i].1 {
                        Json::Bool(b) => !*b,
                        _ => false,
                    };
                }
                i = i + 1;
            }
            false
        },
        _ => false,
    }
}

/// Why a reply was refused.
#[derive(Debug, PartialEq)]
pub enum ReplyError {
    /// Triad replied `ok: false`, with its error message.
    Rejected(String),
    /// The reply lacked what the request expects (named by the request).
    UnexpectedResponse(String),
    /// The line is not JSON.
    JsonParse,
}

/// The string member `key` of `v`, if it is a string.
pub open spec fn str_member(v: Json, key: Seq<char>) -> Option<Seq<char>> {
    match member(v, key) {
        Some(Json::Str(s)) => Some(s@),
        _ => None,
    }
}

/// The outcome of a reply: `ok: false` is a rejection with Triad's `error` message (or
/// "request failed"); otherwise its `triad` member, which must be there.
pub open spec fn reply_outcome(reply: Json) -> Result<Json, Seq<char>> {
    if member(reply, "ok"@) == Some(Json::Bool(false)) {
        Err(match str_member(reply, "error"@) {
            Some(m) => m,
            None => "request failed"@,
        })
    } else {
        match member(reply, "triad"@) {
            Some(t) => Ok(t),
            None => Err(Seq::empty()),
        }
    }
}

/// `r` is the decoding of the reply `reply` (see [`reply_outcome`]).
pub open spec fn reply_decoded(reply: Json, r: Result<Json, ReplyError>) -> bool {
    let rejected = member(reply, "ok"@) == Some(Json::Bool(false));
    &&& rejected ==> (r matches Err(ReplyError::Rejected(m)) && m@ == match str_member(reply, "error"@) {
        Some(m) => m,
        None => "request failed"@,
    })
    &&& !rejected ==> match member(reply, "triad"@) {
        Some(t) => r == Ok::<Json, ReplyError>(t),
        None => r matches Err(ReplyError::UnexpectedResponse(req)) && req@ == "triad"@,
    }
}

/// Decodes a command reply (see [`reply_decoded`]).
pub fn decode_reply(reply: Json) -> (r: Result<Json, ReplyError>)
    ensures
        reply_decoded(reply, r),
{
    if member_is_false(&reply, "ok") {
        let message = match take_member(reply, "error") {
            Some(Json::Str(m)) => m,
            _ => owned("request failed"),
        };
        return Err(ReplyError::Rejected(message));
    }
    match take_member(reply, "triad") {
        Some(t) => Ok(t),
        None => Err(ReplyError::UnexpectedResponse(owned("triad"))),
    }
}

/// The payload of an event line.
#[derive(Debug, PartialEq)]
pub enum EventPayload {
    /// A full state snapshot (`state-changed`).
    State(Json),
    /// A layout snapshot (`layout-state-changed`).
    Layout(Json),
    /// One window (`window-changed`).
    Window(Json),
}

/// The event member names and payload keys: (event name, payload key, request named on a
/// missing payload).
pub open spec fn event_shape(name: Seq<char>) -> Option<(Seq<char>, Seq<char>)> {
    if name == "state-changed"@ {
        Some(("state"@, "state event"@))
    } else if name == "layout-state-changed"@ {
        Some(("state"@, "layout event"@))
    } else if name == "window-changed"@ {
        Some(("window"@, "window event"@))
    } else {
        None
    }
}

/// `r` is the decoding of the event line `line`: nothing without a `triad` member or for an
/// unknown event; a known event carries its payload member, whose absence is an unexpected
/// response.
pub open spec fn event_decoded(line: Json, r: Result<Option<EventPayload>, ReplyError>) -> bool {
        match member(line, "triad"@) {
            None => r matches Ok(None),
            Some(t) => match str_member(t, "event"@) {
                None => r matches Ok(None),
                Some(name) => match event_shape(name) {
                    None => r matches Ok(None),
                    Some((key, request)) => match member(t, key) {
                        None => r matches Err(ReplyError::UnexpectedResponse(req)) && req@ == request,
                        Some(p) => if name == "state-changed"@ {
                            r matches Ok(Some(EventPayload::State(x))) && x == p
                        } else if name == "layout-state-changed"@ {
                            r matches Ok(Some(EventPayload::Layout(x))) && x == p
                        } else {
                            r matches Ok(Some(EventPayload::Window(x))) && x == p
                        },
                    },
                },
            },
        }
}

/// Decodes an event-stream line (see [`event_decoded`]).
pub fn decode_event(line: Json) -> (r: Result<Option<EventPayload>, ReplyError>)
    ensures
        event_decoded(line, r),
{
    let triad = match take_member(line, "triad") {
        Some(t) => t,
        None => return Ok(None),
    };
    let ghost t = triad;
    let is_state = member_str_is(&triad, "event", "state-changed");
    let is_layout = member_str_is(&triad, "event", "layout-state-changed");
    let is_window = member_str_is(&triad, "event", "window-changed");
    proof {
        reveal_strlit("state-changed");
        reveal_strlit("layout-state-changed");
        reveal_strlit("window-changed");
        assert("state-changed"@.len() == 13 && "layout-state-changed"@.len() == 20
            && "window-changed"@.len() == 14);
    }
    if is_state {
        match take_member(triad, "state") {
            Some(p) => Ok(Some(EventPayload::State(p))),
            None => Err(ReplyError::UnexpectedResponse(owned("state event"))),
        }
    } else if is_layout {
        match take_member(triad, "state") {
            Some(p) => Ok(Some(EventPayload::Layout(p))),
            None => Err(ReplyError::UnexpectedResponse(owned("layout event"))),
        }
    } else if is_window {
        match take_member(triad, "window") {
            Some(p) => Ok(Some(EventPayload::Window(p))),
            None => Err(ReplyError::UnexpectedResponse(owned("window event"))),
        }
    } else {
        Ok(None)
    }
}

/// Whether the member `key` of `v` is the string `expected`.
#[verifier::loop_isolation(false)]
fn member_str_is(v: &Json, key: &str, expected: &str) -> (r: bool)
    ensures
        r == (str_member(*v, key@) == Some(expected@)),
{
    match v {
        Json::Object(entries) => {
            let mut i: usize = 0;
            assert(entries@.skip(0) =~= entries@);
            while i < entries.len()
                invariant
                    i <= entries@.len(),
                    member_of(entries@, key@) == member_of(entries@.skip(i as int), key@),
                decreases entries@.len() - i,
            {
                proof {
                    assert(entries@.skip(i as int).drop_first() =~= entries@.skip(i + 1));
                }
                if str_eq(entries[i].0.as_str(), key) {
                    return match &entries[i].1 {
                        Json::Str(s) => str_eq(s.as_str(), expected),
                        _ => false,
                    };
                }
                i = i + 1;
            }
            false
        },
        _ => false,
    }
}

/// The public event a payload produces.
pub fn event_of(payload: &EventPayload, window_id: u64) -> (r: TriadEvent)
    ensures
        r == match payload {
            EventPayload::State(_) => TriadEvent::StateChanged,
            EventPayload::Layout(_) => TriadEvent::LayoutStateChanged,
            EventPayload::Window(_) => TriadEvent::WindowChanged { window_id: Some(window_id) },
        },
{
    match payload {
        EventPayload::State(_) => TriadEvent::StateChanged,
        EventPayload::Layout(_) => TriadEvent::LayoutStateChanged,
        EventPayload::Window(_) => TriadEvent::WindowChanged { window_id: Some(window_id) },
    }
}

/// The members `"version": 1` and `"request": <request>` that open every request.
fn request_prefix(request: &str) -> (r: Vec<(String, Json)>)
    ensures
        r@.len() == 2,
        r@[0].0@ == "version"@,
        r@[0].1 == Json::Number(JsonNumber::Unsigned(1)),
        r@[1].0@ == "request"@,
        r@[1].1 matches Json::Str(s) && s@ == request@,
{
    let mut inner: Vec<(String, Json)> = Vec::new();
    inner.push((owned("version"), Json::Number(JsonNumber::Unsigned(1))));
    inner.push((owned("request"), Json::Str(owned(request))));
    inner
}

/// `{"triad": <inner>}`.
fn wrap_triad(inner: Vec<(String, Json)>) -> (r: Json)
    ensures
        r matches Json::Object(outer) && outer@.len() == 1 && outer@[0].0@ == "triad"@ && outer@[0].1 == Json::Object(inner),
{
    let mut outer: Vec<(String, Json)> = Vec::new();
    outer.push((owned("triad"), Json::Object(inner)));
    Json::Object(outer)
}

/// The state query.
pub fn state_request() -> (r: Json)
    ensures
        r matches Json::Object(outer) && outer@.len() == 1 && outer@[0].0@ == "triad"@ && (outer@[0].1 matches Json::Object(inner)
            && inner@.len() == 2 && inner@[0].0@ == "version"@ && inner@[1].0@ == "request"@
            && (inner@[1].1 matches Json::Str(s) && s@ == "state"@)),
{
    wrap_triad(request_prefix("state"))
}

/// The event-stream subscription to layout, state and window events.
pub fn event_stream_request() -> (r: Json)
    ensures
        r matches Json::Object(outer) && outer@.len() == 1 && (outer@[0].1 matches Json::Object(inner)
            && inner@.len() == 3 && (inner@[1].1 matches Json::Str(s) && s@ == "event-stream"@)
            && inner@[2].0@ == "events"@ && (inner@[2].1 matches Json::Array(events) && events@.len() == 3
            && (events@[0] matches Json::Str(e) && e@ == "layout"@) && (events@[1] matches Json::Str(e) && e@ == "state"@)
            && (events@[2] matches Json::Str(e) && e@ == "window"@))),
{
    let mut events: Vec<Json> = Vec::new();
    events.push(Json::Str(owned("layout")));
    events.push(Json::Str(owned("state")));
    events.push(Json::Str(owned("window")));
    let mut inner = request_prefix("event-stream");
    inner.push((owned("events"), Json::Array(events)));
    wrap_triad(inner)
}

/// An action the service can ask Triad for.
pub enum TriadAction {
    /// Focus a workspace by tag id.
    FocusTag(u64),
    /// Focus a workspace by user-facing index.
    FocusWorkspace(u32),
    /// Focus the previous tag.
    FocusTagLeft,
    /// Focus the next tag.
    FocusTagRight,
    /// Focus a window.
    FocusWindow(u64),
    /// Close a window (`None`: the focused one).
    CloseWindow(Option<u64>),
    /// Spawn a command (the first element is the executable).
    Spawn(Vec<String>),
    /// Switch keyboard layout.
    SwitchKeyboardLayout(KeyboardLayoutTarget),
    /// Toggle the overview.
    ToggleOverview,
    /// Switch to the next layout mode.
    SwitchLayout,
}

/// The action's name on the wire.
pub open spec fn action_name(a: TriadAction) -> Seq<char> {
    match a {
        TriadAction::FocusTag(_) => "focus-tag"@,
        TriadAction::FocusWorkspace(_) => "focus-workspace"@,
        TriadAction::FocusTagLeft => "focus-tag-left"@,
        TriadAction::FocusTagRight => "focus-tag-right"@,
        TriadAction::FocusWindow(_) => "focus-window"@,
        TriadAction::CloseWindow(_) => "close-window"@,
        TriadAction::Spawn(_) => "spawn"@,
        TriadAction::SwitchKeyboardLayout(_) => "switch-keyboard-layout"@,
        TriadAction::ToggleOverview => "toggle-overview"@,
        TriadAction::SwitchLayout => "switch-layout"@,
    }
}

/// The extra members an action carries: its key and value, when it has one.
pub open spec fn action_member_key(a: TriadAction) -> Option<Seq<char>> {
    match a {
        TriadAction::FocusTag(_) => Some("tag"@),
        TriadAction::FocusWorkspace(_) => Some("workspace_idx"@),
        TriadAction::FocusWindow(_) => Some("id"@),
        TriadAction::CloseWindow(Some(_)) => Some("id"@),
        TriadAction::Spawn(_) => Some("argv"@),
        TriadAction::SwitchKeyboardLayout(_) => Some("layout"@),
        _ => None,
    }
}

/// The value an action carries under its key.
pub open spec fn action_member_ok(a: TriadAction, v: Json) -> bool {
    match a {
        TriadAction::FocusTag(t) => v == Json::Number(JsonNumber::Unsigned(t)),
        TriadAction::FocusWorkspace(i) => v == Json::Number(JsonNumber::Unsigned(i as u64)),
        TriadAction::FocusWindow(id) => v == Json::Number(JsonNumber::Unsigned(id)),
        TriadAction::CloseWindow(Some(id)) => v == Json::Number(JsonNumber::Unsigned(id)),
        TriadAction::Spawn(argv) => v matches Json::Array(items) && items@.len() == argv@.len()
            && forall|i: int| 0 <= i < items@.len() ==> (#[trigger] items@[i] matches Json::Str(s) && s@ == argv@[i]@),
        TriadAction::SwitchKeyboardLayout(KeyboardLayoutTarget::Next) => v matches Json::Str(s) && s@ == "next"@,
        TriadAction::SwitchKeyboardLayout(KeyboardLayoutTarget::Previous) => v matches Json::Str(s) && s@ == "prev"@,
        TriadAction::SwitchKeyboardLayout(KeyboardLayoutTarget::Index(i)) => v == Json::Number(JsonNumber::Unsigned(i as u64)),
        _ => false,
    }
}

/// The request for an action: `{"triad": {"version": 1, "request": "action", "action":
/// <name>, <key>: <value>}}`.
pub fn action_request(action: TriadAction) -> (r: Json)
    ensures
        r matches Json::Object(outer) && outer@.len() == 1 && outer@[0].0@ == "triad"@ && (outer@[0].1 matches Json::Object(inner)
            && inner@[0].0@ == "version"@ && inner@[1].0@ == "request"@ && (inner@[1].1 matches Json::Str(s) && s@ == "action"@)
            && inner@[2].0@ == "action"@ && (inner@[2].1 matches Json::Str(s) && s@ == action_name(action))
            && match action_member_key(action) {
                Some(k) => inner@.len() == 4 && inner@[3].0@ == k && action_member_ok(action, inner@[3].1),
                None => inner@.len() == 3,
            }),
{
    let ghost a = action;
    let (name, member): (&str, Option<(&str, Json)>) = match action {
        TriadAction::FocusTag(t) => ("focus-tag", Some(("tag", Json::Number(JsonNumber::Unsigned(t))))),
        TriadAction::FocusWorkspace(i) => ("focus-workspace", Some(("workspace_idx", Json::Number(JsonNumber::Unsigned(i as u64))))),
        TriadAction::FocusTagLeft => ("focus-tag-left", None),
        TriadAction::FocusTagRight => ("focus-tag-right", None),
        TriadAction::FocusWindow(id) => ("focus-window", Some(("id", Json::Number(JsonNumber::Unsigned(id))))),
        TriadAction::CloseWindow(id) => ("close-window", match id {
            Some(id) => Some(("id", Json::Number(JsonNumber::Unsigned(id)))),
            None => None,
        }),
        TriadAction::Spawn(argv) => ("spawn", Some(("argv", strings_json(argv)))),
        TriadAction::SwitchKeyboardLayout(target) => ("switch-keyboard-layout", Some(("layout", match target {
            KeyboardLayoutTarget::Next => Json::Str(owned("next")),
            KeyboardLayoutTarget::Previous => Json::Str(owned("prev")),
            KeyboardLayoutTarget::Index(i) => Json::Number(JsonNumber::Unsigned(i as u64)),
        }))),
        TriadAction::ToggleOverview => ("toggle-overview", None),
        TriadAction::SwitchLayout => ("switch-layout", None),
    };
    let mut inner = request_prefix("action");
    inner.push((owned("action"), Json::Str(owned(name))));
    if let Some((k, v)) = member {
        inner.push((owned(k), v));
    }
    wrap_triad(inner)
}

/// A JSON array of strings.
fn strings_json(items: Vec<String>) -> (r: Json)
    ensures
        r matches Json::Array(xs) && xs@.len() == items@.len() && forall|i: int| 0 <= i < xs@.len() ==> (#[trigger] xs@[i] matches Json::Str(s) && s@ == items@[i]@),
{
    let mut xs: Vec<Json> = Vec::new();
    let mut i: usize = 0;
    while i < items.len()
        invariant
            i <= items@.len(),
            xs@.len() == i,
            forall|j: int| 0 <= j < i ==> (#[trigger] xs@[j] matches Json::Str(s) && s@ == items@[j]@),
        decreases items@.len() - i,
    {
        xs.push(Json::Str(owned(items[i].as_str())));
        i = i + 1;
    }
    Json::Array(xs)
}

/// Where Triad's socket is: `TRIAD_SOCKET` when set and non-empty; else `triad.sock` in the
/// runtime directory when there is one; else `/tmp/triad.sock`.
pub open spec fn socket_path_spec(triad_socket: Option<Seq<char>>, runtime_dir: Option<Seq<char>>) -> Seq<char> {
    match triad_socket {
        Some(p) if p.len() > 0 => p,
        _ => match runtime_dir {
            Some(d) => if d.len() == 0 {
                "triad.sock"@
            } else if d.last() == '/' {
                d + "triad.sock"@
            } else {
                d + "/triad.sock"@
            },
            None => "/tmp/triad.sock"@,
        },
    }
}

/// The socket path from the environment's `TRIAD_SOCKET` and `XDG_RUNTIME_DIR`.
pub fn socket_path(triad_socket: Option<String>, runtime_dir: Option<String>) -> (r: String)
    ensures
        r@ == socket_path_spec(
            match triad_socket {
                Some(s) => Some(s@),
                None => None,
            },
            match runtime_dir {
                Some(s) => Some(s@),
                None => None,
            },
        ),
{
    if let Some(p) = triad_socket {
        if !p.as_str().is_empty() {
            return p;
        }
    }
    match runtime_dir {
        Some(d) => {
            let chars = chars_of(d.as_str());
            if chars.len() == 0 {
                owned("triad.sock")
            } else if chars[chars.len() - 1] == '/' {
                let mut p = d;
                p.append("triad.sock");
                p
            } else {
                let mut p = d;
                p.append("/triad.sock");
                p
            }
        },
        None => owned("/tmp/triad.sock"),
    }
}

/// The focused window: the first window with input focus, else the focused window of the
/// first active workspace (in the order given).
pub open spec fn focused_spec(windows: Seq<Window>, workspaces: Seq<Workspace>) -> Option<u64>
    decreases windows.len() + workspaces.len(),
{
    if windows.len() > 0 {
        if windows[0].is_focused {
            Some(windows[0].id)
        } else {
            focused_spec(windows.drop_first(), workspaces)
        }
    } else if workspaces.len() > 0 {
        if workspaces[0].is_active {
            workspaces[0].focused_window_id
        } else {
            focused_spec(windows, workspaces.drop_first())
        }
    } else {
        None
    }
}

/// Input focus decides: when some window has input focus, the focused window is the first
/// such window, whatever the workspaces say.
pub proof fn law_focused_window_has_focus(windows: Seq<Window>, workspaces: Seq<Workspace>, i: int)
    requires
        0 <= i < windows.len(),
        windows[i].is_focused,
        forall|j: int| 0 <= j < i ==> !(#[trigger] windows[j]).is_focused,
    ensures
        focused_spec(windows, workspaces) == Some(windows[i].id),
    decreases i,
{
    if i > 0 {
        let rest = windows.drop_first();
        assert(!windows[0].is_focused);
        assert forall|j: int| 0 <= j < i - 1 implies !(#[trigger] rest[j]).is_focused by {
            assert(rest[j] == windows[j + 1]);
        }
        law_focused_window_has_focus(rest, workspaces, i - 1);
    }
}

/// The workspaces are only a fallback: when no window has input focus, the focused window is
/// the one remembered by the first active workspace, and there is none without an active
/// workspace.
pub proof fn law_focused_window_falls_back_to_workspace(windows: Seq<Window>, workspaces: Seq<Workspace>)
    requires
        forall|j: int| 0 <= j < windows.len() ==> !(#[trigger] windows[j]).is_focused,
    ensures
        forall|k: int|
            0 <= k < workspaces.len() && (#[trigger] workspaces[k]).is_active && (forall|j: int|
                0 <= j < k ==> !(#[trigger] workspaces[j]).is_active) ==> focused_spec(windows, workspaces)
                == workspaces[k].focused_window_id,
        (forall|j: int| 0 <= j < workspaces.len() ==> !(#[trigger] workspaces[j]).is_active) ==> focused_spec(
            windows,
            workspaces,
        ) is None,
    decreases windows.len() + workspaces.len(),
{
    if windows.len() > 0 {
        let rest = windows.drop_first();
        assert(!windows[0].is_focused);
        assert forall|j: int| 0 <= j < rest.len() implies !(#[trigger] rest[j]).is_focused by {
            assert(rest[j] == windows[j + 1]);
        }
        law_focused_window_falls_back_to_workspace(rest, workspaces);
    } else if workspaces.len() > 0 {
        let rest = workspaces.drop_first();
        law_focused_window_falls_back_to_workspace(windows, rest);
        assert forall|k: int|
            0 <= k < workspaces.len() && (#[trigger] workspaces[k]).is_active && (forall|j: int|
                0 <= j < k ==> !(#[trigger] workspaces[j]).is_active) implies focused_spec(windows, workspaces)
                == workspaces[k].focused_window_id by {
            if k > 0 {
                assert(!workspaces[0].is_active);
                assert(rest[k - 1] == workspaces[k]);
                assert forall|j: int| 0 <= j < k - 1 implies !(#[trigger] rest[j]).is_active by {
                    assert(rest[j] == workspaces[j + 1]);
                }
            }
        }
        if forall|j: int| 0 <= j < workspaces.len() ==> !(#[trigger] workspaces[j]).is_active {
            assert(!workspaces[0].is_active);
            assert forall|j: int| 0 <= j < rest.len() implies !(#[trigger] rest[j]).is_active by {
                assert(rest[j] == workspaces[j + 1]);
            }
        }
    }
}

/// The focused window id (see [`focused_spec`]); the caller passes its windows and
/// workspaces in its own iteration order.
#[verifier::loop_isolation(false)]
pub fn focused_window(windows: &[Window], workspaces: &[Workspace]) -> (r: Option<u64>)
    ensures
        r == focused_spec(windows@, workspaces@),
{
    let mut i: usize = 0;
    assert(windows@.skip(0) =~= windows@);
    while i < windows.len()
        invariant
            i <= windows@.len(),
            focused_spec(windows@, workspaces@) == focused_spec(windows@.skip(i as int), workspaces@),
        decreases windows@.len() - i,
    {
        proof {
            assert(windows@.skip(i as int).drop_first() =~= windows@.skip(i + 1));
        }
        if windows[i].is_focused {
            return Some(windows[i].id);
        }
        i = i + 1;
    }
    let ghost none: Seq<Window> = Seq::empty();
    proof {
        assert(windows@.skip(i as int) =~= none);
    }
    let mut j: usize = 0;
    assert(workspaces@.skip(0) =~= workspaces@);
    while j < workspaces.len()
        invariant
            j <= workspaces@.len(),
            focused_spec(windows@, workspaces@) == focused_spec(none, workspaces@.skip(j as int)),
        decreases workspaces@.len() - j,
    {
        proof {
            assert(workspaces@.skip(j as int).drop_first() =~= workspaces@.skip(j + 1));
        }
        if workspaces[j].is_active {
            return workspaces[j].focused_window_id;
        }
        j = j + 1;
    }
    None
}

/// The keyboard layouts of a state snapshot: its `current_keyboard_layout_idx`, when given,
/// overrides the layouts' own index.
pub fn snapshot_layouts(layouts: KeyboardLayouts, current: Option<u32>) -> (r: KeyboardLayouts)
    ensures
        r.names == layouts.names,
        r.current_idx == match current {
            Some(c) => c,
            None => layouts.current_idx,
        },
{
    match current {
        Some(c) => KeyboardLayouts { names: layouts.names, current_idx: c },
        None => layouts,
    }
}

/// Folds the workspaces of a snapshot into a map by tag id (a later duplicate wins).
pub open spec fn workspace_map(s: Seq<Workspace>) -> Map<u64, Workspace>
    decreases s.len(),
{
    if s.len() == 0 {
        Map::empty()
    } else {
        workspace_map(s.drop_last()).insert(s.last().tag_id, s.last())
    }
}

/// The workspaces after a layout snapshot: exactly the snapshot's, keyed by tag id.
pub fn apply_workspaces(workspaces: Vec<Workspace>) -> (r: HashMap<u64, Workspace>)
    ensures
        r@ == workspace_map(workspaces@),
{
    let ghost orig = workspaces@;
    let mut rest = workspaces;
    let mut next: HashMap<u64, Workspace> = HashMap::new();
    let ghost mut i: int = 0;
    proof {
        assert(next@ =~= workspace_map(orig.take(0)));
    }
    while rest.len() > 0
        invariant
            0 <= i <= orig.len(),
            rest@ == orig.skip(i),
            next@ == workspace_map(orig.take(i)),
        decreases rest@.len(),
    {
        let w = rest.remove(0);
        proof {
            assert(w == orig[i]);
            assert(orig.take(i + 1).drop_last() =~= orig.take(i));
            assert(orig.take(i + 1).last() == orig[i]);
            assert(rest@ =~= orig.skip(i + 1));
        }
        next.insert(w.tag_id, w);
        proof {
            i = i + 1;
        }
    }
    proof {
        assert(orig.take(i) =~= orig);
    }
    next
}

/// Folds the windows of a snapshot into a map by id (a later duplicate wins).
pub open spec fn window_map(s: Seq<Window>) -> Map<u64, Window>
    decreases s.len(),
{
    if s.len() == 0 {
        Map::empty()
    } else {
        window_map(s.drop_last()).insert(s.last().id, s.last())
    }
}

/// The windows after a state snapshot: exactly the snapshot's, keyed by id.
pub fn apply_windows(windows: Vec<Window>) -> (r: HashMap<u64, Window>)
    ensures
        r@ == window_map(windows@),
{
    let ghost orig = windows@;
    let mut rest = windows;
    let mut next: HashMap<u64, Window> = HashMap::new();
    let ghost mut i: int = 0;
    proof {
        assert(next@ =~= window_map(orig.take(0)));
    }
    while rest.len() > 0
        invariant
            0 <= i <= orig.len(),
            rest@ == orig.skip(i),
            next@ == window_map(orig.take(i)),
        decreases rest@.len(),
    {
        let w = rest.remove(0);
        proof {
            assert(w == orig[i]);
            assert(orig.take(i + 1).drop_last() =~= orig.take(i));
            assert(orig.take(i + 1).last() == orig[i]);
            assert(rest@ =~= orig.skip(i + 1));
        }
        next.insert(w.id, w);
        proof {
            i = i + 1;
        }
    }
    proof {
        assert(orig.take(i) =~= orig);
    }
    next
}

/// A single-window event: the window is refreshed or added, others are untouched.
pub fn apply_window(windows: &mut HashMap<u64, Window>, window: Window)
    ensures
        final(windows)@ == old(windows)@.insert(window.id, window),
{
    windows.insert(window.id, window);
}

/// One level of a parsed JSON text: a scalar as such, a container with its elements (and
/// member values) as their own JSON texts.
#[derive(Debug, PartialEq)]
pub enum JsonNode {
    /// `null`.
    Null,
    /// `true` / `false`.
    Bool(bool),
    /// A number.
    Number(JsonNumber),
    /// A string.
    Str(String),
    /// An array: the texts of its elements, in order.
    Array(Vec<String>),
    /// An object: its keys with the texts of their values, in `serde_json`'s order.
    Object(Vec<(String, String)>),
}

/// What `serde_json` parses `text` into, one level deep (see [`JsonNode`]); nothing for a
/// text that is not JSON.
pub uninterp spec fn json_node_of_text(text: Seq<char>) -> Option<JsonNode>;

/// Parses `text` with `serde_json::from_str` into a `serde_json::Value` and takes its top
/// level apart: a number as an unsigned or signed integer when it is one (else its text),
/// elements and member values written back as JSON text with `Value`'s `Display`. Its
/// result is named, not restated: [`json_node_of_text`].
#[verifier::external_body]
fn parse_json_node(text: &str) -> (r: Option<JsonNode>)
    ensures
        r == json_node_of_text(text@),
{
    Some(match serde_json::from_str(text).ok()? {
        Value::Null => JsonNode::Null,
        Value::Bool(b) => JsonNode::Bool(b),
        Value::Number(n) => JsonNode::Number(match (n.as_u64(), n.as_i64()) {
            (Some(u), _) => JsonNumber::Unsigned(u),
            (None, Some(i)) => JsonNumber::Signed(i),
            _ => JsonNumber::Text(n.to_string()),
        }),
        Value::String(t) => JsonNode::Str(t),
        Value::Array(xs) => JsonNode::Array(xs.iter().map(Value::to_string).collect()),
        Value::Object(m) => JsonNode::Object(m.into_iter().map(|(k, v)| (k, v.to_string())).collect()),
    })
}

/// How deep a JSON text may nest: `serde_json` refuses more than 127 nested containers, so
/// 128 levels (containers and the innermost value) cover every text it parses.
pub const JSON_DEPTH: u32 = 128;

/// `j` is the JSON value of `text`, read at most `depth` levels deep: each level as
/// [`json_node_of_text`] takes it apart, container elements recursively.
pub open spec fn json_parsed(text: Seq<char>, depth: nat, j: Json) -> bool
    decreases depth, 0nat,
{
    if depth == 0 {
        false
    } else {
        match json_node_of_text(text) {
            None => false,
            Some(JsonNode::Null) => j == Json::Null,
            Some(JsonNode::Bool(b)) => j == Json::Bool(b),
            Some(JsonNode::Number(n)) => j == Json::Number(n),
            Some(JsonNode::Str(t)) => j == Json::Str(t),
            Some(JsonNode::Array(items)) => j matches Json::Array(xs) && all_parsed(items@, (depth - 1) as nat, xs@),
            Some(JsonNode::Object(entries)) => j matches Json::Object(es) && members_parsed(
                entries@,
                (depth - 1) as nat,
                es@,
            ),
        }
    }
}

/// Each text of `items` has the value at the same position of `xs`.
pub open spec fn all_parsed(items: Seq<String>, depth: nat, xs: Seq<Json>) -> bool
    decreases depth, items.len(),
{
    if items.len() == 0 {
        xs.len() == 0
    } else {
        xs.len() == items.len() && all_parsed(items.drop_last(), depth, xs.drop_last()) && json_parsed(
            items.last()@,
            depth,
            xs.last(),
        )
    }
}

/// Each member of `es` has the key of the member at the same position of `entries` and the
/// value of its text.
pub open spec fn members_parsed(entries: Seq<(String, String)>, depth: nat, es: Seq<(String, Json)>) -> bool
    decreases depth, entries.len(),
{
    if entries.len() == 0 {
        es.len() == 0
    } else {
        es.len() == entries.len() && members_parsed(entries.drop_last(), depth, es.drop_last())
            && es.last().0 == entries.last().0 && json_parsed(entries.last().1@, depth, es.last().1)
    }
}

/// `text` is not JSON within `depth` levels: it does not parse, or some element or member
/// value does not.
pub open spec fn json_text_fails(text: Seq<char>, depth: nat) -> bool
    decreases depth, 0nat,
{
    if depth == 0 {
        true
    } else {
        match json_node_of_text(text) {
            None => true,
            Some(JsonNode::Array(items)) => any_fails(items@, (depth - 1) as nat),
            Some(JsonNode::Object(entries)) => any_member_fails(entries@, (depth - 1) as nat),
            _ => false,
        }
    }
}

/// Some text of `items` is not JSON within `depth` levels.
pub open spec fn any_fails(items: Seq<String>, depth: nat) -> bool
    decreases depth, items.len(),
{
    if items.len() == 0 {
        false
    } else {
        any_fails(items.drop_last(), depth) || json_text_fails(items.last()@, depth)
    }
}

/// Some member value text of `entries` is not JSON within `depth` levels.
pub open spec fn any_member_fails(entries: Seq<(String, String)>, depth: nat) -> bool
    decreases depth, entries.len(),
{
    if entries.len() == 0 {
        false
    } else {
        any_member_fails(entries.drop_last(), depth) || json_text_fails(entries.last().1@, depth)
    }
}

proof fn lemma_any_fails_prefix(s: Seq<String>, k: int, depth: nat)
    requires
        0 <= k <= s.len(),
        any_fails(s.take(k), depth),
    ensures
        any_fails(s, depth),
    decreases s.len() - k,
{
    if k == s.len() {
        assert(s.take(k) =~= s);
    } else {
        assert(s.take(k + 1).drop_last() =~= s.take(k));
        lemma_any_fails_prefix(s, k + 1, depth);
    }
}

proof fn lemma_any_member_fails_prefix(s: Seq<(String, String)>, k: int, depth: nat)
    requires
        0 <= k <= s.len(),
        any_member_fails(s.take(k), depth),
    ensures
        any_member_fails(s, depth),
    decreases s.len() - k,
{
    if k == s.len() {
        assert(s.take(k) =~= s);
    } else {
        assert(s.take(k + 1).drop_last() =~= s.take(k));
        lemma_any_member_fails_prefix(s, k + 1, depth);
    }
}

/// Parses a JSON text into the library's value, at most `depth` levels deep.
pub fn parse_json(text: &str, depth: u32) -> (r: Option<Json>)
    ensures
        r is None <==> json_text_fails(text@, depth as nat),
        r matches Some(j) ==> json_parsed(text@, depth as nat, j),
    decreases depth,
{
    if depth == 0 {
        return None;
    }
    let d = depth - 1;
    assert(((depth as nat) - 1) as nat == d as nat);
    match parse_json_node(text) {
        None => None,
        Some(JsonNode::Null) => Some(Json::Null),
        Some(JsonNode::Bool(b)) => Some(Json::Bool(b)),
        Some(JsonNode::Number(n)) => Some(Json::Number(n)),
        Some(JsonNode::Str(t)) => Some(Json::Str(t)),
        Some(JsonNode::Array(items)) => {
            let mut xs: Vec<Json> = Vec::new();
            let mut i: usize = 0;
            assert(items@.take(0) =~= Seq::<String>::empty());
            while i < items.len()
                invariant
                    0 < depth,
                    d == depth - 1,
                    ((depth as nat) - 1) as nat == d as nat,
                    json_node_of_text(text@) == Some(JsonNode::Array(items)),
                    i <= items@.len(),
                    all_parsed(items@.take(i as int), d as nat, xs@),
                    !any_fails(items@.take(i as int), d as nat),
                decreases items@.len() - i,
            {
                let ghost before = xs@;
                proof {
                    assert(items@.take(i + 1).drop_last() =~= items@.take(i as int));
                    assert(items@.take(i + 1).last() == items@[i as int]);
                }
                match parse_json(items[i].as_str(), d) {
                    Some(x) => {
                        xs.push(x);
                        proof {
                            assert(xs@.drop_last() =~= before);
                        }
                    },
                    None => {
                        proof {
                            lemma_any_fails_prefix(items@, i + 1, d as nat);
                        }
                        return None;
                    },
                }
                i = i + 1;
            }
            proof {
                assert(items@.take(items@.len() as int) =~= items@);
            }
            Some(Json::Array(xs))
        },
        Some(JsonNode::Object(entries)) => {
            let mut es: Vec<(String, Json)> = Vec::new();
            let mut i: usize = 0;
            assert(entries@.take(0) =~= Seq::<(String, String)>::empty());
            while i < entries.len()
                invariant
                    0 < depth,
                    d == depth - 1,
                    ((depth as nat) - 1) as nat == d as nat,
                    json_node_of_text(text@) == Some(JsonNode::Object(entries)),
                    i <= entries@.len(),
                    members_parsed(entries@.take(i as int), d as nat, es@),
                    !any_member_fails(entries@.take(i as int), d as nat),
                decreases entries@.len() - i,
            {
                let ghost before = es@;
                proof {
                    assert(entries@.take(i + 1).drop_last() =~= entries@.take(i as int));
                    assert(entries@.take(i + 1).last() == entries@[i as int]);
                }
                match parse_json(entries[i].1.as_str(), d) {
                    Some(x) => {
                        let key = entries[i].0.clone();
                        es.push((key, x));
                        proof {
                            assert(es@.drop_last() =~= before);
                        }
                    },
                    None => {
                        proof {
                            lemma_any_member_fails_prefix(entries@, i + 1, d as nat);
                        }
                        return None;
                    },
                }
                i = i + 1;
            }
            proof {
                assert(entries@.take(entries@.len() as int) =~= entries@);
            }
            Some(Json::Object(es))
        },
    }
}

/// Decodes a raw command-reply line: a line that is not JSON is [`ReplyError::JsonParse`];
/// otherwise the decoding of its JSON value (see [`reply_decoded`]).
pub fn decode_reply_line(line: &str) -> (r: Result<Json, ReplyError>)
    ensures
        json_text_fails(line@, JSON_DEPTH as nat) <==> r matches Err(ReplyError::JsonParse),
        !json_text_fails(line@, JSON_DEPTH as nat) ==> exists|j: Json|
            json_parsed(line@, JSON_DEPTH as nat, j) && #[trigger] reply_decoded(j, r),
{
    match parse_json(line, JSON_DEPTH) {
        None => Err(ReplyError::JsonParse),
        Some(j) => {
            let ghost g = j;
            let r = decode_reply(j);
            assert(json_parsed(line@, JSON_DEPTH as nat, g) && reply_decoded(g, r));
            r
        },
    }
}

/// Decodes a raw event-stream line: a line that is not JSON is [`ReplyError::JsonParse`];
/// otherwise the decoding of its JSON value (see [`event_decoded`]).
pub fn decode_event_line(line: &str) -> (r: Result<Option<EventPayload>, ReplyError>)
    ensures
        json_text_fails(line@, JSON_DEPTH as nat) <==> r matches Err(ReplyError::JsonParse),
        !json_text_fails(line@, JSON_DEPTH as nat) ==> exists|j: Json|
            json_parsed(line@, JSON_DEPTH as nat, j) && #[trigger] event_decoded(j, r),
{
    match parse_json(line, JSON_DEPTH) {
        None => Err(ReplyError::JsonParse),
        Some(j) => {
            let ghost g = j;
            let r = decode_event(j);
            assert(json_parsed(line@, JSON_DEPTH as nat, g) && event_decoded(g, r));
            r
        },
    }
}

} // verus!
