//! The niri compositor: which events may be applied to the mirrored state without breaking
//! its preconditions, and which service properties each event refreshes.
use vstd::prelude::*;
use crate::text::{decimal, owned, push_decimal};

verus! {

/// Which socket role a connection error refers to.
#[derive(Debug, Clone, Copy, PartialEq, Eq, Structural)]
pub enum SocketKind {
    /// The persistent socket used for request/reply command traffic.
    Command,
    /// The subscribed socket used for the event stream.
    EventStream,
}

impl SocketKind {
    /// The role's name in messages.
    pub fn as_str(&self) -> (r: &'static str)
        ensures
            r@ == match *self {
                SocketKind::Command => "command"@,
                SocketKind::EventStream => "event-stream"@,
            },
    {
        match self {
            SocketKind::Command => "command",
            SocketKind::EventStream => "event-stream",
        }
    }
}

/// The kind of a niri event, with the ids that its application presupposes.
pub enum NiriEvent {
    /// `WorkspacesChanged`.
    WorkspacesChanged,
    /// `WorkspaceUrgencyChanged`.
    WorkspaceUrgencyChanged,
    /// `WorkspaceActivated`, of this workspace.
    WorkspaceActivated(u64),
    /// `WorkspaceActiveWindowChanged`, on this workspace.
    WorkspaceActiveWindowChanged(u64),
    /// `WindowsChanged`.
    WindowsChanged,
    /// `WindowOpenedOrChanged`.
    WindowOpenedOrChanged,
    /// `WindowClosed`, of this window.
    WindowClosed(u64),
    /// `WindowFocusChanged`.
    WindowFocusChanged,
    /// `WindowFocusTimestampChanged`.
    WindowFocusTimestampChanged,
    /// `WindowUrgencyChanged`.
    WindowUrgencyChanged,
    /// `WindowLayoutsChanged`, of these windows.
    WindowLayoutsChanged(Vec<u64>),
    /// `KeyboardLayoutsChanged`.
    KeyboardLayoutsChanged,
    /// `KeyboardLayoutSwitched`.
    KeyboardLayoutSwitched,
    /// `OverviewOpenedOrClosed`.
    OverviewOpenedOrClosed,
    /// `ConfigLoaded`.
    ConfigLoaded,
    /// `ScreenshotCaptured`.
    ScreenshotCaptured,
    /// `CastsChanged`.
    CastsChanged,
    /// `CastStartedOrChanged`.
    CastStartedOrChanged,
    /// `CastStopped`, of this screencast stream.
    CastStopped(u64),
}

/// Why an event cannot be applied to the mirrored state.
#[derive(Debug, Clone, Copy, PartialEq, Eq, Structural)]
pub enum DesyncReason {
    /// The event references a workspace id not seen yet.
    WorkspaceMissing { workspace_id: u64 },
    /// The event references a window id not seen yet.
    WindowMissing { window_id: u64 },
    /// A layout switch arrived before any layout snapshot.
    KeyboardLayoutsNotLoaded,
    /// The event stops a screencast stream not seen yet.
    CastMissing { stream_id: u64 },
}

/// The log message of a desync reason: the missing id in decimal, or the missing snapshot.
pub open spec fn desync_message(r: DesyncReason) -> Seq<char> {
    match r {
        DesyncReason::WorkspaceMissing { workspace_id } => "workspace "@ + decimal(workspace_id as nat)
            + " not in local state"@,
        DesyncReason::WindowMissing { window_id } => "window "@ + decimal(window_id as nat)
            + " not in local state"@,
        DesyncReason::KeyboardLayoutsNotLoaded => "keyboard-layouts snapshot not received yet"@,
        DesyncReason::CastMissing { stream_id } => "screencast "@ + decimal(stream_id as nat)
            + " not in local state"@,
    }
}

fn missing_message(what: &str, id: u64) -> (r: String)
    ensures
        r@ == what@ + decimal(id as nat) + " not in local state"@,
{
    let mut s = owned(what);
    push_decimal(&mut s, id);
    s.append(" not in local state");
    s
}

impl DesyncReason {
    /// The reason as a log message (see [`desync_message`]).
    pub fn message(&self) -> (r: String)
        ensures
            r@ == desync_message(*self),
    {
        match self {
            DesyncReason::WorkspaceMissing { workspace_id } => missing_message("workspace ", *workspace_id),
            DesyncReason::WindowMissing { window_id } => missing_message("window ", *window_id),
            DesyncReason::KeyboardLayoutsNotLoaded => owned("keyboard-layouts snapshot not received yet"),
            DesyncReason::CastMissing { stream_id } => missing_message("screencast ", *stream_id),
        }
    }
}

/// Whether `x` is among `ids`.
pub open spec fn known(ids: Seq<u64>, x: u64) -> bool {
    exists|i: int| 0 <= i < ids.len() && ids[i] == x
}

/// The first window of `changes` that is not known, if any.
pub open spec fn first_unknown(changes: Seq<u64>, windows: Seq<u64>) -> Option<u64>
    decreases changes.len(),
{
    if changes.len() == 0 {
        None
    } else if !known(windows, changes[0]) {
        Some(changes[0])
    } else {
        first_unknown(changes.drop_first(), windows)
    }
}

/// The precondition an event needs of the state (the known workspace, window and
/// screencast ids, and whether the keyboard layouts were received).
pub open spec fn precondition(
    event: NiriEvent,
    workspaces: Seq<u64>,
    windows: Seq<u64>,
    casts: Seq<u64>,
    layouts_loaded: bool,
) -> Result<(), DesyncReason> {
    match event {
        NiriEvent::WorkspaceActivated(id) => if known(workspaces, id) {
            Ok(())
        } else {
            Err(DesyncReason::WorkspaceMissing { workspace_id: id })
        },
        NiriEvent::WorkspaceActiveWindowChanged(id) => if known(workspaces, id) {
            Ok(())
        } else {
            Err(DesyncReason::WorkspaceMissing { workspace_id: id })
        },
        NiriEvent::WindowClosed(id) => if known(windows, id) {
            Ok(())
        } else {
            Err(DesyncReason::WindowMissing { window_id: id })
        },
        NiriEvent::WindowLayoutsChanged(changes) => match first_unknown(changes@, windows) {
            Some(id) => Err(DesyncReason::WindowMissing { window_id: id }),
            None => Ok(()),
        },
        NiriEvent::KeyboardLayoutSwitched => if layouts_loaded {
            Ok(())
        } else {
            Err(DesyncReason::KeyboardLayoutsNotLoaded)
        },
        NiriEvent::CastStopped(id) => if known(casts, id) {
            Ok(())
        } else {
            Err(DesyncReason::CastMissing { stream_id: id })
        },
        _ => Ok(()),
    }
}

/// Whether `x` is among `ids`.
fn contains(ids: &[u64], x: u64) -> (r: bool)
    ensures
        r == known(ids@, x),
{
    let mut i: usize = 0;
    while i < ids.len()
        invariant
            i <= ids@.len(),
            forall|j: int| 0 <= j < i ==> ids@[j] != x,
        decreases ids@.len() - i,
    {
        if ids[i] == x {
            return true;
        }
        i = i + 1;
    }
    false
}

/// Checks an event against the mirrored state (see [`precondition`]) so a desynced event is
/// skipped rather than crashing the state machine.
#[verifier::loop_isolation(false)]
pub fn verify_preconditions(
    event: &NiriEvent,
    workspaces: &[u64],
    windows: &[u64],
    casts: &[u64],
    layouts_loaded: bool,
) -> (r: Result<(), DesyncReason>)
    ensures
        r == precondition(*event, workspaces@, windows@, casts@, layouts_loaded),
{
    match event {
        NiriEvent::WorkspaceActivated(id) | NiriEvent::WorkspaceActiveWindowChanged(id) => {
            if contains(workspaces, *id) {
                Ok(())
            } else {
                Err(DesyncReason::WorkspaceMissing { workspace_id: *id })
            }
        },
        NiriEvent::WindowClosed(id) => {
            if contains(windows, *id) {
                Ok(())
            } else {
                Err(DesyncReason::WindowMissing { window_id: *id })
            }
        },
        NiriEvent::WindowLayoutsChanged(changes) => {
            let mut i: usize = 0;
            assert(changes@.skip(0) =~= changes@);
            while i < changes.len()
                invariant
                    i <= changes@.len(),
                    first_unknown(changes@, windows@) == first_unknown(changes@.skip(i as int), windows@),
                decreases changes@.len() - i,
            {
                proof {
                    assert(changes@.skip(i as int).drop_first() =~= changes@.skip(i + 1));
                }
                if !contains(windows, changes[i]) {
                    return Err(DesyncReason::WindowMissing { window_id: changes[i] });
                }
                i = i + 1;
            }
            Ok(())
        },
        NiriEvent::KeyboardLayoutSwitched => {
            if layouts_loaded {
                Ok(())
            } else {
                Err(DesyncReason::KeyboardLayoutsNotLoaded)
            }
        },
        NiriEvent::CastStopped(id) => {
            if contains(casts, *id) {
                Ok(())
            } else {
                Err(DesyncReason::CastMissing { stream_id: *id })
            }
        },
        _ => Ok(()),
    }
}

/// Which service properties an applied event refreshes.
#[derive(Debug, Clone, Copy, PartialEq, Eq, Structural)]
pub struct RefreshTargets {
    /// The workspaces.
    pub workspaces: bool,
    /// The windows.
    pub windows: bool,
    /// The focused window id.
    pub focused_window: bool,
    /// The keyboard layouts.
    pub keyboard_layouts: bool,
    /// Whether the overview is open.
    pub overview: bool,
    /// Whether the last config load failed.
    pub config: bool,
}

/// What each event can have changed: workspace events the workspaces; window events the
/// windows and the focused window (a focus-timestamp change only the windows); layout
/// events the keyboard layouts; the overview and config events their flags; a screenshot
/// or a screencast change nothing.
pub open spec fn refresh_spec(event: NiriEvent) -> RefreshTargets {
    let none = RefreshTargets {
        workspaces: false,
        windows: false,
        focused_window: false,
        keyboard_layouts: false,
        overview: false,
        config: false,
    };
    match event {
        NiriEvent::WorkspacesChanged | NiriEvent::WorkspaceUrgencyChanged
        | NiriEvent::WorkspaceActivated(_) | NiriEvent::WorkspaceActiveWindowChanged(_) => RefreshTargets {
            workspaces: true,
            ..none
        },
        NiriEvent::WindowsChanged | NiriEvent::WindowOpenedOrChanged | NiriEvent::WindowClosed(_)
        | NiriEvent::WindowFocusChanged | NiriEvent::WindowUrgencyChanged
        | NiriEvent::WindowLayoutsChanged(_) => RefreshTargets { windows: true, focused_window: true, ..none },
        NiriEvent::WindowFocusTimestampChanged => RefreshTargets { windows: true, ..none },
        NiriEvent::KeyboardLayoutsChanged | NiriEvent::KeyboardLayoutSwitched => RefreshTargets {
            keyboard_layouts: true,
            ..none
        },
        NiriEvent::OverviewOpenedOrClosed => RefreshTargets { overview: true, ..none },
        NiriEvent::ConfigLoaded => RefreshTargets { config: true, ..none },
        NiriEvent::ScreenshotCaptured | NiriEvent::CastsChanged | NiriEvent::CastStartedOrChanged
        | NiriEvent::CastStopped(_) => none,
    }
}

/// Whether `e` is a window event: one that can change a window's state.
pub open spec fn is_window_event(e: NiriEvent) -> bool {
    ||| e is WindowsChanged
    ||| e is WindowOpenedOrChanged
    ||| e is WindowClosed
    ||| e is WindowFocusChanged
    ||| e is WindowUrgencyChanged
    ||| e is WindowLayoutsChanged
    ||| e is WindowFocusTimestampChanged
}

/// A window event refreshes the windows, and every window event but a focus-timestamp change
/// refreshes the focused window too (a focus change above all); no other event touches
/// either, and the focused window is never refreshed without the windows.
pub proof fn law_window_events_refresh_focus(e: NiriEvent)
    ensures
        is_window_event(e) <==> refresh_spec(e).windows,
        refresh_spec(e).focused_window <==> is_window_event(e) && !(e is WindowFocusTimestampChanged),
        e is WindowFocusChanged ==> refresh_spec(e).focused_window,
        refresh_spec(e).focused_window ==> refresh_spec(e).windows,
{
}

/// The properties an applied event refreshes (see [`refresh_spec`]).
pub fn refresh_targets(event: &NiriEvent) -> (r: RefreshTargets)
    ensures
        r == refresh_spec(*event),
        r.windows <==> is_window_event(*event),
        r.focused_window <==> is_window_event(*event) && !(*event is WindowFocusTimestampChanged),
{
    let none = RefreshTargets {
        workspaces: false,
        windows: false,
        focused_window: false,
        keyboard_layouts: false,
        overview: false,
        config: false,
    };
    match event {
        NiriEvent::WorkspacesChanged | NiriEvent::WorkspaceUrgencyChanged
        | NiriEvent::WorkspaceActivated(_) | NiriEvent::WorkspaceActiveWindowChanged(_) => RefreshTargets {
            workspaces: true,
            ..none
        },
        NiriEvent::WindowsChanged | NiriEvent::WindowOpenedOrChanged | NiriEvent::WindowClosed(_)
        | NiriEvent::WindowFocusChanged | NiriEvent::WindowUrgencyChanged
        | NiriEvent::WindowLayoutsChanged(_) => RefreshTargets { windows: true, focused_window: true, ..none },
        NiriEvent::WindowFocusTimestampChanged => RefreshTargets { windows: true, ..none },
        NiriEvent::KeyboardLayoutsChanged | NiriEvent::KeyboardLayoutSwitched => RefreshTargets {
            keyboard_layouts: true,
            ..none
        },
        NiriEvent::OverviewOpenedOrClosed => RefreshTargets { overview: true, ..none },
        NiriEvent::ConfigLoaded => RefreshTargets { config: true, ..none },
        NiriEvent::ScreenshotCaptured | NiriEvent::CastsChanged | NiriEvent::CastStartedOrChanged
        | NiriEvent::CastStopped(_) => none,
    }
}

/// The first focused window among `(id, is_focused)` pairs, in the order given.
pub open spec fn first_focused(windows: Seq<(u64, bool)>) -> Option<u64>
    decreases windows.len(),
{
    if windows.len() == 0 {
        None
    } else if windows[0].1 {
        Some(windows[0].0)
    } else {
        first_focused(windows.drop_first())
    }
}

/// The focused window id: the first window with focus, in the caller's iteration order.
pub fn focused_window_id(windows: &[(u64, bool)]) -> (r: Option<u64>)
    ensures
        r == first_focused(windows@),
{
    let mut i: usize = 0;
    assert(windows@.skip(0) =~= windows@);
    while i < windows.len()
        invariant
            i <= windows@.len(),
            first_focused(windows@) == first_focused(windows@.skip(i as int)),
        decreases windows@.len() - i,
    {
        proof {
            assert(windows@.skip(i as int).drop_first() =~= windows@.skip(i + 1));
        }
        if windows[i].1 {
            return Some(windows[i].0);
        }
        i = i + 1;
    }
    None
}

/// An event that passes the precondition references only state that exists.
pub proof fn law_applied_events_reference_known_state(
    event: NiriEvent,
    workspaces: Seq<u64>,
    windows: Seq<u64>,
    casts: Seq<u64>,
    layouts_loaded: bool,
)
    requires
        precondition(event, workspaces, windows, casts, layouts_loaded) is Ok,
    ensures
        event matches NiriEvent::WorkspaceActivated(id) ==> known(workspaces, id),
        event matches NiriEvent::WorkspaceActiveWindowChanged(id) ==> known(workspaces, id),
        event matches NiriEvent::WindowClosed(id) ==> known(windows, id),
        event matches NiriEvent::WindowLayoutsChanged(changes) ==> forall|i: int|
            0 <= i < changes@.len() ==> known(windows, #[trigger] changes@[i]),
        event is KeyboardLayoutSwitched ==> layouts_loaded,
        event matches NiriEvent::CastStopped(id) ==> known(casts, id),
{
    if let NiriEvent::WindowLayoutsChanged(changes) = event {
        lemma_first_unknown_none(changes@, windows);
    }
}

/// No unknown window among the changes means every change is known.
proof fn lemma_first_unknown_none(changes: Seq<u64>, windows: Seq<u64>)
    requires
        first_unknown(changes, windows) is None,
    ensures
        forall|i: int| 0 <= i < changes.len() ==> known(windows, #[trigger] changes[i]),
    decreases changes.len(),
{
    if changes.len() > 0 {
        lemma_first_unknown_none(changes.drop_first(), windows);
        assert forall|i: int| 0 <= i < changes.len() implies known(windows, #[trigger] changes[i]) by {
            if i > 0 {
                assert(changes[i] == changes.drop_first()[i - 1]);
            }
        }
    }
}

} // verus!
