use wayle::niri::{
    focused_window_id, refresh_targets, verify_preconditions, DesyncReason, NiriEvent,
    SocketKind as NiriSocketKind,
};
use wayle::triad::{
    action_request, apply_window, apply_windows, apply_workspaces, decode_event, decode_event_line,
    decode_reply, decode_reply_line, parse_json, JSON_DEPTH,
    event_of, event_stream_request, focused_window, snapshot_layouts, socket_path, state_request,
    EventPayload, Json, JsonNumber, KeyboardLayoutTarget, KeyboardLayouts, ReplyError,
    SocketKind, TriadAction, TriadEvent, Window, Workspace,
};
use std::collections::HashMap;

fn s(x: &str) -> Json {
    Json::Str(String::from(x))
}

fn obj(entries: Vec<(&str, Json)>) -> Json {
    Json::Object(entries.into_iter().map(|(k, v)| (String::from(k), v)).collect())
}

fn n(x: u64) -> Json {
    Json::Number(JsonNumber::Unsigned(x))
}

#[test]
fn socket_kinds_name_themselves() {
    assert_eq!(SocketKind::Command.as_str(), "command");
    assert_eq!(SocketKind::EventStream.as_str(), "event-stream");
    assert_eq!(NiriSocketKind::EventStream.as_str(), "event-stream");
}

#[test]
fn a_rejected_reply_carries_triads_message() {
    let reply = obj(vec![("ok", Json::Bool(false)), ("error", s("no such tag"))]);
    assert_eq!(decode_reply(reply), Err(ReplyError::Rejected(String::from("no such tag"))));
    let reply = obj(vec![("ok", Json::Bool(false))]);
    assert_eq!(decode_reply(reply), Err(ReplyError::Rejected(String::from("request failed"))));
}

#[test]
fn an_accepted_reply_yields_its_payload() {
    let reply = obj(vec![("ok", Json::Bool(true)), ("triad", n(3))]);
    assert_eq!(decode_reply(reply), Ok(n(3)));
    let reply = obj(vec![("ok", Json::Bool(true))]);
    assert_eq!(decode_reply(reply), Err(ReplyError::UnexpectedResponse(String::from("triad"))));
}

#[test]
fn event_lines_decode_by_their_name() {
    let line = obj(vec![("triad", obj(vec![("event", s("window-changed")), ("window", n(7))]))]);
    assert_eq!(decode_event(line), Ok(Some(EventPayload::Window(n(7)))));
    let line = obj(vec![("triad", obj(vec![("event", s("state-changed")), ("state", n(1))]))]);
    assert_eq!(decode_event(line), Ok(Some(EventPayload::State(n(1)))));
    let line = obj(vec![("triad", obj(vec![("event", s("layout-state-changed"))]))]);
    assert_eq!(decode_event(line), Err(ReplyError::UnexpectedResponse(String::from("layout event"))));
    let line = obj(vec![("triad", obj(vec![("event", s("other"))]))]);
    assert_eq!(decode_event(line), Ok(None));
    assert_eq!(decode_event(obj(vec![])), Ok(None));
    assert_eq!(
        event_of(&EventPayload::Window(n(7)), 7),
        TriadEvent::WindowChanged { window_id: Some(7) }
    );
}

#[test]
fn requests_are_versioned_triad_objects() {
    let expected_state = obj(vec![("triad", obj(vec![("version", n(1)), ("request", s("state"))]))]);
    assert_eq!(state_request(), expected_state);
    match event_stream_request() {
        Json::Object(outer) => match &outer[0].1 {
            Json::Object(inner) => assert_eq!(inner[1].1, s("event-stream")),
            _ => panic!("inner object"),
        },
        _ => panic!("outer object"),
    }
    let focus = obj(vec![(
        "triad",
        obj(vec![
            ("version", n(1)),
            ("request", s("action")),
            ("action", s("focus-tag")),
            ("tag", n(4)),
        ]),
    )]);
    assert_eq!(action_request(TriadAction::FocusTag(4)), focus);
    let spawn = obj(vec![(
        "triad",
        obj(vec![
            ("version", n(1)),
            ("request", s("action")),
            ("action", s("spawn")),
            ("argv", Json::Array(vec![s("foot"), s("-e")])),
        ]),
    )]);
    assert_eq!(
        action_request(TriadAction::Spawn(vec![String::from("foot"), String::from("-e")])),
        spawn
    );
    let prev = obj(vec![(
        "triad",
        obj(vec![
            ("version", n(1)),
            ("request", s("action")),
            ("action", s("switch-keyboard-layout")),
            ("layout", s("prev")),
        ]),
    )]);
    assert_eq!(
        action_request(TriadAction::SwitchKeyboardLayout(KeyboardLayoutTarget::Previous)),
        prev
    );
    let close = obj(vec![(
        "triad",
        obj(vec![("version", n(1)), ("request", s("action")), ("action", s("close-window"))]),
    )]);
    assert_eq!(action_request(TriadAction::CloseWindow(None)), close);
}

#[test]
fn the_socket_path_prefers_the_environment() {
    assert_eq!(socket_path(Some(String::from("/run/t.sock")), Some(String::from("/run/user/1"))), "/run/t.sock");
    assert_eq!(socket_path(Some(String::new()), Some(String::from("/run/user/1"))), "/run/user/1/triad.sock");
    assert_eq!(socket_path(None, Some(String::from("/run/user/1/"))), "/run/user/1/triad.sock");
    assert_eq!(socket_path(None, None), "/tmp/triad.sock");
}

fn window(id: u64, focused: bool) -> Window {
    Window { id, is_focused: focused, ..Default::default() }
}

fn workspace(tag: u64, active: bool, focused: Option<u64>) -> Workspace {
    Workspace { tag_id: tag, is_active: active, focused_window_id: focused, ..Default::default() }
}

#[test]
fn the_focused_window_falls_back_to_the_active_workspace() {
    assert_eq!(focused_window(&[window(1, false), window(2, true)], &[]), Some(2));
    assert_eq!(
        focused_window(&[window(1, false)], &[workspace(1, false, Some(5)), workspace(2, true, Some(9))]),
        Some(9)
    );
    assert_eq!(focused_window(&[], &[workspace(1, false, Some(5))]), None);
}

#[test]
fn snapshots_replace_the_maps_and_the_layout_index() {
    let ws = apply_workspaces(vec![workspace(1, true, None), workspace(2, false, None)]);
    assert_eq!(ws.len(), 2);
    assert!(ws[&1].is_active);
    let mut wins = apply_windows(vec![window(1, false), window(1, true)]);
    assert_eq!(wins.len(), 1);
    assert!(wins[&1].is_focused);
    apply_window(&mut wins, window(3, false));
    assert_eq!(wins.len(), 2);
    let layouts = KeyboardLayouts { names: vec![String::from("us"), String::from("de")], current_idx: 0 };
    assert_eq!(snapshot_layouts(layouts.clone(), Some(1)).current_idx, 1);
    assert_eq!(snapshot_layouts(layouts, None).current_idx, 0);
    let _: HashMap<u64, Window> = wins;
}

#[test]
fn niri_events_need_the_state_they_reference() {
    assert_eq!(verify_preconditions(&NiriEvent::WorkspaceActivated(1), &[1], &[], &[], false), Ok(()));
    assert_eq!(
        verify_preconditions(&NiriEvent::WorkspaceActivated(2), &[1], &[], &[], false),
        Err(DesyncReason::WorkspaceMissing { workspace_id: 2 })
    );
    assert_eq!(
        verify_preconditions(&NiriEvent::WindowClosed(4), &[], &[3], &[], false),
        Err(DesyncReason::WindowMissing { window_id: 4 })
    );
    assert_eq!(
        verify_preconditions(&NiriEvent::WindowLayoutsChanged(vec![3, 5, 6]), &[], &[3], &[], false),
        Err(DesyncReason::WindowMissing { window_id: 5 })
    );
    assert_eq!(
        verify_preconditions(&NiriEvent::KeyboardLayoutSwitched, &[], &[], &[], false),
        Err(DesyncReason::KeyboardLayoutsNotLoaded)
    );
    assert_eq!(verify_preconditions(&NiriEvent::WindowsChanged, &[], &[], &[], false), Ok(()));
    assert_eq!(verify_preconditions(&NiriEvent::CastStopped(9), &[], &[], &[9], false), Ok(()));
    assert_eq!(
        verify_preconditions(&NiriEvent::CastStopped(8), &[], &[], &[9], false),
        Err(DesyncReason::CastMissing { stream_id: 8 })
    );
    assert!(!refresh_targets(&NiriEvent::CastsChanged).windows);
}

#[test]
fn niri_events_refresh_what_they_touch() {
    let t = refresh_targets(&NiriEvent::WindowClosed(1));
    assert!(t.windows && t.focused_window && !t.workspaces);
    let t = refresh_targets(&NiriEvent::WindowFocusTimestampChanged);
    assert!(t.windows && !t.focused_window);
    let t = refresh_targets(&NiriEvent::ScreenshotCaptured);
    assert!(!t.windows && !t.workspaces && !t.keyboard_layouts && !t.overview && !t.config);
    assert_eq!(focused_window_id(&[(1, false), (2, true), (3, true)]), Some(2));
    assert_eq!(focused_window_id(&[]), None);
}

#[test]
fn windows_and_workspaces_are_equal_by_identity() {
    assert_eq!(window(1, false), window(1, true));
    assert_ne!(window(1, false), window(2, false));
    assert_eq!(workspace(3, true, None), workspace(3, false, Some(1)));
    assert_ne!(workspace(3, true, None), workspace(4, true, None));
}

#[test]
fn desync_reasons_read_as_log_messages() {
    assert_eq!(
        DesyncReason::WorkspaceMissing { workspace_id: 42 }.message(),
        "workspace 42 not in local state"
    );
    assert_eq!(DesyncReason::WindowMissing { window_id: 0 }.message(), "window 0 not in local state");
    assert_eq!(
        DesyncReason::WindowMissing { window_id: u64::MAX }.message(),
        "window 18446744073709551615 not in local state"
    );
    assert_eq!(
        DesyncReason::KeyboardLayoutsNotLoaded.message(),
        "keyboard-layouts snapshot not received yet"
    );
    assert_eq!(
        DesyncReason::CastMissing { stream_id: 7 }.message(),
        "screencast 7 not in local state"
    );
}

#[test]
fn raw_lines_decode_through_the_json_parse() {
    assert_eq!(decode_reply_line("not json"), Err(ReplyError::JsonParse));
    assert_eq!(
        decode_reply_line(r#"{"ok":false,"error":"no such tag"}"#),
        Err(ReplyError::Rejected(String::from("no such tag")))
    );
    assert_eq!(
        decode_reply_line(r#"{"ok":true,"triad":{"version":1}}"#),
        Ok(Json::Object(vec![(String::from("version"), Json::Number(JsonNumber::Unsigned(1)))]))
    );
    assert_eq!(
        decode_event_line(r#"{"triad":{"event":"window-changed","window":{"id":5}}}"#),
        Ok(Some(EventPayload::Window(Json::Object(vec![(
            String::from("id"),
            Json::Number(JsonNumber::Unsigned(5))
        )]))))
    );
    assert_eq!(decode_event_line(r#"{"triad":{"event":"other"}}"#), Ok(None));
    assert_eq!(decode_event_line("{"), Err(ReplyError::JsonParse));
    assert_eq!(
        parse_json(r#"[1,-2,1.5,"x",null,true,[[]]]"#, JSON_DEPTH),
        Some(Json::Array(vec![
            Json::Number(JsonNumber::Unsigned(1)),
            Json::Number(JsonNumber::Signed(-2)),
            Json::Number(JsonNumber::Text(String::from("1.5"))),
            Json::Str(String::from("x")),
            Json::Null,
            Json::Bool(true),
            Json::Array(vec![Json::Array(vec![])]),
        ]))
    );
    assert_eq!(parse_json("[[1]]", 2), None);
    assert!(parse_json("[[1]]", 3).is_some());
}
