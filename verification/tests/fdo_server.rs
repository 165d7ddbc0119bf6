use wayle::fdo_server::close_notification;
use wayle::notification::NotificationEvent;
use wayle::types::ClosedReason;
use wayle::fdo_server::{
    get_capabilities, get_server_information, is_blocked, notify, notify_with, NotifyCall,
};
use wayle::hints::Variant;
use wayle::model::{NotificationId, NotificationSource};
use wayle::wire_registry::WireRegistry;

fn call(app: &str, replaces_id: u32, hints: Vec<(String, Variant)>) -> NotifyCall {
    NotifyCall {
        owner: Some(String::from(":1.9")),
        app_name: String::from(app),
        replaces_id,
        app_icon: String::new(),
        summary: String::from("Hello"),
        body: String::from("World"),
        actions: vec![String::from("default"), String::from("Open")],
        hints,
        expire_timeout: -1,
    }
}

#[test]
fn glob_patterns_match_like_the_wildcard_crate() {
    assert!(wayle::fdo_server::matches("Spotify", "Spotify"));
    assert!(wayle::fdo_server::matches("Spot*", "Spotify"));
    assert!(wayle::fdo_server::matches("*fy", "Spotify"));
    assert!(wayle::fdo_server::matches("Sp?tify", "Spotify"));
    assert!(!wayle::fdo_server::matches("Spot", "Spotify"));
    assert!(!wayle::fdo_server::matches("*chat*", "Spotify"));
}

#[test]
fn blocklist_blocks_when_any_pattern_matches() {
    let patterns = vec![String::from("Discord"), String::from("spot*")];
    assert!(is_blocked(&patterns, "spotify"));
    assert!(is_blocked(&patterns, "Discord"));
    assert!(!is_blocked(&patterns, "Mail"));
    assert!(!is_blocked(&[], "Mail"));
}

#[test]
fn capabilities_are_advertised_in_order() {
    assert_eq!(
        get_capabilities(),
        vec![
            "body",
            "body-markup",
            "body-hyperlinks",
            "actions",
            "action-icons",
            "icon-static",
            "body-images",
            "persistence",
            "sound",
            "inline-reply",
        ]
    );
}

#[test]
fn server_information_names_wayle_and_spec_version() {
    let (name, vendor, version, spec) = get_server_information("0.4.2");
    assert_eq!(name, "wayle");
    assert_eq!(vendor, "wayle");
    assert_eq!(version, "0.4.2");
    assert_eq!(spec, "1.3");
}

#[test]
fn notify_translates_and_returns_the_wire_id() {
    let mut reg = WireRegistry::empty(1);
    let (wire, props) = notify_with(&mut reg, &[], "sess", 42, call("Mail", 0, vec![]), NotificationId::new(3));
    assert_eq!(wire, 1);
    let props = props.expect("not blocked");
    assert_eq!(props.id, NotificationId::new(3));
    assert_eq!(props.timestamp, 42);
    assert_eq!(props.content.summary, "Hello");
    match props.dispatch {
        NotificationSource::Freedesktop(d) => {
            assert_eq!(d.wire_id, 1);
            assert_eq!(d.session_id, "sess");
            assert_eq!(d.owner.as_deref(), Some(":1.9"));
        }
        _ => panic!("expected a freedesktop dispatch"),
    }
}

#[test]
fn a_blocked_app_still_gets_its_wire_id_but_nothing_is_shown() {
    let mut reg = WireRegistry::empty(1);
    let blocklist = vec![String::from("Spam*")];
    let (wire, props) = notify_with(&mut reg, &blocklist, "sess", 0, call("SpamBot", 0, vec![]), NotificationId::new(3));
    assert_eq!(wire, 1);
    assert!(props.is_none());
    let (wire, _) = notify(&mut reg, &blocklist, "sess", 0, call("Mail", 0, vec![]));
    assert_eq!(wire, 2);
}

#[test]
fn notify_coalesces_on_a_stack_tag() {
    let mut reg = WireRegistry::empty(1);
    let tag = vec![(String::from("x-dunst-stack-tag"), Variant::Str(String::from("volume")))];
    let (w1, p1) = notify_with(&mut reg, &[], "s", 0, call("Vol", 0, tag.clone()), NotificationId::new(1));
    let (w2, p2) = notify_with(&mut reg, &[], "s", 0, call("Vol", 0, tag), NotificationId::new(2));
    assert_eq!((w1, w2), (1, 2));
    assert_eq!(p1.unwrap().id, NotificationId::new(1));
    assert_eq!(p2.unwrap().id, NotificationId::new(1));
}

#[test]
fn notify_replacing_its_own_wire_keeps_both() {
    let mut reg = WireRegistry::empty(1);
    let (w1, _) = notify_with(&mut reg, &[], "s", 0, call("Mail", 0, vec![]), NotificationId::new(1));
    let (w2, p2) = notify_with(&mut reg, &[], "s", 0, call("Mail", w1, vec![]), NotificationId::new(2));
    assert_eq!(w2, w1);
    assert_eq!(p2.unwrap().id, NotificationId::new(1));
}

#[test]
fn closing_by_wire_id_removes_the_notification_once() {
    let mut reg = WireRegistry::empty(1);
    let (wire, _) = notify_with(&mut reg, &[], "s", 0, call("Mail", 0, vec![]), NotificationId::new(6));
    assert!(matches!(
        close_notification(&mut reg, wire),
        Some(NotificationEvent::Remove(id, ClosedReason::Closed)) if id == NotificationId::new(6)
    ));
    assert!(close_notification(&mut reg, wire).is_none());
}
