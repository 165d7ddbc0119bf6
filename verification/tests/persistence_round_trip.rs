use wayle::hints::Variant;
use wayle::model::{
    find_gtk_action, find_portal_action, FreedesktopDispatch, GtkAction, GtkDispatch,
    NotificationSource, PortalAction, PortalDispatch, Timeout,
};
use wayle::persistence::{
    expires_at, gtk_action_from_stored, keep_on_load, portal_action_from_stored, source_from_stored,
    stored_action, stored_portal_action,
    stored_source, StoredSource,
};
use wayle::types::ButtonPurpose;

fn serialize_source(source: &NotificationSource) -> StoredSource {
    stored_source(source.clone())
}

fn deserialize_source(raw: Option<StoredSource>) -> NotificationSource {
    match raw {
        Some(stored) => source_from_stored(stored),
        None => NotificationSource::Freedesktop(FreedesktopDispatch {
            wire_id: 0,
            session_id: String::new(),
            owner: None,
        }),
    }
}

fn yay(head: u8, bytes: &[u8]) -> Variant {
    Variant::Structure(vec![
        Variant::U8(head),
        Variant::Array(String::from("y"), bytes.iter().map(|b| Variant::U8(*b)).collect()),
    ])
}

fn surviving(rows: &[(i64, Option<i64>)], now: i64, remove_expired: bool) -> Vec<i64> {
    rows.iter()
        .filter(|(_, deadline)| keep_on_load(*deadline, now, remove_expired))
        .map(|(id, _)| *id)
        .collect()
}

#[test]
fn load_all_reaps_only_elapsed_finite_deadlines() {
    let now = 1_700_000_000_000i64;
    let rows = [(1, Some(now - 1_000)), (2, Some(now + 60_000)), (3, None)];
    assert_eq!(surviving(&rows, now, true), vec![2, 3]);
}

#[test]
fn load_all_without_reaping_keeps_every_row() {
    let now = 1_700_000_000_000i64;
    let rows = [(1, Some(now - 1_000)), (2, None)];
    assert_eq!(surviving(&rows, now, false), vec![1, 2]);
}

#[test]
fn a_deadline_equal_to_now_is_reaped() {
    let now = 5_000i64;
    assert!(!keep_on_load(Some(now), now, true));
    assert!(keep_on_load(Some(now + 1), now, true));
}

#[test]
fn only_a_finite_timeout_gets_a_deadline() {
    assert_eq!(expires_at(1_000, Timeout::After(5_000)), Some(6_000));
    assert_eq!(expires_at(1_000, Timeout::ServerDefault), None);
    assert_eq!(expires_at(1_000, Timeout::NeverByApp), None);
    assert_eq!(expires_at(1_000, Timeout::PersistentByBackend), None);
}

#[test]
fn source_round_trips_gtk_dispatch_with_target() {
    let source = NotificationSource::Gtk(GtkDispatch {
        app_id: String::from("org.gnome.Fractal"),
        gtk_id: String::from("msg-1"),
        default_action: Some(GtkAction {
            name: String::from("show"),
            target: None,
        }),
        button_actions: vec![GtkAction {
            name: String::from("open"),
            target: Some(Variant::Str(String::from("chat-42"))),
        }],
    });

    let restored = deserialize_source(Some(serialize_source(&source)));

    let NotificationSource::Gtk(dispatch) = restored else {
        panic!("expected a gtk source");
    };
    assert_eq!(dispatch.app_id, "org.gnome.Fractal");
    assert_eq!(dispatch.gtk_id, "msg-1");
    let default = dispatch.default_action.clone().expect("default action preserved");
    assert_eq!(default.name, "show");
    assert!(default.target.is_none());
    let action = find_gtk_action(&dispatch.button_actions, "open").expect("button action preserved");
    assert_eq!(action.name, "open");
    let target = action.target.as_ref().expect("target preserved");
    assert_eq!(*target, Variant::Str(String::from("chat-42")));
}

#[test]
fn source_round_trips_structured_default_action_target() {
    let target = yay(5, &[1, 2, 3]);

    let source = NotificationSource::Gtk(GtkDispatch {
        app_id: String::from("de.schmidhuberj.Flare"),
        gtk_id: String::from("msg-1"),
        default_action: Some(GtkAction {
            name: String::from("notification-clicked"),
            target: Some(target.clone()),
        }),
        button_actions: Vec::new(),
    });

    let restored = deserialize_source(Some(serialize_source(&source)));

    let NotificationSource::Gtk(dispatch) = restored else {
        panic!("expected a gtk source");
    };
    let default = dispatch.default_action.expect("default action preserved");
    assert_eq!(default.name, "notification-clicked");
    let restored_target = default.target.expect("structured target preserved");
    assert_eq!(restored_target, target);
}

#[test]
fn source_round_trips_dispatch_with_mixed_target_schemas() {
    let source = NotificationSource::Gtk(GtkDispatch {
        app_id: String::from("de.schmidhuberj.Flare"),
        gtk_id: String::from("msg-7"),
        default_action: Some(GtkAction {
            name: String::from("notification-clicked"),
            target: Some(yay(5, &[1, 2, 3])),
        }),
        button_actions: vec![
            GtkAction {
                name: String::from("reply"),
                target: Some(Variant::Str(String::from("thread-9"))),
            },
            GtkAction {
                name: String::from("mark"),
                target: Some(yay(1, &[9, 8, 7])),
            },
            GtkAction {
                name: String::from("count"),
                target: Some(Variant::U32(3)),
            },
            GtkAction {
                name: String::from("dismiss"),
                target: None,
            },
        ],
    });

    let NotificationSource::Gtk(dispatch) = deserialize_source(Some(serialize_source(&source)))
    else {
        panic!("expected a gtk source");
    };

    let default = dispatch.default_action.clone().expect("default action preserved");
    assert_eq!(default.name, "notification-clicked");
    assert_eq!(default.target, Some(yay(5, &[1, 2, 3])));

    let reply = find_gtk_action(&dispatch.button_actions, "reply").expect("reply button preserved");
    assert_eq!(reply.name, "reply");
    assert_eq!(reply.target, Some(Variant::Str(String::from("thread-9"))));

    let mark = find_gtk_action(&dispatch.button_actions, "mark").expect("mark button preserved");
    assert_eq!(mark.target, Some(yay(1, &[9, 8, 7])));

    let count = find_gtk_action(&dispatch.button_actions, "count").expect("count button preserved");
    assert_eq!(count.target, Some(Variant::U32(3)));

    let dismiss =
        find_gtk_action(&dispatch.button_actions, "dismiss").expect("dismiss button preserved");
    assert!(dismiss.target.is_none());
}

#[test]
fn none_target_round_trips_as_none() {
    let stored = stored_action(GtkAction {
        name: String::from("show"),
        target: None,
    });
    assert!(stored.target.is_none());
    let restored = gtk_action_from_stored(stored);
    assert_eq!(restored.name, "show");
    assert!(restored.target.is_none());
}

#[test]
fn source_round_trips_portal_dispatch_with_target() {
    let source = NotificationSource::Portal(PortalDispatch {
        app_id: String::from("de.schmidhuberj.Flare"),
        portal_id: String::from("msg-1"),
        default_action: Some(PortalAction {
            name: String::from("app.show"),
            target: None,
            purpose: None,
        }),
        button_actions: vec![PortalAction {
            name: String::from("app.reply"),
            target: Some(yay(5, &[1, 2, 3])),
            purpose: Some(ButtonPurpose::SystemCustomAlert),
        }],
        reply_action: Some(PortalAction {
            name: String::from("app.inline-reply"),
            target: Some(Variant::Str(String::from("thread-1"))),
            purpose: Some(ButtonPurpose::ImReplyWithText),
        }),
    });

    let restored = deserialize_source(Some(serialize_source(&source)));

    let NotificationSource::Portal(dispatch) = restored else {
        panic!("expected a portal source");
    };
    assert_eq!(dispatch.app_id, "de.schmidhuberj.Flare");
    assert_eq!(dispatch.portal_id, "msg-1");
    let default = dispatch.default_action.clone().expect("default action preserved");
    assert_eq!(default.name, "app.show");
    assert!(default.target.is_none());
    let reply =
        find_portal_action(&dispatch.button_actions, "app.reply").expect("button action preserved");
    assert_eq!(reply.name, "app.reply");
    assert_eq!(reply.target, Some(yay(5, &[1, 2, 3])));
    assert_eq!(reply.purpose, Some(ButtonPurpose::SystemCustomAlert));
    let reply_action = dispatch.reply_action.expect("reply action preserved");
    assert_eq!(reply_action.name, "app.inline-reply");
    assert_eq!(reply_action.target, Some(Variant::Str(String::from("thread-1"))));
    assert_eq!(reply_action.purpose, Some(ButtonPurpose::ImReplyWithText));
}

#[test]
fn source_absent_or_unknown_defaults_to_freedesktop() {
    assert!(matches!(
        deserialize_source(None),
        NotificationSource::Freedesktop(_)
    ));
    let garbage = StoredSource {
        kind: String::from("garbage"),
        fdo: None,
        gtk: None,
        portal: None,
    };
    let restored = deserialize_source(Some(garbage));
    let NotificationSource::Freedesktop(d) = restored else {
        panic!("expected a freedesktop source");
    };
    assert_eq!(d.wire_id, 0);
    assert!(d.session_id.is_empty());
    assert!(d.owner.is_none());
}

#[test]
fn freedesktop_source_round_trips_wire_id_session_and_owner() {
    let source = NotificationSource::Freedesktop(FreedesktopDispatch {
        wire_id: 17,
        session_id: String::from("abc123"),
        owner: Some(String::from(":1.42")),
    });
    assert_eq!(deserialize_source(Some(serialize_source(&source))), source);
}

#[test]
fn a_gtk_kind_without_gtk_data_restores_as_freedesktop() {
    let stored = StoredSource {
        kind: String::from("gtk"),
        fdo: None,
        gtk: None,
        portal: None,
    };
    assert!(matches!(
        source_from_stored(stored),
        NotificationSource::Freedesktop(_)
    ));
}

#[test]
fn a_custom_purpose_spelling_a_known_one_comes_back_canonical() {
    let action = PortalAction {
        name: String::from("answer"),
        target: None,
        purpose: Some(ButtonPurpose::Other(String::from("call.accept"))),
    };
    let back = portal_action_from_stored(stored_portal_action(action));
    assert_eq!(back.name, "answer");
    assert_eq!(back.purpose, Some(ButtonPurpose::CallAccept));
    let custom = PortalAction {
        name: String::from("snooze"),
        target: None,
        purpose: Some(ButtonPurpose::Other(String::from("x-snooze"))),
    };
    let back = portal_action_from_stored(stored_portal_action(custom));
    assert_eq!(back.purpose, Some(ButtonPurpose::Other(String::from("x-snooze"))));
}
