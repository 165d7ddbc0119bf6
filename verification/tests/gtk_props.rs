use wayle::gtk_backend::{add_notification, add_notification_with, remove_notification, KeyRegistry};
use wayle::notification::NotificationEvent;
use wayle::types::ClosedReason;
use wayle::gtk_backend::build_props;
use wayle::gvariant::{direct_image, parse_icon};
use wayle::hints::{get, Variant};
use wayle::model::{
    Alert, Body, DesktopEntryId, Image, NotificationId, NotificationProps, NotificationSource,
    Timeout,
};
use wayle::types::Priority;

type Vardict = Vec<(String, Variant)>;

fn s(value: &str) -> Variant {
    Variant::Str(value.to_string())
}

fn boxed(value: &str) -> Variant {
    Variant::Value(Box::new(s(value)))
}

fn row(entries: &[(&str, &str)]) -> Variant {
    Variant::Dict(
        String::from("s"),
        String::from("v"),
        entries
            .iter()
            .map(|(k, v)| (s(k), boxed(v)))
            .collect(),
    )
}

fn build(app_id: &str, gtk_id: &str, name: &str, map: Vardict) -> NotificationProps {
    let icon = parse_icon_of(&map);
    build_props(NotificationId::new(1), 0, app_id, gtk_id, String::from(name), map, icon)
}

fn parse_icon_of(map: &Vardict) -> Option<Image> {
    get(map, "icon")
        .and_then(parse_icon)
        .and_then(|source| direct_image(source).ok())
}

fn props(app_id: &str, map: Vardict) -> NotificationProps {
    build(app_id, "n1", "Fractal", map)
}

#[test]
fn realistic_chat_notification_maps_all_facets() {
    let button = row(&[("label", "Reply"), ("action", "app.reply"), ("target", "room-7")]);

    let map: Vardict = vec![
        (String::from("title"), s("Alice")),
        (String::from("body"), s("hey <there>")),
        (String::from("priority"), s("high")),
        (String::from("default-action"), s("app.open-room")),
        (String::from("buttons"), Variant::Array(String::from("a{sv}"), vec![button])),
    ];

    let props = props("org.gnome.Fractal", map);

    assert_eq!(props.origin.name.as_deref(), Some("Fractal"));
    assert_eq!(
        props.origin.desktop_entry.as_ref().map(DesktopEntryId::as_str),
        Some("org.gnome.Fractal")
    );
    assert!(props.origin.icon.is_none());

    assert_eq!(props.content.summary, "Alice");
    assert_eq!(props.content.body, Some(Body::Plain(String::from("hey <there>"))));

    assert!(props.actions.default.as_ref().is_some_and(|action| action.id.is_default()));
    assert_eq!(props.actions.buttons.len(), 1);
    assert_eq!(props.actions.buttons[0].id.as_str(), "app.reply");
    assert_eq!(props.actions.buttons[0].label, "Reply");

    assert_eq!(props.classification.priority, Priority::High);
    assert_eq!(props.classification.category, None);

    assert_eq!(props.lifecycle.timeout, Timeout::PersistentByBackend);
    assert_eq!(props.alert, Alert::Unspecified);

    let NotificationSource::Gtk(dispatch) = &props.dispatch else {
        panic!("expected a gtk dispatch");
    };
    assert_eq!(dispatch.app_id, "org.gnome.Fractal");
    assert_eq!(dispatch.default_action.as_ref().unwrap().name, "app.open-room");
    let reply = dispatch.button_action("app.reply").expect("button dispatch");
    assert_eq!(reply.name, "app.reply");
    assert!(reply.target.is_some());
}

#[test]
fn iconless_notification_still_carries_app_id_for_icon_resolution() {
    let props = build("org.gnome.Clocks", "alarm-1", "Clocks", Vardict::new());

    assert!(props.origin.icon.is_none(), "no icon key ⇒ no themed origin icon");
    assert_eq!(
        props.origin.desktop_entry.as_ref().map(DesktopEntryId::as_str),
        Some("org.gnome.Clocks")
    );
    assert!(props.actions.default.is_some());
}

#[test]
fn themed_icon_becomes_origin_icon() {
    let icon = Variant::Structure(vec![
        s("themed"),
        Variant::Value(Box::new(Variant::Array(String::from("s"), vec![s("org.gnome.Clocks")]))),
    ]);
    let map: Vardict = vec![(String::from("icon"), icon)];

    let props = props("org.gnome.Clocks", map);

    assert_eq!(props.origin.icon, Some(Image::Named(String::from("org.gnome.Clocks"))));
    assert!(props.image.is_none(), "themed icon is a header icon, not a content image");
}

#[test]
fn non_app_prefixed_buttons_are_displayed_and_dispatchable() {
    let button = row(&[("label", "Snooze"), ("action", "win.close")]);
    let map: Vardict = vec![(String::from("buttons"), Variant::Array(String::from("a{sv}"), vec![button]))];

    let props = props("org.gnome.Fractal", map);

    assert_eq!(props.actions.buttons.len(), 1, "every button is displayed");
    assert_eq!(props.actions.buttons[0].label, "Snooze");
    let NotificationSource::Gtk(dispatch) = props.dispatch else {
        panic!("expected a GTK dispatch");
    };
    let action = dispatch
        .button_action("win.close")
        .expect("non-app. button kept for dispatch");
    assert_eq!(action.name, "win.close", "the full action name is retained");
}

#[test]
fn absent_priority_defaults_to_normal() {
    assert_eq!(props("app.X", Vardict::new()).classification.priority, Priority::Normal);
}

#[test]
fn legacy_urgent_flag_lifts_to_urgent() {
    let map: Vardict = vec![(String::from("urgent"), Variant::Bool(true))];
    assert_eq!(props("app.X", map).classification.priority, Priority::Urgent);
    let map: Vardict = vec![(String::from("urgent"), Variant::Bool(false))];
    assert_eq!(props("app.X", map).classification.priority, Priority::Normal);
}

#[test]
fn malformed_rows_and_reserved_buttons_are_skipped_and_last_duplicate_wins() {
    let rows = vec![
        row(&[("label", "No action")]),
        row(&[("label", "Reserved"), ("action", "default")]),
        row(&[("label", "First"), ("action", "app.go"), ("target", "one")]),
        row(&[("label", "Second"), ("action", "app.go"), ("target", "two")]),
    ];
    let map: Vardict = vec![(String::from("buttons"), Variant::Array(String::from("a{sv}"), rows))];
    let props = props("app.X", map);
    let labels: Vec<_> = props.actions.buttons.iter().map(|a| a.label.as_str()).collect();
    assert_eq!(labels, vec!["First", "Second"]);
    let NotificationSource::Gtk(dispatch) = props.dispatch else {
        panic!("expected a GTK dispatch");
    };
    let action = dispatch.button_action("app.go").unwrap();
    assert_eq!(action.target, Some(Variant::Value(Box::new(s("two")))));
}

#[test]
fn a_resend_with_the_same_key_keeps_its_identity_and_a_withdrawal_closes_it() {
    let mut keys = KeyRegistry::new();
    let first = add_notification_with(&mut keys, &[], 0, "org.gnome.Fractal", "n1", None, Vardict::new(), None, NotificationId::new(1))
        .expect("not blocked");
    assert_eq!(first.id, NotificationId::new(1));
    assert_eq!(first.origin.name.as_deref(), Some("org.gnome.Fractal"));
    let again = add_notification_with(&mut keys, &[], 5, "org.gnome.Fractal", "n1", Some(String::from("Fractal")), Vardict::new(), None, NotificationId::new(2))
        .expect("not blocked");
    assert_eq!(again.id, NotificationId::new(1));
    assert_eq!(again.origin.name.as_deref(), Some("Fractal"));
    let other = add_notification_with(&mut keys, &[], 5, "org.gnome.Fractal", "n2", None, Vardict::new(), None, NotificationId::new(3))
        .expect("not blocked");
    assert_eq!(other.id, NotificationId::new(3));
    assert!(matches!(
        remove_notification(&mut keys, "org.gnome.Fractal", "n1"),
        Some(NotificationEvent::Remove(id, ClosedReason::Closed)) if id == NotificationId::new(1)
    ));
    assert!(remove_notification(&mut keys, "org.gnome.Fractal", "n1").is_none());
}

#[test]
fn a_blocked_app_is_dropped_by_its_shown_name() {
    let mut keys = KeyRegistry::new();
    let blocklist = vec![String::from("Fract*")];
    assert!(add_notification_with(&mut keys, &blocklist, 0, "org.gnome.Fractal", "n1", Some(String::from("Fractal")), Vardict::new(), None, NotificationId::new(1)).is_none());
    // Without a desktop-file name the app id is matched, which the pattern misses.
    assert!(add_notification(&mut keys, &blocklist, 0, "org.gnome.Fractal", "n1", None, Vardict::new(), None).is_some());
}

#[test]
fn restored_keys_let_an_app_replace_across_a_restart() {
    let props = build("org.gnome.Fractal", "n1", "Fractal", Vardict::new());
    let mut keys = wayle::gtk_backend::restore_keys(&[wayle::notification::Notification::from_props(props)]);
    let again = add_notification_with(&mut keys, &[], 9, "org.gnome.Fractal", "n1", None, Vardict::new(), None, NotificationId::new(77))
        .expect("not blocked");
    assert_eq!(again.id, NotificationId::new(1));
    assert!(remove_notification(&mut keys, "org.gnome.Fractal", "n1").is_some());
}
