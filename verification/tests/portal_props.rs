use wayle::gtk_backend::KeyRegistry;
use wayle::portal_backend::{add_notification_with, remove_notification};
use wayle::notification::NotificationEvent;
use wayle::gvariant::{direct_image, parse_icon};
use wayle::hints::{get, Variant};
use wayle::model::{
    Alert, Body, DesktopEntryId, LockscreenVisibility, NotificationId, NotificationProps,
    NotificationSource, Routing,
};
use wayle::portal_backend::{build_props, supported_options, INTERFACE_VERSION};
use wayle::types::{ButtonPurpose, Category, Priority};

type Vardict = Vec<(String, Variant)>;

fn s(value: &str) -> Variant {
    Variant::Str(value.to_string())
}

fn row(entries: &[(&str, &str)]) -> Variant {
    Variant::Dict(
        String::from("s"),
        String::from("v"),
        entries
            .iter()
            .map(|(k, v)| (s(k), Variant::Value(Box::new(s(v)))))
            .collect(),
    )
}

fn strings(items: &[&str]) -> Variant {
    Variant::Array(String::from("s"), items.iter().map(|item| s(item)).collect())
}

fn props_with_sound(map: Vardict, cached_sound: Option<String>) -> NotificationProps {
    let icon = get(&map, "icon")
        .and_then(parse_icon)
        .and_then(|source| direct_image(source).ok());
    build_props(
        NotificationId::new(1),
        0,
        "org.example.App",
        "n1",
        String::from("Example"),
        map,
        icon,
        cached_sound,
    )
}

fn props(map: Vardict) -> NotificationProps {
    props_with_sound(map, None)
}

#[test]
fn realistic_portal_notification_maps_all_facets() {
    let button = row(&[
        ("label", "Snooze"),
        ("action", "app.snooze"),
        ("purpose", "system.custom-alert"),
    ]);

    let map: Vardict = vec![
        (String::from("title"), s("Reminder")),
        (String::from("markup-body"), s("<i>Standup</i>")),
        (String::from("body"), s("Standup")),
        (String::from("priority"), s("urgent")),
        (String::from("category"), s("im.received")),
        (String::from("default-action"), s("app.open")),
        (String::from("buttons"), Variant::Array(String::from("a{sv}"), vec![button])),
        (String::from("display-hint"), strings(&["transient", "tray"])),
    ];

    let props = props(map);

    assert_eq!(
        props.origin.desktop_entry.as_ref().map(DesktopEntryId::as_str),
        Some("org.example.App")
    );

    assert_eq!(props.content.body, Some(Body::Markup(String::from("<i>Standup</i>"))));

    assert!(props.actions.default.as_ref().is_some_and(|a| a.id.is_default()));
    assert_eq!(props.actions.buttons[0].id.as_str(), "app.snooze");
    assert_eq!(
        props.actions.buttons[0].purpose,
        Some(ButtonPurpose::SystemCustomAlert)
    );

    assert_eq!(props.classification.priority, Priority::Urgent);
    assert_eq!(props.classification.category, Some(Category::ImReceived));
    assert!(props.classification.transient);

    assert_eq!(props.presentation.routing, Routing::TrayOnly);

    let NotificationSource::Portal(dispatch) = &props.dispatch else {
        panic!("expected a portal dispatch");
    };
    assert_eq!(dispatch.default_action.as_ref().unwrap().name, "app.open");
    assert!(dispatch.button_action("app.snooze").is_some());
}

#[test]
fn im_reply_button_becomes_reply_affordance() {
    let reply_btn = row(&[
        ("label", "Reply"),
        ("action", "app.reply"),
        ("purpose", "im.reply-with-text"),
    ]);
    let mute_btn = row(&[("label", "Mute"), ("action", "app.mute")]);
    let map: Vardict = vec![(String::from("buttons"), Variant::Array(String::from("a{sv}"), vec![reply_btn, mute_btn]))];

    let props = props(map);

    let reply = props.actions.reply.expect("im.reply-with-text ⇒ reply affordance");
    assert_eq!(reply.submit_label.as_deref(), Some("Reply"));
    let button_ids: Vec<_> = props.actions.buttons.iter().map(|a| a.id.as_str()).collect();
    assert_eq!(button_ids, vec!["app.mute"]);
    let NotificationSource::Portal(dispatch) = &props.dispatch else {
        panic!("expected a portal dispatch");
    };
    assert_eq!(dispatch.reply_action.as_ref().unwrap().name, "app.reply");
    assert!(dispatch.button_action("app.reply").is_none());
}

#[test]
fn call_button_purposes_parse() {
    let purpose = |raw: &str| {
        let btn = row(&[("label", "x"), ("action", "app.x"), ("purpose", raw)]);
        let map: Vardict = vec![(String::from("buttons"), Variant::Array(String::from("a{sv}"), vec![btn]))];
        props(map)
            .actions
            .buttons
            .first()
            .and_then(|button| button.purpose.clone())
    };
    assert_eq!(purpose("call.accept"), Some(ButtonPurpose::CallAccept));
    assert_eq!(purpose("call.decline"), Some(ButtonPurpose::CallDecline));
    assert_eq!(purpose("call.hang-up"), Some(ButtonPurpose::CallHangUp));
}

#[test]
fn plain_body_without_markup_is_plain() {
    let map: Vardict = vec![(String::from("body"), s("just text"))];
    assert_eq!(
        props(map).content.body,
        Some(Body::Plain(String::from("just text")))
    );
}

#[test]
fn no_default_action_still_clickable_and_raises_app() {
    let props = props(Vardict::new());
    assert!(
        props.actions.default.as_ref().is_some_and(|action| action.id.is_default()),
        "body is always clickable",
    );
    let NotificationSource::Portal(dispatch) = &props.dispatch else {
        panic!("expected a portal dispatch");
    };
    assert!(dispatch.default_action.is_none(), "no declared default-action");
}

#[test]
fn sound_intent_maps_to_typed_alert() {
    let alert = |sound: Option<&str>| {
        let mut map = Vardict::new();
        if let Some(sound) = sound {
            map.push((String::from("sound"), s(sound)));
        }
        props(map).alert
    };
    assert_eq!(alert(Some("silent")), Alert::Silent);
    assert_eq!(alert(Some("default")), Alert::Default);
    assert_eq!(alert(None), Alert::Unspecified);
}

#[test]
fn display_hints_drive_lifecycle_and_presentation() {
    let map: Vardict = vec![(
        String::from("display-hint"),
        strings(&["persistent", "show-as-new", "hide-content-on-lockscreen"]),
    )];

    let props = props(map);

    assert!(props.lifecycle.locked_open, "persistent ⇒ locked open");
    assert!(props.presentation.realert_on_replace, "show-as-new ⇒ re-alert");
    assert_eq!(props.presentation.lockscreen, LockscreenVisibility::HideContent);
    assert_eq!(props.presentation.routing, Routing::Banner);
    assert!(!props.classification.transient);
}

#[test]
fn sound_fd_becomes_cached_file_alert() {
    let sound = Variant::Structure(vec![
        s("file-descriptor"),
        Variant::Value(Box::new(Variant::Fd(7))),
    ]);
    let map: Vardict = vec![(String::from("sound"), sound)];
    assert_eq!(
        props_with_sound(map.clone(), Some(String::from("/cache/x.snd"))).alert,
        Alert::File(String::from("/cache/x.snd"))
    );
    assert_eq!(props_with_sound(map, None).alert, Alert::Unspecified);
}

#[test]
fn hide_on_lockscreen_and_vendor_category() {
    let map: Vardict = vec![
        (String::from("display-hint"), strings(&["hide-on-lockscreen"])),
        (String::from("category"), s("game.over")),
    ];
    let props = props(map);
    assert_eq!(props.presentation.lockscreen, LockscreenVisibility::Hide);
    assert_eq!(
        props.classification.category,
        Some(Category::Vendor(String::from("x-unknown-game.over")))
    );
}

#[test]
fn supported_options_advertise_purposes_and_portal_categories() {
    assert_eq!(INTERFACE_VERSION, 2);
    let options = supported_options();
    assert_eq!(options.len(), 2);
    assert_eq!(options[0].0, "button-purpose");
    match &options[0].1 {
        Variant::Array(_, items) => {
            assert_eq!(items.len(), 7);
            assert_eq!(items[1], s("im.reply-with-text"));
        }
        other => panic!("unexpected {other:?}"),
    }
    assert_eq!(options[1].0, "category");
}

#[test]
fn portal_keys_resolve_and_withdraw_like_gtk() {
    let mut keys = KeyRegistry::new();
    let a = add_notification_with(&mut keys, &[], 0, "org.example.App", "p1", None, Vardict::new(), None, None, NotificationId::new(4)).unwrap();
    let b = add_notification_with(&mut keys, &[], 1, "org.example.App", "p1", None, Vardict::new(), None, None, NotificationId::new(5)).unwrap();
    assert_eq!((a.id, b.id), (NotificationId::new(4), NotificationId::new(4)));
    assert!(matches!(remove_notification(&mut keys, "org.example.App", "p1"), Some(NotificationEvent::Remove(..))));
    let blocked = vec![String::from("org.example.*")];
    assert!(add_notification_with(&mut keys, &blocked, 0, "org.example.App", "p2", None, Vardict::new(), None, None, NotificationId::new(6)).is_none());
}
