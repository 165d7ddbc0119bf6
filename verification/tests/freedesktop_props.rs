use wayle::freedesktop::{build_props, FdoNotify};
use wayle::hints::Variant;
use wayle::model::{
    Alert, Body, DesktopEntryId, Image, NotificationId, NotificationProps, NotificationSource,
    SoundName, Timeout, Uri,
};
use wayle::types::{Category, Priority};

type Hints = Vec<(String, Variant)>;

fn str_value(s: &str) -> Variant {
    Variant::Str(s.to_string())
}

fn props(
    app_icon: &str,
    summary: &str,
    body: &str,
    actions: &[&str],
    hints: Hints,
    expire_timeout: i32,
) -> NotificationProps {
    build_props(FdoNotify {
        guid: NotificationId::new(1),
        wire_id: 1,
        session_id: String::from("test-session"),
        timestamp: 0,
        owner: Some(String::from(":1.42")),
        app_name: String::from("Mail"),
        app_icon: String::from(app_icon),
        summary: String::from(summary),
        body: String::from(body),
        actions: actions.iter().map(|action| (*action).to_owned()).collect(),
        hints,
        expire_timeout,
    })
}

#[test]
fn realistic_email_notification_maps_all_facets() {
    let mut hints = Hints::new();
    hints.push((String::from("urgency"), Variant::U8(2)));
    hints.push((String::from("category"), str_value("email.arrived")));
    hints.push((String::from("desktop-entry"), str_value("org.gnome.Evolution")));
    hints.push((String::from("resident"), Variant::Bool(true)));

    let props = props(
        "mail-unread",
        "New mail from Alice",
        "Subject: <b>Lunch?</b>",
        &["default", "", "reply", "Reply", "archive", "Archive"],
        hints,
        0,
    );

    assert_eq!(props.origin.name.as_deref(), Some("Mail"));
    assert_eq!(
        props.origin.desktop_entry.as_ref().map(DesktopEntryId::as_str),
        Some("org.gnome.Evolution")
    );
    assert_eq!(props.origin.icon, Some(Image::Named(String::from("mail-unread"))));

    assert_eq!(props.content.summary, "New mail from Alice");
    assert_eq!(
        props.content.body,
        Some(Body::Markup(String::from("Subject: <b>Lunch?</b>")))
    );

    assert!(props.actions.default.as_ref().is_some_and(|action| action.id.is_default()));
    let button_ids: Vec<_> = props.actions.buttons.iter().map(|a| a.id.as_str()).collect();
    assert_eq!(button_ids, vec!["reply", "archive"]);
    assert_eq!(props.actions.buttons[0].label, "Reply");

    assert_eq!(props.classification.priority, Priority::Urgent);
    assert_eq!(props.classification.category, Some(Category::EmailArrived));
    assert!(props.classification.resident);
    assert!(!props.classification.transient);

    assert_eq!(props.lifecycle.timeout, Timeout::NeverByApp);

    assert!(matches!(props.dispatch, NotificationSource::Freedesktop(_)));
}

#[test]
fn urgency_lifts_onto_four_level_scale_never_high() {
    let priority = |urgency: Option<u8>| {
        let mut hints = Hints::new();
        if let Some(level) = urgency {
            hints.push((String::from("urgency"), Variant::U8(level)));
        }
        props("", "s", "", &[], hints, -1).classification.priority
    };

    assert_eq!(priority(Some(0)), Priority::Low);
    assert_eq!(priority(Some(1)), Priority::Normal);
    assert_eq!(priority(Some(2)), Priority::Urgent);
    assert_eq!(priority(None), Priority::Normal, "absent urgency ⇒ Normal");
}

#[test]
fn timeout_maps_from_expire_timeout() {
    let timeout = |expire: i32| props("", "s", "", &[], Hints::new(), expire).lifecycle.timeout;
    assert_eq!(timeout(-1), Timeout::ServerDefault);
    assert_eq!(timeout(0), Timeout::NeverByApp);
    assert_eq!(timeout(5000), Timeout::After(5000));
}

#[test]
fn transient_and_sound_and_image_facets() {
    let mut hints = Hints::new();
    hints.push((String::from("transient"), Variant::Bool(true)));
    hints.push((String::from("suppress-sound"), Variant::Bool(true)));
    hints.push((String::from("image-path"), str_value("file:///tmp/pic.png")));

    let props = props("", "s", "", &[], hints, -1);

    assert!(props.classification.transient);
    assert_eq!(props.alert, Alert::Silent);
    assert_eq!(props.image, Some(Image::Path(String::from("/tmp/pic.png"))));
}

#[test]
fn sound_file_and_name_become_typed_alert() {
    let mut file_hints = Hints::new();
    file_hints.push((String::from("sound-file"), str_value("/snd/a.oga")));
    assert_eq!(
        props("", "s", "", &[], file_hints, -1).alert,
        Alert::File(String::from("/snd/a.oga"))
    );

    let mut name_hints = Hints::new();
    name_hints.push((String::from("sound-name"), str_value("message-new")));
    assert_eq!(
        props("", "s", "", &[], name_hints, -1).alert,
        Alert::Named(SoundName::new("message-new"))
    );
}

#[test]
fn absolute_app_icon_is_a_path_themed_name_is_named() {
    assert_eq!(
        props("/usr/share/icons/x.png", "s", "", &[], Hints::new(), -1)
            .origin
            .icon,
        Some(Image::Path(String::from("/usr/share/icons/x.png")))
    );
    assert_eq!(
        props("firefox", "s", "", &[], Hints::new(), -1).origin.icon,
        Some(Image::Named(String::from("firefox")))
    );
}

#[test]
fn kde_inline_reply_and_origin_hints() {
    let mut hints = Hints::new();
    hints.push((
        String::from("x-kde-reply-placeholder-text"),
        str_value("Type a reply..."),
    ));
    hints.push((String::from("x-kde-reply-submit-button-text"), str_value("Send")));
    hints.push((String::from("x-kde-origin-name"), str_value("#general:matrix.org")));
    hints.push((String::from("x-kde-display-appname"), str_value("Element")));

    let props = props(
        "",
        "New message",
        "hi",
        &["inline-reply", "Reply", "mute", "Mute"],
        hints,
        -1,
    );

    let reply = props.actions.reply.expect("inline-reply ⇒ reply affordance");
    assert_eq!(reply.placeholder.as_deref(), Some("Type a reply..."));
    assert_eq!(reply.submit_label.as_deref(), Some("Send"));
    let button_ids: Vec<_> = props.actions.buttons.iter().map(|a| a.id.as_str()).collect();
    assert_eq!(button_ids, vec!["mute"], "inline-reply excluded from buttons");

    assert_eq!(props.origin.name.as_deref(), Some("Element"));
    assert_eq!(props.origin.origin_name.as_deref(), Some("#general:matrix.org"));
}

#[test]
fn x_kde_urls_are_exposed_and_make_body_clickable() {
    let mut hints = Hints::new();
    hints.push((
        String::from("x-kde-urls"),
        Variant::Array(String::from("s"), vec![
            str_value("file:///home/me/shot.png"),
            str_value("https://example.com/x"),
        ]),
    ));

    let props = props("", "Screenshot saved", "", &[], hints, -1);

    let urls: Vec<_> = props.actions.urls.iter().map(Uri::as_str).collect();
    assert_eq!(urls, vec!["file:///home/me/shot.png", "https://example.com/x"]);
    assert!(
        props.actions.default.as_ref().is_some_and(|action| action.id.is_default()),
        "URLs make the body clickable even with no app action"
    );
}

#[test]
fn value_hint_becomes_clamped_progress() {
    let progress = |value: Variant| {
        let mut hints = Hints::new();
        hints.push((String::from("value"), value));
        props("", "s", "", &[], hints, -1).content.progress
    };
    assert_eq!(progress(Variant::I32(42)), Some(42));
    assert_eq!(progress(Variant::U32(80)), Some(80), "uint is accepted too");
    assert_eq!(progress(Variant::I32(150)), Some(100), "clamped to 100");
    assert_eq!(progress(Variant::I32(-10)), Some(0), "clamped to 0");
    assert_eq!(
        props("", "s", "", &[], Hints::new(), -1).content.progress,
        None,
        "absent value ⇒ no progress"
    );
}

#[test]
fn dispatch_carries_wire_id_session_and_owner() {
    let props = props("", "s", "", &[], Hints::new(), -1);
    match props.dispatch {
        NotificationSource::Freedesktop(d) => {
            assert_eq!(d.wire_id, 1);
            assert_eq!(d.session_id, "test-session");
            assert_eq!(d.owner.as_deref(), Some(":1.42"));
        }
        _ => panic!("freedesktop dispatch expected"),
    }
}

#[test]
fn empty_body_is_absent_and_no_actions_leave_body_inert() {
    let props = props("", "s", "", &[], Hints::new(), -1);
    assert_eq!(props.content.body, None);
    assert!(props.actions.default.is_none());
    assert!(props.actions.buttons.is_empty());
}
