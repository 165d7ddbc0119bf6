use wayle::dispatch::{gtk_object_path, platform_data, BusCall, FdoArgument};
use wayle::freedesktop::{build_props, FdoNotify};
use wayle::hints::Variant;
use wayle::model::{
    ActionId, FreedesktopDispatch, GtkAction, GtkDispatch, InvokeSource, NotificationId,
    NotificationSource, PortalAction, PortalDispatch, Uri,
};
use wayle::notification::{Notification, NotificationEvent};
use wayle::types::{ClosedReason, Signal};

fn fdo(owner: Option<&str>) -> FreedesktopDispatch {
    FreedesktopDispatch {
        wire_id: 9,
        session_id: String::from("s"),
        owner: owner.map(String::from),
    }
}

fn action(id: &str) -> ActionId {
    if id == "default" {
        ActionId::default_action()
    } else {
        ActionId::new(id).ok().unwrap()
    }
}

fn fdo_notification(actions: &[&str], hints: Vec<(String, Variant)>) -> Notification {
    Notification::from_props(build_props(FdoNotify {
        guid: NotificationId::new(5),
        wire_id: 9,
        session_id: String::from("s"),
        timestamp: 100,
        owner: Some(String::from(":1.3")),
        app_name: String::from("Chat"),
        app_icon: String::new(),
        summary: String::from("Hi"),
        body: String::new(),
        actions: actions.iter().map(|a| a.to_string()).collect(),
        hints,
        expire_timeout: -1,
    }))
}

fn signal(owner: &str, signal: Signal, text: &str) -> BusCall {
    BusCall::FdoSignal {
        owner: String::from(owner),
        wire_id: 9,
        signal,
        argument: FdoArgument::Text(String::from(text)),
    }
}

#[test]
fn object_path_maps_dots_and_dashes() {
    assert_eq!(gtk_object_path("org.gnome.Fractal"), "/org/gnome/Fractal");
    assert_eq!(gtk_object_path("de.my-app.X"), "/de/my_app/X");
}

#[test]
fn platform_data_carries_the_token_twice() {
    assert!(platform_data(None).is_empty());
    assert_eq!(
        platform_data(Some("tok")),
        vec![
            (String::from("desktop-startup-id"), String::from("tok")),
            (String::from("activation-token"), String::from("tok")),
        ]
    );
}

#[test]
fn fdo_action_sends_token_then_action_to_the_owner() {
    let d = fdo(Some(":1.3"));
    assert_eq!(
        d.dispatch_action(&[], Some("tok"), &action("reply")),
        vec![
            signal(":1.3", Signal::ActivationToken, "tok"),
            signal(":1.3", Signal::ActionInvoked, "reply"),
        ]
    );
    assert_eq!(
        d.dispatch_action(&[], None, &action("reply")),
        vec![signal(":1.3", Signal::ActionInvoked, "reply")]
    );
}

#[test]
fn fdo_body_click_with_links_opens_the_first_link() {
    let d = fdo(Some(":1.3"));
    let urls = vec![Uri::new("https://a.example"), Uri::new("https://b.example")];
    assert_eq!(
        d.dispatch_action(&urls, Some("tok"), &action("default")),
        vec![BusCall::OpenUri(String::from("https://a.example"))]
    );
}

#[test]
fn fdo_without_owner_sends_nothing_and_is_unreachable() {
    let d = fdo(None);
    assert!(d.dispatch_action(&[], Some("tok"), &action("x")).is_empty());
    assert!(d.reply("hi").is_none());
    assert!(d.close(ClosedReason::Expired).is_none());
    assert!(d.is_unreachable(&[]));
    let live = fdo(Some(":1.3"));
    assert!(!live.is_unreachable(&[String::from(":1.3")]));
    assert!(live.is_unreachable(&[String::from(":1.4")]));
}

#[test]
fn fdo_close_and_reply_signals() {
    let d = fdo(Some(":1.3"));
    assert_eq!(
        d.close(ClosedReason::DismissedByUser),
        Some(BusCall::FdoSignal {
            owner: String::from(":1.3"),
            wire_id: 9,
            signal: Signal::NotificationClosed,
            argument: FdoArgument::Code(2),
        })
    );
    assert_eq!(d.reply("ok"), Some(signal(":1.3", Signal::NotificationReplied, "ok")));
}

fn gtk() -> GtkDispatch {
    GtkDispatch {
        app_id: String::from("org.gnome.Fractal"),
        gtk_id: String::from("n1"),
        default_action: Some(GtkAction {
            name: String::from("app.open-room"),
            target: Some(Variant::Str(String::from("!room"))),
        }),
        button_actions: vec![
            GtkAction { name: String::from("mark-read"), target: None },
            GtkAction { name: String::from("app.reply"), target: None },
        ],
    }
}

#[test]
fn gtk_app_actions_go_to_the_action_group_without_prefix() {
    assert_eq!(
        gtk().dispatch_action(None, &action("default")),
        BusCall::ActivateAction {
            app_id: String::from("org.gnome.Fractal"),
            path: String::from("/org/gnome/Fractal"),
            action: String::from("open-room"),
            parameter: vec![Variant::Str(String::from("!room"))],
            platform_data: Vec::new(),
        }
    );
}

#[test]
fn gtk_other_actions_come_back_as_the_signal() {
    assert_eq!(
        gtk().dispatch_action(Some("t"), &action("mark-read")),
        BusCall::GtkActionInvoked {
            app_id: String::from("org.gnome.Fractal"),
            gtk_id: String::from("n1"),
            action: String::from("mark-read"),
            parameter: Vec::new(),
            platform_data: platform_data(Some("t")),
        }
    );
}

#[test]
fn gtk_unknown_or_missing_actions_raise_the_app() {
    let mut d = gtk();
    d.default_action = None;
    assert_eq!(
        d.dispatch_action(None, &action("default")),
        BusCall::Activate {
            app_id: String::from("org.gnome.Fractal"),
            path: String::from("/org/gnome/Fractal"),
            platform_data: Vec::new(),
            best_effort: false,
        }
    );
    assert!(matches!(
        d.dispatch_action(None, &action("nope")),
        BusCall::Activate { .. }
    ));
}

#[test]
fn gtk_reachability_needs_a_live_or_activatable_name() {
    let d = gtk();
    let name = vec![String::from("org.gnome.Fractal")];
    assert!(d.is_unreachable(&[], &[]));
    assert!(!d.is_unreachable(&name, &[]));
    assert!(!d.is_unreachable(&[], &name));
}

fn portal() -> PortalDispatch {
    PortalDispatch {
        app_id: String::from("org.example.App"),
        portal_id: String::from("p1"),
        default_action: None,
        button_actions: vec![PortalAction {
            name: String::from("app.call"),
            target: Some(Variant::U32(4)),
            purpose: None,
        }],
        reply_action: Some(PortalAction {
            name: String::from("app.reply"),
            target: None,
            purpose: None,
        }),
    }
}

#[test]
fn portal_buttons_invoke_with_target_and_token_dict() {
    let call = portal().dispatch_action(Some("t"), &action("app.call"));
    assert_eq!(
        call,
        Some(BusCall::PortalActionInvoked {
            app_id: String::from("org.example.App"),
            portal_id: String::from("p1"),
            action: String::from("app.call"),
            parameter: vec![
                Variant::U32(4),
                Variant::Dict(String::from("s"), String::from("v"), vec![(
                    Variant::Str(String::from("activation-token")),
                    Variant::Value(Box::new(Variant::Str(String::from("t")))),
                )]),
            ],
        })
    );
    assert_eq!(portal().dispatch_action(None, &action("unknown")), None);
    assert!(matches!(
        portal().dispatch_action(None, &action("default")),
        Some(BusCall::Activate { best_effort: true, .. })
    ));
}

#[test]
fn portal_reply_sends_the_text_after_the_target() {
    assert_eq!(
        portal().reply("hello"),
        Some(BusCall::PortalActionInvoked {
            app_id: String::from("org.example.App"),
            portal_id: String::from("p1"),
            action: String::from("app.reply"),
            parameter: vec![Variant::Str(String::from("hello"))],
        })
    );
    let mut d = portal();
    d.reply_action = None;
    assert_eq!(d.reply("hello"), None);
}

#[test]
fn sources_name_their_dispatch_target() {
    assert_eq!(NotificationSource::Freedesktop(fdo(Some(":1.3"))).dispatch_target(), Some(":1.3"));
    assert_eq!(NotificationSource::Gtk(gtk()).dispatch_target(), Some("org.gnome.Fractal"));
    assert_eq!(NotificationSource::Portal(portal()).dispatch_target(), None);
    assert!(NotificationSource::Gtk(gtk()).may_be_unreachable_at_ingest());
    assert!(!NotificationSource::Portal(portal()).may_be_unreachable_at_ingest());
    assert!(!NotificationSource::Portal(portal()).is_unreachable(&[], &[]));
}

#[test]
fn activating_from_history_removes_it_after_the_calls() {
    let n = fdo_notification(&["default", "Open"], vec![]);
    let plan = n.activate_default(InvokeSource::History, None);
    assert_eq!(plan.calls, vec![signal(":1.3", Signal::ActionInvoked, "default")]);
    assert!(matches!(
        plan.follow_up,
        Some(NotificationEvent::Remove(id, ClosedReason::Closed)) if id == NotificationId::new(5)
    ));
}

#[test]
fn a_popup_that_stays_in_history_only_drops_the_banner() {
    let n = fdo_notification(&["default", "Open"], vec![]);
    let plan = n.activate_default(InvokeSource::Popup { remove_from_history: false }, None);
    assert!(matches!(plan.follow_up, Some(NotificationEvent::DismissPopup(_))));
}

#[test]
fn a_resident_notification_stays_after_an_action() {
    let n = fdo_notification(
        &["default", "Open", "mute", "Mute"],
        vec![(String::from("resident"), Variant::Bool(true))],
    );
    let button = n.view.actions.buttons[0].clone();
    let plan = n.invoke(&button, InvokeSource::History, Some("tok"));
    assert_eq!(plan.calls.len(), 2);
    assert!(plan.follow_up.is_none());
}

#[test]
fn no_default_action_means_a_body_click_does_nothing() {
    let n = fdo_notification(&[], vec![]);
    let plan = n.activate_default(InvokeSource::History, None);
    assert!(plan.calls.is_empty());
    assert!(plan.follow_up.is_none());
}

#[test]
fn inline_reply_goes_to_the_owner_then_removes() {
    let n = fdo_notification(&["inline-reply", ""], vec![]);
    let plan = n.reply("sure", InvokeSource::History);
    assert_eq!(plan.calls, vec![signal(":1.3", Signal::NotificationReplied, "sure")]);
    assert!(matches!(plan.follow_up, Some(NotificationEvent::Remove(_, ClosedReason::Closed))));
    let without = fdo_notification(&[], vec![]);
    let plan = without.reply("sure", InvokeSource::History);
    assert!(plan.calls.is_empty() && plan.follow_up.is_none());
}

#[test]
fn stripping_actions_leaves_nothing_clickable() {
    let mut n = fdo_notification(&["default", "Open", "a", "A"], vec![]);
    n.strip_actions();
    assert!(n.view.actions.default.is_none());
    assert!(n.view.actions.buttons.is_empty());
    assert!(n.view.actions.reply.is_none());
    assert_eq!(n.id, NotificationId::new(5));
}

#[test]
fn lifecycle_events_name_the_notification() {
    let n = fdo_notification(&[], vec![]);
    assert!(matches!(n.dismiss(), NotificationEvent::Remove(_, ClosedReason::DismissedByUser)));
    assert!(matches!(n.close(), NotificationEvent::Remove(_, ClosedReason::DismissedByUser)));
    assert!(matches!(n.dismiss_popup(), NotificationEvent::DismissPopup(_)));
    assert!(matches!(n.inhibit_popup(), NotificationEvent::InhibitPopup(_)));
    assert!(matches!(n.release_popup(), NotificationEvent::ReleasePopup(_)));
}

#[test]
fn notifications_are_equal_by_identity() {
    let a = fdo_notification(&[], vec![]);
    let mut b = fdo_notification(&["default", "Open"], vec![]);
    b.view.content.summary = String::from("changed");
    assert_eq!(a, b);
}
