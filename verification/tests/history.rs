use wayle::dispatch::{BusCall, FdoArgument};
use wayle::freedesktop::{build_props, FdoNotify};
use wayle::history::{
    dismiss_many, dismiss_popup, expiry_deadline, list_rows, history_add, popup_add, remove, remove_many, strip_unreachable,
    targets_name, StoreWrite,
};
use wayle::hints::Variant;
use wayle::model::{NotificationId, Timeout};
use wayle::notification::{Notification, NotificationEvent};
use wayle::types::{ClosedReason, Signal};

fn note(id: i64, summary: &str, received: i64, expire_timeout: i32, hints: Vec<(String, Variant)>, owner: Option<&str>) -> Notification {
    Notification::from_props(build_props(FdoNotify {
        guid: NotificationId::new(id),
        wire_id: id as u32,
        session_id: String::from("s"),
        timestamp: received,
        owner: owner.map(String::from),
        app_name: String::from("App"),
        app_icon: String::new(),
        summary: String::from(summary),
        body: String::new(),
        actions: vec![String::from("default"), String::from("Open")],
        hints,
        expire_timeout,
    }))
}

fn plain(id: i64) -> Notification {
    note(id, "s", 0, -1, vec![], Some(":1.1"))
}

fn ids(list: &[Notification]) -> Vec<i64> {
    list.iter().map(|n| n.id.get()).collect()
}

fn transient() -> Vec<(String, Variant)> {
    vec![(String::from("transient"), Variant::Bool(true))]
}

#[test]
fn a_new_notification_goes_to_the_front_and_is_saved() {
    let out = history_add(vec![plain(1), plain(2)], plain(3), false);
    assert_eq!(ids(&out.list), vec![3, 1, 2]);
    assert!(matches!(out.store, StoreWrite::Save));
    assert_eq!(out.expires_at, None);
}

#[test]
fn a_replacement_keeps_its_reception_time_and_moves_to_the_front() {
    let old = note(2, "old", 10, -1, vec![], Some(":1.1"));
    let new = note(2, "new", 99, -1, vec![], Some(":1.1"));
    let out = history_add(vec![plain(1), old], new, false);
    assert_eq!(ids(&out.list), vec![2, 1]);
    assert_eq!(out.list[0].view.content.summary, "new");
    assert_eq!(out.list[0].view.received, 10);
}

#[test]
fn a_transient_notification_is_not_kept() {
    let out = history_add(vec![plain(1)], note(4, "t", 0, -1, transient(), None), false);
    assert_eq!(ids(&out.list), vec![1]);
    assert!(matches!(out.store, StoreWrite::Nothing));
    let out = history_add(vec![plain(1), plain(4)], note(4, "t", 0, -1, transient(), None), false);
    assert_eq!(ids(&out.list), vec![1]);
    assert!(matches!(out.store, StoreWrite::Delete));
}

#[test]
fn a_finite_timeout_expires_from_history_only_when_asked() {
    let n = note(1, "s", 1_000, 5_000, vec![], None);
    assert_eq!(n.view.lifecycle.timeout, Timeout::After(5_000));
    assert_eq!(expiry_deadline(&n, true), Some(6_000));
    assert_eq!(expiry_deadline(&n, false), None);
    let out = history_add(Vec::new(), n, true);
    assert_eq!(out.expires_at, Some(6_000));
    assert_eq!(expiry_deadline(&note(1, "s", 1_000, -1, vec![], None), true), None);
}

#[test]
fn popups_follow_do_not_disturb_and_clamp_durations() {
    let out = popup_add(vec![plain(1)], plain(2), true, 5_000);
    assert_eq!(ids(&out.list), vec![1]);
    assert!(out.timer.is_none());

    let out = popup_add(vec![plain(1)], plain(2), false, 5_000);
    assert_eq!(ids(&out.list), vec![2, 1]);
    assert_eq!(out.timer, Some((NotificationId::new(2), 5_000)));

    let short = note(3, "s", 0, 1_500, vec![], None);
    assert_eq!(popup_add(Vec::new(), short, false, 5_000).timer, Some((NotificationId::new(3), 1_500)));
    let long = note(3, "s", 0, 60_000, vec![], None);
    assert_eq!(popup_add(Vec::new(), long, false, 5_000).timer, Some((NotificationId::new(3), 5_000)));
    let never = note(3, "s", 0, 0, vec![], None);
    assert_eq!(popup_add(Vec::new(), never, false, 5_000).timer, None);
}

#[test]
fn dismissing_a_popup_keeps_the_others() {
    assert_eq!(ids(&dismiss_popup(vec![plain(1), plain(2), plain(3)], NotificationId::new(2))), vec![1, 3]);
    assert_eq!(ids(&dismiss_popup(vec![plain(1)], NotificationId::new(9))), vec![1]);
}

#[test]
fn removing_drops_history_popup_and_signals_the_owner() {
    let out = remove(vec![plain(1), plain(2)], vec![plain(2)], NotificationId::new(2), ClosedReason::DismissedByUser);
    assert_eq!(ids(&out.notifications), vec![1]);
    assert!(out.popups.is_empty());
    assert!(out.cancel_timer);
    assert_eq!(out.removed.map(|n| n.id.get()), Some(2));
    assert_eq!(
        out.close_call,
        Some(BusCall::FdoSignal {
            owner: String::from(":1.1"),
            wire_id: 2,
            signal: Signal::NotificationClosed,
            argument: FdoArgument::Code(2),
        })
    );
}

#[test]
fn an_expiry_leaves_the_popup_alone() {
    let out = remove(vec![plain(1)], vec![plain(1)], NotificationId::new(1), ClosedReason::Expired);
    assert!(out.notifications.is_empty());
    assert_eq!(ids(&out.popups), vec![1]);
    assert!(!out.cancel_timer);
}

#[test]
fn removing_an_unknown_identity_changes_nothing_in_history() {
    let out = remove(vec![plain(1)], vec![], NotificationId::new(7), ClosedReason::Closed);
    assert_eq!(ids(&out.notifications), vec![1]);
    assert!(out.removed.is_none());
    assert!(out.close_call.is_none());
}

#[test]
fn batch_removal_signals_each_owner_in_history_order() {
    let ownerless = note(3, "s", 0, -1, vec![], None);
    let out = remove_many(
        vec![plain(1), plain(2), ownerless, plain(4)],
        vec![plain(2), plain(4)],
        &[NotificationId::new(4), NotificationId::new(3), NotificationId::new(2)],
        ClosedReason::Closed,
    );
    assert_eq!(ids(&out.notifications), vec![1]);
    assert!(out.popups.is_empty());
    assert!(out.cancel_timers);
    assert_eq!(ids(&out.removed), vec![2, 3, 4]);
    let wires: Vec<u32> = out
        .close_calls
        .iter()
        .map(|c| match c {
            BusCall::FdoSignal { wire_id, .. } => *wire_id,
            _ => panic!("expected a close signal"),
        })
        .collect();
    assert_eq!(wires, vec![2, 4]);
}

#[test]
fn an_empty_batch_does_nothing() {
    let out = remove_many(vec![plain(1)], vec![plain(1)], &[], ClosedReason::Closed);
    assert_eq!(ids(&out.notifications), vec![1]);
    assert_eq!(ids(&out.popups), vec![1]);
    assert!(!out.cancel_timers);
    assert!(out.removed.is_empty() && out.close_calls.is_empty());
}

#[test]
fn unreachable_notifications_lose_their_actions() {
    let mut list = vec![plain(1), note(2, "s", 0, -1, vec![], Some(":1.2"))];
    strip_unreachable(&mut list, &[String::from(":1.1")], &[]);
    assert!(list[0].view.actions.default.is_some());
    assert!(list[1].view.actions.default.is_none());
    assert!(targets_name(&list, ":1.2"));
    assert!(!targets_name(&list, ":1.9"));
}

#[test]
fn dismissing_several_is_one_batch_in_order() {
    assert!(dismiss_many(&[]).is_none());
    match dismiss_many(&[plain(3), plain(1)]) {
        Some(NotificationEvent::RemoveMany(ids, ClosedReason::DismissedByUser)) => {
            assert_eq!(ids, vec![NotificationId::new(3), NotificationId::new(1)]);
        }
        _ => panic!("expected one batch removal"),
    }
}

#[test]
fn the_daemon_lists_identity_name_summary_and_body() {
    let with_body = Notification::from_props(build_props(FdoNotify {
        guid: NotificationId::new(8),
        wire_id: 8,
        session_id: String::from("s"),
        timestamp: 0,
        owner: None,
        app_name: String::new(),
        app_icon: String::new(),
        summary: String::from("Sum"),
        body: String::from("Body <b>x</b>"),
        actions: Vec::new(),
        hints: Vec::new(),
        expire_timeout: -1,
    }));
    assert_eq!(
        list_rows(&[plain(1), with_body]),
        vec![
            (1, String::from("App"), String::from("s"), String::new()),
            (8, String::new(), String::from("Sum"), String::from("Body <b>x</b>")),
        ]
    );
}

#[test]
fn an_out_of_range_timeout_is_kept_when_nothing_expires() {
    let mut n = note(7, "far", i64::MAX, 5_000, vec![], None);
    n.view.lifecycle.timeout = Timeout::After(u64::MAX);
    assert_eq!(expiry_deadline(&n, false), None);
    let out = history_add(vec![plain(1)], n, false);
    assert_eq!(ids(&out.list), vec![7, 1]);
    assert!(matches!(out.store, StoreWrite::Save));
    assert_eq!(out.expires_at, None);
}

#[test]
fn events_handled_in_order_leave_removed_ids_in_no_list() {
    let mut history: Vec<Notification> = Vec::new();
    let mut popups: Vec<Notification> = Vec::new();
    for id in [1, 2, 3] {
        let out = history_add(history, plain(id), false);
        history = out.list;
        popups = popup_add(popups, plain(id), false, 5_000).list;
    }
    assert_eq!(ids(&history), vec![3, 2, 1]);
    assert_eq!(ids(&popups), vec![3, 2, 1]);
    let out = remove(history, popups, NotificationId::new(2), ClosedReason::DismissedByUser);
    history = out.notifications;
    popups = out.popups;
    assert_eq!(ids(&history), vec![3, 1]);
    assert_eq!(ids(&popups), vec![3, 1]);
    popups = dismiss_popup(popups, NotificationId::new(3));
    assert_eq!(ids(&popups), vec![1]);
    assert_eq!(ids(&history), vec![3, 1]);
    let out = remove(history, popups, NotificationId::new(1), ClosedReason::Expired);
    assert_eq!(ids(&out.notifications), vec![3]);
    assert_eq!(ids(&out.popups), vec![1]);
}
