use wayle::dispatch::{BusCall, FdoArgument};
use wayle::freedesktop::{build_props, FdoNotify};
use wayle::hints::Variant;
use wayle::model::NotificationId;
use wayle::notification::Notification;
use wayle::pipeline::{arm_restored, handle_event, Effect, Lists, PipelineEvent, Settings};
use wayle::types::{ClosedReason, Signal};

fn note(id: i64, received: i64, expire_timeout: i32, hints: Vec<(String, Variant)>, owner: Option<&str>) -> Notification {
    Notification::from_props(build_props(FdoNotify {
        guid: NotificationId::new(id),
        wire_id: id as u32,
        session_id: String::from("s"),
        timestamp: received,
        owner: owner.map(String::from),
        app_name: String::from("App"),
        app_icon: String::new(),
        summary: String::from("s"),
        body: String::new(),
        actions: vec![],
        hints,
        expire_timeout,
    }))
}

fn plain(id: i64) -> Notification {
    note(id, 0, -1, vec![], Some(":1.1"))
}

fn ids(list: &[Notification]) -> Vec<i64> {
    list.iter().map(|n| n.id.get()).collect()
}

fn id(n: i64) -> NotificationId {
    NotificationId::new(n)
}

fn settings(dnd: bool, remove_expired: bool) -> Settings {
    Settings { dnd, remove_expired, popup_ms: 5_000 }
}

fn arrival(n: Notification) -> PipelineEvent {
    PipelineEvent::Arrival { history: n.clone(), banner: n }
}

#[test]
fn an_arrival_saves_arms_its_expiry_then_starts_its_popup_timer() {
    let lists = Lists { notifications: vec![plain(1)], popups: vec![] };
    let (lists, effects) = handle_event(lists, arrival(note(2, 1_000, 3_000, vec![], None)), settings(false, true));
    assert_eq!(ids(&lists.notifications), vec![2, 1]);
    assert_eq!(ids(&lists.popups), vec![2]);
    assert_eq!(
        effects,
        vec![Effect::SaveArrival, Effect::ArmExpiry(id(2), 4_000), Effect::StartTimer(id(2), 3_000)]
    );
}

#[test]
fn do_not_disturb_keeps_the_arrival_off_the_popups_and_starts_no_timer() {
    let lists = Lists { notifications: vec![], popups: vec![plain(1)] };
    let (lists, effects) = handle_event(lists, arrival(plain(2)), settings(true, false));
    assert_eq!(ids(&lists.notifications), vec![2]);
    assert_eq!(ids(&lists.popups), vec![1]);
    assert_eq!(effects, vec![Effect::SaveArrival]);
}

#[test]
fn a_transient_arrival_deletes_the_stale_row_and_still_pops_up() {
    let transient = vec![(String::from("transient"), Variant::Bool(true))];
    let lists = Lists { notifications: vec![plain(1), plain(2)], popups: vec![] };
    let (lists, effects) = handle_event(lists, arrival(note(2, 0, -1, transient, None)), settings(false, true));
    assert_eq!(ids(&lists.notifications), vec![1]);
    assert_eq!(ids(&lists.popups), vec![2]);
    assert_eq!(effects, vec![Effect::DeleteRow(id(2)), Effect::StartTimer(id(2), 5_000)]);
}

#[test]
fn a_removal_cancels_the_timer_deletes_the_row_and_signals_the_owner() {
    let lists = Lists { notifications: vec![plain(1), plain(2)], popups: vec![plain(2)] };
    let (lists, effects) =
        handle_event(lists, PipelineEvent::Remove(id(2), ClosedReason::DismissedByUser), settings(false, false));
    assert_eq!(ids(&lists.notifications), vec![1]);
    assert!(lists.popups.is_empty());
    assert_eq!(
        effects,
        vec![
            Effect::CancelTimer(id(2)),
            Effect::DeleteRow(id(2)),
            Effect::Call(BusCall::FdoSignal {
                owner: String::from(":1.1"),
                wire_id: 2,
                signal: Signal::NotificationClosed,
                argument: FdoArgument::Code(2),
            }),
        ]
    );
}

#[test]
fn an_expiry_of_an_unknown_identity_does_nothing() {
    let lists = Lists { notifications: vec![plain(1)], popups: vec![plain(1)] };
    let (lists, effects) = handle_event(lists, PipelineEvent::Remove(id(7), ClosedReason::Expired), settings(false, false));
    assert_eq!(ids(&lists.notifications), vec![1]);
    assert_eq!(ids(&lists.popups), vec![1]);
    assert!(effects.is_empty());
}

#[test]
fn a_batch_cancels_each_timer_deletes_rows_once_and_signals_in_history_order() {
    let ownerless = note(3, 0, -1, vec![], None);
    let lists = Lists { notifications: vec![plain(1), plain(2), ownerless, plain(4)], popups: vec![plain(4)] };
    let (lists, effects) = handle_event(
        lists,
        PipelineEvent::RemoveMany(vec![id(4), id(3), id(2), id(9)], ClosedReason::Closed),
        settings(false, false),
    );
    assert_eq!(ids(&lists.notifications), vec![1]);
    assert!(lists.popups.is_empty());
    let signal = |wire_id: u32| {
        Effect::Call(BusCall::FdoSignal {
            owner: String::from(":1.1"),
            wire_id,
            signal: Signal::NotificationClosed,
            argument: FdoArgument::Code(3),
        })
    };
    assert_eq!(
        effects,
        vec![
            Effect::CancelTimer(id(4)),
            Effect::CancelTimer(id(3)),
            Effect::CancelTimer(id(2)),
            Effect::CancelTimer(id(9)),
            Effect::DeleteRows(vec![id(2), id(3), id(4)]),
            signal(2),
            signal(4),
        ]
    );
}

#[test]
fn popup_requests_touch_the_timer_alone() {
    let lists = Lists { notifications: vec![plain(1)], popups: vec![plain(1)] };
    let (lists, effects) = handle_event(lists, PipelineEvent::InhibitPopup(id(1)), settings(false, false));
    assert_eq!(effects, vec![Effect::PauseTimer(id(1))]);
    let (lists, effects) = handle_event(lists, PipelineEvent::ReleasePopup(id(1)), settings(false, false));
    assert_eq!(effects, vec![Effect::ResumeTimer(id(1))]);
    let (lists, effects) = handle_event(lists, PipelineEvent::DismissPopup(id(1)), settings(false, false));
    assert_eq!(effects, vec![Effect::CancelTimer(id(1))]);
    assert_eq!(ids(&lists.notifications), vec![1]);
    assert!(lists.popups.is_empty());
}

#[test]
fn restored_entries_with_a_finite_timeout_are_armed_in_order() {
    let list = vec![note(1, 100, 50, vec![], None), plain(2), note(3, 10, 5, vec![], None)];
    assert_eq!(arm_restored(&list, true), vec![Effect::ArmExpiry(id(1), 150), Effect::ArmExpiry(id(3), 15)]);
    assert!(arm_restored(&list, false).is_empty());
}

#[test]
fn a_restored_entry_is_armed_as_on_arrival() {
    let n = note(5, 2_000, 7_000, vec![], None);
    let (_, effects) = handle_event(Lists { notifications: vec![], popups: vec![] }, arrival(n.clone()), settings(true, true));
    assert_eq!(effects, vec![Effect::SaveArrival, Effect::ArmExpiry(id(5), 9_000)]);
    assert_eq!(arm_restored(&[n], true), vec![Effect::ArmExpiry(id(5), 9_000)]);
}
