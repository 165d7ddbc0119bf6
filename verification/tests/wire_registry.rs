use wayle::freedesktop::{build_props, FdoNotify};
use wayle::hints::Variant;
use wayle::model::{NotificationId, NotificationSource};
use wayle::notification::Notification;
use wayle::wire_registry::{release_stale_owner, WireRegistry};

fn id(n: i64) -> NotificationId {
    NotificationId::new(n)
}

fn restored(guid: i64, wire_id: u32, session: &str, app: &str, tag: Option<&str>) -> Notification {
    let mut hints: Vec<(String, Variant)> = Vec::new();
    if let Some(tag) = tag {
        hints.push((
            String::from("x-canonical-private-synchronous"),
            Variant::Str(String::from(tag)),
        ));
    }
    Notification::from_props(build_props(FdoNotify {
        guid: id(guid),
        wire_id,
        session_id: String::from(session),
        timestamp: 0,
        owner: Some(String::from(":1.7")),
        app_name: String::from(app),
        app_icon: String::new(),
        summary: String::from("s"),
        body: String::new(),
        actions: Vec::new(),
        hints,
        expire_timeout: -1,
    }))
}

#[test]
fn fresh_notifications_get_consecutive_wire_ids() {
    let mut reg = WireRegistry::empty(1);
    assert_eq!(reg.resolve_with(0, "Mail", None, id(10)), (id(10), 1));
    assert_eq!(reg.resolve_with(0, "Mail", None, id(11)), (id(11), 2));
    assert_eq!(reg.wire_guid(1), Some(id(10)));
    assert_eq!(reg.wire_guid(2), Some(id(11)));
    assert!(reg.owns_wire(1, "Mail"));
    assert!(!reg.owns_wire(1, "Chat"));
}

#[test]
fn replacing_an_owned_wire_keeps_identity_and_wire_id() {
    let mut reg = WireRegistry::empty(1);
    let (guid, wire) = reg.resolve_with(0, "Mail", None, id(10));
    assert_eq!(reg.resolve_with(wire, "Mail", None, id(99)), (guid, wire));
    // The counter did not move.
    assert_eq!(reg.resolve_with(0, "Mail", None, id(12)), (id(12), 2));
}

#[test]
fn replacing_a_foreign_wire_is_a_fresh_notification() {
    let mut reg = WireRegistry::empty(1);
    let (_, wire) = reg.resolve_with(0, "Mail", None, id(10));
    assert_eq!(reg.resolve_with(wire, "Chat", None, id(20)), (id(20), 2));
    assert_eq!(reg.wire_guid(wire), Some(id(10)));
}

#[test]
fn a_stack_tag_coalesces_onto_the_slot_holder_with_a_new_wire() {
    let mut reg = WireRegistry::empty(1);
    assert_eq!(reg.resolve_with(0, "Volume", Some("vol"), id(5)), (id(5), 1));
    assert_eq!(reg.resolve_with(0, "Volume", Some("vol"), id(6)), (id(5), 2));
    assert_eq!(reg.stack_slot("Volume", "vol"), Some(id(5)));
    // Another app's same tag is a different slot.
    assert_eq!(reg.resolve_with(0, "Other", Some("vol"), id(7)), (id(7), 3));
}

#[test]
fn closing_yields_the_identity_once() {
    let mut reg = WireRegistry::empty(1);
    let (guid, wire) = reg.resolve_with(0, "Mail", None, id(10));
    assert_eq!(reg.close(wire), Some(guid));
    assert_eq!(reg.close(wire), None);
    assert_eq!(reg.wire_guid(wire), None);
    assert_eq!(reg.close(77), None);
}

#[test]
fn the_wire_counter_wraps_at_the_top() {
    let mut reg = WireRegistry::empty(u32::MAX);
    assert_eq!(reg.resolve_with(0, "Mail", None, id(1)), (id(1), u32::MAX));
    assert_eq!(reg.resolve_with(0, "Mail", None, id(2)), (id(2), 0));
}

#[test]
fn generated_identities_resolve_too() {
    let mut reg = WireRegistry::empty(1);
    let (a, wa) = reg.resolve(0, "Mail", None);
    let (b, wb) = reg.resolve(0, "Mail", None);
    assert_eq!((wa, wb), (1, 2));
    assert_eq!(reg.wire_guid(1), Some(a));
    assert_eq!(reg.wire_guid(2), Some(b));
}

#[test]
fn restore_resumes_above_the_session_wires_and_seeds_slots() {
    let restored = vec![
        restored(1, 7, "now", "Mail", None),
        restored(2, 3, "now", "Volume", Some("vol")),
        restored(3, 40, "before", "Old", None),
    ];
    let mut reg = WireRegistry::restore("now", &restored);
    assert_eq!(reg.wire_guid(7), Some(id(1)));
    assert_eq!(reg.wire_guid(3), Some(id(2)));
    assert_eq!(reg.wire_guid(40), None);
    assert_eq!(reg.stack_slot("Volume", "vol"), Some(id(2)));
    // The next fresh wire id is one above the largest of this session.
    assert_eq!(reg.resolve_with(0, "New", None, id(9)), (id(9), 8));
    // The app can still replace its restored notification.
    assert_eq!(reg.resolve_with(7, "Mail", None, id(99)), (id(1), 7));
}

#[test]
fn restore_with_nothing_starts_at_one() {
    let mut reg = WireRegistry::restore("now", &[]);
    assert_eq!(reg.resolve_with(0, "Mail", None, id(4)), (id(4), 1));
}

#[test]
fn a_prior_session_notification_loses_its_owner() {
    let old = release_stale_owner(restored(1, 7, "before", "Mail", None), "now");
    match old.dispatch {
        NotificationSource::Freedesktop(d) => {
            assert_eq!(d.owner, None);
            assert_eq!(d.wire_id, 7);
        }
        _ => panic!("expected a freedesktop dispatch"),
    }
    let live = release_stale_owner(restored(1, 7, "now", "Mail", None), "now");
    match live.dispatch {
        NotificationSource::Freedesktop(d) => assert_eq!(d.owner.as_deref(), Some(":1.7")),
        _ => panic!("expected a freedesktop dispatch"),
    }
}
