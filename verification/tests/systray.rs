use wayle::systray::{
    discovery_candidates, item_step, resolve_role, split_registered, split_stored, tries_watcher,
    ItemAction, ItemEvent, ItemKey, ItemPhase, RegisterPlan, Registrar, SystemTrayServiceBuilder,
    TrayMode,
};

fn key(owner: &str, path: &str) -> ItemKey {
    ItemKey { owner: String::from(owner), path: String::from(path) }
}

#[test]
fn builder_defaults_to_auto_without_daemon() {
    let b = SystemTrayServiceBuilder::new();
    assert_eq!(b.configured_mode(), TrayMode::Auto);
    assert!(!b.registers_daemon());
    let b = SystemTrayServiceBuilder::default().mode(TrayMode::Host).with_daemon();
    assert_eq!(b.configured_mode(), TrayMode::Host);
    assert!(b.registers_daemon());
}

#[test]
fn roles_follow_the_mode_and_the_name() {
    assert!(!tries_watcher(TrayMode::Host));
    assert!(tries_watcher(TrayMode::Auto));
    assert_eq!(resolve_role(TrayMode::Host, true), Ok(false));
    assert_eq!(resolve_role(TrayMode::Auto, true), Ok(true));
    assert_eq!(resolve_role(TrayMode::Auto, false), Ok(false));
    assert_eq!(resolve_role(TrayMode::Watcher, true), Ok(true));
    assert_eq!(
        resolve_role(TrayMode::Watcher, false),
        Err(String::from("D-Bus name 'org.kde.StatusNotifierWatcher' is already owned"))
    );
}

#[test]
fn registration_shapes_resolve_to_callable_and_path() {
    assert_eq!(
        split_registered("/org/ayatana/NotificationItem/x", ":1.5"),
        (String::from(":1.5/org/ayatana/NotificationItem/x"), String::from("/org/ayatana/NotificationItem/x"))
    );
    assert_eq!(
        split_registered("org.kde.StatusNotifierItem-123-1", ":1.5"),
        (String::from("org.kde.StatusNotifierItem-123-1"), String::from("/StatusNotifierItem"))
    );
    assert_eq!(
        split_stored(":1.5/org/ayatana/NotificationItem/x"),
        (String::from(":1.5"), String::from("/org/ayatana/NotificationItem/x"))
    );
    assert_eq!(
        split_stored("org.kde.StatusNotifierItem-123-1"),
        (String::from("org.kde.StatusNotifierItem-123-1"), String::from("/StatusNotifierItem"))
    );
}

#[test]
fn discovery_probes_foreign_unique_names_only() {
    let names = vec![
        String::from("org.freedesktop.DBus"),
        String::from(":1.2"),
        String::from(":1.7"),
        String::from(":1.9"),
    ];
    let own = vec![String::from(":1.7")];
    assert_eq!(discovery_candidates(&names, &own), vec![String::from(":1.2"), String::from(":1.9")]);
}

#[test]
fn registrar_publishes_each_identity_once_in_order() {
    let mut reg: Registrar<u32> = Registrar::new();
    assert_eq!(reg.insert(key(":1.2", "/a"), String::from(":1.2/a"), 1), None);
    assert_eq!(reg.insert(key(":1.3", "/StatusNotifierItem"), String::from("org.x"), 2), None);
    // The duplicate loses and is handed back.
    assert_eq!(reg.insert(key(":1.2", "/a"), String::from(":1.2/a"), 3), Some(3));
    assert_eq!(reg.services(), vec![String::from(":1.2/a"), String::from("org.x")]);
    assert_eq!(reg.items(), vec![&1, &2]);
    assert!(reg.contains(":1.2", "/a"));
    assert!(matches!(reg.plan_register("/a", ":1.2"), RegisterPlan::AlreadyRegistered));
    match reg.plan_register("/b", ":1.2") {
        RegisterPlan::Spawn { callable, key } => {
            assert_eq!(callable, ":1.2/b");
            assert_eq!((key.owner.as_str(), key.path.as_str()), (":1.2", "/b"));
        }
        RegisterPlan::AlreadyRegistered => panic!("expected a new lifecycle"),
    }
}

#[test]
fn registrar_removes_by_identity_or_service() {
    let mut reg: Registrar<u32> = Registrar::new();
    reg.insert(key(":1.2", "/a"), String::from(":1.2/a"), 1);
    reg.insert(key(":1.3", "/b"), String::from(":1.3/b"), 2);
    reg.insert(key(":1.4", "/c"), String::from(":1.4/c"), 3);
    assert_eq!(reg.remove(":1.3", "/b").map(|e| e.item), Some(2));
    assert!(reg.remove(":1.3", "/b").is_none());
    assert_eq!(reg.remove_by_service(":1.4/c").map(|e| e.service), Some(String::from(":1.4/c")));
    assert!(reg.remove_by_service("nope").is_none());
    assert_eq!(reg.items(), vec![&1]);
    let drained = reg.drain();
    assert_eq!(drained.len(), 1);
    assert!(reg.services().is_empty());
}

fn run(events: &[ItemEvent]) -> (ItemPhase, Vec<ItemAction>) {
    let mut phase = ItemPhase::Arming;
    let mut actions = Vec::new();
    for e in events {
        let (next, action) = item_step(phase, *e);
        phase = next;
        actions.push(action);
    }
    (phase, actions)
}

#[test]
fn an_item_is_published_after_the_checks_and_withdrawn_when_its_owner_leaves() {
    let (phase, actions) = run(&[
        ItemEvent::WatchArmed(true),
        ItemEvent::Alive(true),
        ItemEvent::Loaded(true),
        ItemEvent::OwnerGone,
    ]);
    assert_eq!(phase, ItemPhase::Finished);
    assert_eq!(
        actions,
        vec![ItemAction::CheckLiveness, ItemAction::LoadItem, ItemAction::Insert, ItemAction::Remove]
    );
}

#[test]
fn a_dead_owner_is_never_published() {
    let (phase, actions) = run(&[ItemEvent::WatchArmed(true), ItemEvent::Alive(false), ItemEvent::Loaded(true)]);
    assert_eq!(phase, ItemPhase::Finished);
    assert_eq!(actions, vec![ItemAction::CheckLiveness, ItemAction::Stop, ItemAction::Wait]);
    let (_, actions) = run(&[ItemEvent::WatchArmed(false), ItemEvent::Alive(true)]);
    assert_eq!(actions, vec![ItemAction::Stop, ItemAction::Wait]);
}

#[test]
fn an_owner_leaving_while_loading_or_a_cancel_stops_quietly() {
    let (_, actions) = run(&[ItemEvent::WatchArmed(true), ItemEvent::Alive(true), ItemEvent::OwnerGone]);
    assert_eq!(actions.last(), Some(&ItemAction::Stop));
    let (_, actions) = run(&[
        ItemEvent::WatchArmed(true),
        ItemEvent::Alive(true),
        ItemEvent::Loaded(true),
        ItemEvent::Cancelled,
        ItemEvent::OwnerGone,
    ]);
    assert_eq!(&actions[2..], &[ItemAction::Insert, ItemAction::Stop, ItemAction::Wait]);
}

#[test]
fn registrar_over_a_message_sequence_keeps_insertion_order_and_distinct_keys() {
    let mut reg: Registrar<u32> = Registrar::new();
    reg.insert(key(":1.2", "/a"), String::from(":1.2/a"), 1);
    reg.insert(key(":1.3", "/b"), String::from(":1.3/b"), 2);
    assert_eq!(reg.insert(key(":1.2", "/a"), String::from(":1.2/a"), 9), Some(9));
    reg.insert(key(":1.4", "/c"), String::from(":1.4/c"), 3);
    reg.remove(":1.2", "/a");
    reg.insert(key(":1.2", "/a"), String::from(":1.2/a"), 4);
    reg.remove_by_service("none");
    assert_eq!(reg.items(), vec![&2, &3, &4]);
    assert_eq!(
        reg.services(),
        vec![String::from(":1.3/b"), String::from(":1.4/c"), String::from(":1.2/a")]
    );
}
