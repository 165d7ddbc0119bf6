use wayle::service_builder::NotificationServiceBuilder;

#[test]
fn the_builder_starts_from_the_defaults() {
    let b = NotificationServiceBuilder::new();
    assert_eq!(b.configured_popup_duration(), 5000);
    assert!(!b.configured_dnd());
    assert!(b.configured_remove_expired());
    assert!(b.configured_blocklist().is_empty());
    assert!(!b.registers_daemon());
    let d = NotificationServiceBuilder::default();
    assert_eq!(d.configured_popup_duration(), 5000);
}

#[test]
fn each_setter_changes_only_its_own_setting() {
    let b = NotificationServiceBuilder::new()
        .popup_duration(8000)
        .dnd(true)
        .remove_expired(false)
        .blocklist(vec![String::from("spam*")])
        .with_daemon();
    assert_eq!(b.configured_popup_duration(), 8000);
    assert!(b.configured_dnd());
    assert!(!b.configured_remove_expired());
    assert_eq!(b.configured_blocklist(), &[String::from("spam*")]);
    assert!(b.registers_daemon());
}
