use wayle::portal::{validate_bus_name, PortalError, PortalManifest};

#[test]
fn renders_notification_only_manifest() {
    let manifest = PortalManifest::new("org.freedesktop.impl.portal.desktop.wayle")
        .interface("org.freedesktop.impl.portal.Notification")
        .use_in("wayle");

    let contents = manifest.to_file_contents();

    assert_eq!(
        contents,
        "[portal]\n\
         DBusName=org.freedesktop.impl.portal.desktop.wayle\n\
         Interfaces=org.freedesktop.impl.portal.Notification;\n\
         UseIn=wayle;\n"
    );
}

#[test]
fn renders_multiple_interfaces_and_desktops() {
    let contents = PortalManifest::new("org.freedesktop.impl.portal.desktop.wayle")
        .interfaces(&[
            "org.freedesktop.impl.portal.Notification",
            "org.freedesktop.impl.portal.Settings",
        ])
        .use_in("wayle")
        .use_in("wlroots")
        .to_file_contents();

    assert!(contents.contains(
        "Interfaces=org.freedesktop.impl.portal.Notification;org.freedesktop.impl.portal.Settings;\n"
    ));
    assert!(contents.contains("UseIn=wayle;wlroots;\n"));
}

#[test]
fn omits_use_in_when_unset() {
    let contents = PortalManifest::new("org.freedesktop.impl.portal.desktop.wayle")
        .interface("org.freedesktop.impl.portal.Notification")
        .to_file_contents();

    assert!(!contents.contains("UseIn="));
}

#[test]
fn validate_accepts_matching_set_regardless_of_order() {
    let manifest = PortalManifest::new("org.freedesktop.impl.portal.desktop.wayle").interfaces(&[
        "org.freedesktop.impl.portal.Notification",
        "org.freedesktop.impl.portal.Settings",
    ]);

    assert!(
        manifest
            .validate(&[
                "org.freedesktop.impl.portal.Settings",
                "org.freedesktop.impl.portal.Notification",
            ])
            .is_ok()
    );
}

#[test]
fn validate_rejects_mismatched_set() {
    let manifest = PortalManifest::new("org.freedesktop.impl.portal.desktop.wayle")
        .interface("org.freedesktop.impl.portal.Notification");

    let error = manifest
        .validate(&[
            "org.freedesktop.impl.portal.Notification",
            "org.freedesktop.impl.portal.Settings",
        ])
        .unwrap_err();

    assert!(matches!(error, PortalError::InterfaceMismatch { .. }));
}

#[test]
fn declared_interfaces_keep_declaration_order() {
    let manifest = PortalManifest::new("x")
        .interface("b")
        .interface("a");
    let declared: Vec<&str> = manifest.declared_interfaces().iter().map(String::as_str).collect();
    assert_eq!(declared, vec!["b", "a"]);
}

#[test]
fn mismatch_reports_both_sets_sorted() {
    let manifest = PortalManifest::new("x").interfaces(&["b", "a"]);
    match manifest.validate(&["c"]) {
        Err(PortalError::InterfaceMismatch { expected, registered }) => {
            assert_eq!(expected, vec!["a".to_string(), "b".to_string()]);
            assert_eq!(registered, vec!["c".to_string()]);
        }
        _ => panic!("expected a mismatch"),
    }
}

#[test]
fn bus_names_must_be_well_known() {
    assert!(validate_bus_name("org.freedesktop.impl.portal.desktop.wayle").is_ok());
    assert!(validate_bus_name("org.gnome.Service-for_you").is_ok());
    for bad in ["", "no-dots", "double..dots", ".", ".start.with.dot", "1st.element", "the.2nd.element", "trailing."] {
        match validate_bus_name(bad) {
            Err(PortalError::InvalidName(name)) => assert_eq!(name, bad),
            other => panic!("{bad:?} should be refused, got {other:?}"),
        }
    }
    let long = format!("a.{}", "b".repeat(254));
    assert!(validate_bus_name(&long).is_err());
    let longest = format!("a.{}", "b".repeat(253));
    assert!(validate_bus_name(&longest).is_ok());
}
