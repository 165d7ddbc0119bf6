use std::str::FromStr;

use wayle::model::{ActionId, NotificationId};

use wayle::types::{
    ButtonPurpose, Capabilities, Category, ClosedReason, Priority, Signal, Urgency,
    KNOWN_CATEGORIES,
};

#[test]
fn urgency_from_u8_with_zero_returns_low() {
    let result = Urgency::from(0);

    assert_eq!(result, Urgency::Low);
}

#[test]
fn urgency_from_u8_with_two_returns_critical() {
    let result = Urgency::from(2);

    assert_eq!(result, Urgency::Critical);
}

#[test]
fn urgency_from_u8_with_one_returns_normal() {
    let result = Urgency::from(1);

    assert_eq!(result, Urgency::Normal);
}

#[test]
fn urgency_from_u8_with_five_returns_normal() {
    let result = Urgency::from(5);

    assert_eq!(result, Urgency::Normal);
}

#[test]
fn priority_from_str_maps_all_four_levels() {
    assert_eq!("low".parse::<Priority>().unwrap(), Priority::Low);
    assert_eq!("normal".parse::<Priority>().unwrap(), Priority::Normal);
    assert_eq!("high".parse::<Priority>().unwrap(), Priority::High);
    assert_eq!("urgent".parse::<Priority>().unwrap(), Priority::Urgent);
    assert_eq!("bogus".parse::<Priority>().unwrap(), Priority::Normal);
}

#[test]
fn priority_u8_round_trips() {
    for priority in [
        Priority::Low,
        Priority::Normal,
        Priority::High,
        Priority::Urgent,
    ] {
        assert_eq!(Priority::from(priority as u8), priority);
    }
}

#[test]
fn priority_projects_to_urgency_collapsing_high() {
    assert_eq!(Urgency::from(Priority::Low), Urgency::Low);
    assert_eq!(Urgency::from(Priority::Normal), Urgency::Normal);
    assert_eq!(Urgency::from(Priority::High), Urgency::Normal);
    assert_eq!(Urgency::from(Priority::Urgent), Urgency::Critical);
}

#[test]
fn urgency_lifts_to_priority_without_high() {
    assert_eq!(Priority::from(Urgency::Low), Priority::Low);
    assert_eq!(Priority::from(Urgency::Normal), Priority::Normal);
    assert_eq!(Priority::from(Urgency::Critical), Priority::Urgent);
}

#[test]
fn closed_reason_from_u32_with_one_returns_expired() {
    let result = ClosedReason::from(1);

    assert_eq!(result, ClosedReason::Expired);
}

#[test]
fn closed_reason_from_u32_with_two_returns_dismissed_by_user() {
    let result = ClosedReason::from(2);

    assert_eq!(result, ClosedReason::DismissedByUser);
}

#[test]
fn closed_reason_from_u32_with_three_returns_closed() {
    let result = ClosedReason::from(3);

    assert_eq!(result, ClosedReason::Closed);
}

#[test]
fn closed_reason_from_u32_with_zero_returns_unknown() {
    let result = ClosedReason::from(0);

    assert_eq!(result, ClosedReason::Unknown);
}

#[test]
fn closed_reason_from_u32_with_five_returns_unknown() {
    let result = ClosedReason::from(5);

    assert_eq!(result, ClosedReason::Unknown);
}

#[test]
fn capabilities_from_str_with_action_icons_returns_correct_variant() {
    let result = "action-icons".parse::<Capabilities>().unwrap();

    assert_eq!(result, Capabilities::ActionIcons);
}

#[test]
fn capabilities_from_str_with_actions_returns_correct_variant() {
    let result = "actions".parse::<Capabilities>().unwrap();

    assert_eq!(result, Capabilities::Actions);
}

#[test]
fn capabilities_from_str_with_persistence_returns_correct_variant() {
    let result = "persistence".parse::<Capabilities>().unwrap();

    assert_eq!(result, Capabilities::Persistence);
}

#[test]
fn capabilities_from_str_with_vendor_prefix_returns_vendor() {
    let result = "x-custom-cap".parse::<Capabilities>().unwrap();

    assert_eq!(result, Capabilities::Vendor("x-custom-cap".to_string()));
}

#[test]
fn capabilities_from_str_with_unknown_wraps_in_vendor_format() {
    let result = "unknown-capability".parse::<Capabilities>().unwrap();

    assert_eq!(
        result,
        Capabilities::Vendor("x-unknown-unknown-capability".to_string())
    );
}

#[test]
fn capabilities_as_str_for_action_icons_returns_correct_string() {
    let cap = Capabilities::ActionIcons;

    let result = cap.as_str();

    assert_eq!(result, "action-icons");
}

#[test]
fn capabilities_as_str_for_persistence_returns_correct_string() {
    let cap = Capabilities::Persistence;

    let result = cap.as_str();

    assert_eq!(result, "persistence");
}

#[test]
fn capabilities_as_str_with_vendor_returns_inner_string() {
    let cap = Capabilities::Vendor("x-custom".to_string());

    let result = cap.as_str();

    assert_eq!(result, "x-custom");
}

#[test]
fn category_from_str_with_call_returns_correct_variant() {
    let result = "call".parse::<Category>().unwrap();

    assert_eq!(result, Category::Call);
}

#[test]
fn known_categories_parse_to_typed_variants_and_round_trip() {
    for string in KNOWN_CATEGORIES.iter() {
        let category: Category = string.parse().expect("known category parses");
        assert!(
            !matches!(category, Category::Vendor(_)),
            "advertised category {string} fell through to Vendor"
        );
        assert_eq!(category.as_str(), *string, "{string} did not round-trip");
    }
}

#[test]
fn category_from_str_with_email_arrived_returns_correct_variant() {
    let result = "email.arrived".parse::<Category>().unwrap();

    assert_eq!(result, Category::EmailArrived);
}

#[test]
fn category_from_str_with_network_error_returns_correct_variant() {
    let result = "network.error".parse::<Category>().unwrap();

    assert_eq!(result, Category::NetworkError);
}

#[test]
fn category_from_str_with_vendor_prefix_returns_vendor() {
    let result = "x-custom-category".parse::<Category>().unwrap();

    assert_eq!(result, Category::Vendor("x-custom-category".to_string()));
}

#[test]
fn category_from_str_with_unknown_wraps_in_vendor_format() {
    let result = "unknown-category".parse::<Category>().unwrap();

    assert_eq!(
        result,
        Category::Vendor("x-unknown-unknown-category".to_string())
    );
}

#[test]
fn category_as_str_for_call_returns_correct_string() {
    let cat = Category::Call;

    let result = cat.as_str();

    assert_eq!(result, "call");
}

#[test]
fn category_as_str_for_email_arrived_returns_correct_string() {
    let cat = Category::EmailArrived;

    let result = cat.as_str();

    assert_eq!(result, "email.arrived");
}

#[test]
fn category_as_str_with_vendor_returns_inner_string() {
    let cat = Category::Vendor("x-custom".to_string());

    let result = cat.as_str();

    assert_eq!(result, "x-custom");
}

#[test]
fn signal_notification_closed_returns_correct_str() {
    let signal = Signal::NotificationClosed;

    let result = signal.as_str();

    assert_eq!(result, "NotificationClosed");
}

#[test]
fn signal_action_invoked_returns_correct_str() {
    let signal = Signal::ActionInvoked;

    let result = signal.as_str();

    assert_eq!(result, "ActionInvoked");
}

#[test]
fn signal_activation_token_returns_correct_str() {
    let signal = Signal::ActivationToken;

    let result = signal.as_str();

    assert_eq!(result, "ActivationToken");
}

#[test]
fn signal_notification_replied_returns_correct_str() {
    assert_eq!(Signal::NotificationReplied.as_str(), "NotificationReplied");
}

#[test]
fn priority_levels_are_zero_to_three() {
    assert_eq!(Priority::Low.level(), 0);
    assert_eq!(Priority::Normal.level(), 1);
    assert_eq!(Priority::High.level(), 2);
    assert_eq!(Priority::Urgent.level(), 3);
    assert_eq!(Priority::from(9u8), Priority::Normal);
    assert_eq!(Priority::default(), Priority::Normal);
}

#[test]
fn closed_reason_codes_round_trip() {
    for reason in [
        ClosedReason::Expired,
        ClosedReason::DismissedByUser,
        ClosedReason::Closed,
        ClosedReason::Unknown,
    ] {
        assert_eq!(ClosedReason::from(reason.code()), reason);
    }
    assert_eq!(ClosedReason::Expired.code(), 1);
    assert_eq!(ClosedReason::Unknown.code(), 4);
}

#[test]
fn known_capabilities_round_trip_and_vendor_is_stable() {
    for cap in ["body", "body-markup", "icon-static", "sound", "icon-multi"] {
        assert_eq!(Capabilities::parse(cap).as_str(), cap);
    }
    let vendor = Capabilities::parse("weird");
    assert_eq!(Capabilities::parse(vendor.as_str()), vendor);
}

#[test]
fn button_purposes_parse_and_round_trip() {
    assert_eq!(ButtonPurpose::parse("im.reply-with-text"), ButtonPurpose::ImReplyWithText);
    assert_eq!(ButtonPurpose::from_str("call.accept").unwrap(), ButtonPurpose::CallAccept);
    assert_eq!(
        ButtonPurpose::parse("custom.thing"),
        ButtonPurpose::Other("custom.thing".to_string())
    );
    assert_eq!(ButtonPurpose::CallHangUp.as_str(), "call.hang-up");
}

#[test]
fn vendor_category_reparses_to_itself() {
    let vendor = Category::parse("strange");
    assert_eq!(vendor.as_str(), "x-unknown-strange");
    assert_eq!(Category::parse(vendor.as_str()), vendor);
}

#[test]
fn notification_id_displays_its_raw_value() {
    assert_eq!(NotificationId::new(0).to_string(), "0");
    assert_eq!(NotificationId::new(1234567890).to_string(), "1234567890");
    assert_eq!(NotificationId::new(-42).to_string(), "-42");
    assert_eq!(NotificationId::new(i64::MIN).to_string(), "-9223372036854775808");
    assert_eq!(NotificationId::new(i64::MAX).to_string(), "9223372036854775807");
}

#[test]
fn reserved_action_id_message_names_the_key() {
    let err = ActionId::new("default").unwrap_err();
    assert_eq!(err.message(), "\"default\" is a reserved action id");
}
