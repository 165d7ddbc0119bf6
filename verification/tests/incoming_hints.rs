use wayle::hints::Variant;
use wayle::incoming::IncomingHints;

fn raw_image(pixels: &[u8]) -> Variant {
    Variant::Structure(vec![
        Variant::I32(1),
        Variant::I32(1),
        Variant::I32(4),
        Variant::Bool(true),
        Variant::I32(8),
        Variant::I32(4),
        Variant::Array(String::from("y"), pixels.iter().map(|b| Variant::U8(*b)).collect()),
    ])
}

fn has_key(map: &[(String, Variant)], key: &str) -> bool {
    map.iter().any(|(k, _)| k == key)
}

#[test]
fn incoming_hints_extracts_image_data_without_storing_raw_hint() {
    let pixels = [0u8, 1, 2, 3];
    let raw = vec![
        (String::from("category"), Variant::Str(String::from("im.received"))),
        (String::from("image-data"), raw_image(&pixels)),
    ];
    let hints = IncomingHints::decode(raw).ok().expect("hints should parse");

    let image = hints.image_data().expect("image-data should parse");

    assert_eq!(image.width, 1);
    assert_eq!(image.height, 1);
    assert_eq!(image.data, pixels);
    let owned = hints.into_owned();
    assert!(has_key(&owned, "category"));
    assert!(!has_key(&owned, "image-data"));
}

#[test]
fn incoming_hints_prefers_spec_image_data_key() {
    let low_priority = [9u8, 9, 9, 9];
    let high_priority = [1u8, 2, 3, 4];
    let raw = vec![
        (String::from("icon_data"), raw_image(&low_priority)),
        (String::from("image-data"), raw_image(&high_priority)),
    ];
    let hints = IncomingHints::decode(raw).ok().expect("hints should parse");

    assert_eq!(
        hints.image_data().expect("image-data should parse").data,
        high_priority
    );
}

#[test]
fn incoming_hints_falls_back_to_legacy_then_icon_data() {
    let legacy = [5u8, 6, 7, 8];
    let icon = [9u8, 9, 9, 9];
    let raw = vec![
        (String::from("icon_data"), raw_image(&icon)),
        (String::from("image_data"), raw_image(&legacy)),
    ];
    let hints = IncomingHints::decode(raw).ok().expect("hints should parse");
    assert_eq!(hints.image_data().unwrap().data, legacy);

    let raw = vec![(String::from("icon_data"), raw_image(&icon))];
    let hints = IncomingHints::decode(raw).ok().expect("hints should parse");
    assert_eq!(hints.image_data().unwrap().data, icon);

    let raw = vec![(String::from("urgency"), Variant::U8(1))];
    let hints = IncomingHints::decode(raw).ok().expect("hints should parse");
    assert!(hints.image_data().is_none());
}

#[test]
fn normalize_hints_replaces_image_data_with_cached_path() {
    let pixels = [0u8, 1, 2, 3];
    let raw = vec![
        (String::from("category"), Variant::Str(String::from("im.received"))),
        (String::from("image-data"), raw_image(&pixels)),
    ];
    let hints = IncomingHints::decode(raw).ok().expect("hints should decode");

    let normalized = hints.normalize(Some(String::from("/tmp/fake.png")));

    assert!(has_key(&normalized, "category"));
    assert!(!has_key(&normalized, "image-data"));
    let path = normalized
        .iter()
        .find(|(k, _)| k == "image-path")
        .map(|(_, v)| v.clone());
    assert_eq!(path, Some(Variant::Str(String::from("/tmp/fake.png"))));
}

#[test]
fn normalize_without_a_cached_file_keeps_only_the_other_hints() {
    let raw = vec![
        (String::from("image-path"), Variant::Str(String::from("/old.png"))),
        (String::from("image-data"), raw_image(&[1, 2, 3, 4])),
        (String::from("urgency"), Variant::U8(2)),
    ];
    let hints = IncomingHints::decode(raw).ok().expect("hints should decode");
    let normalized = hints.normalize(None);
    assert_eq!(
        normalized,
        vec![
            (String::from("image-path"), Variant::Str(String::from("/old.png"))),
            (String::from("urgency"), Variant::U8(2)),
        ]
    );
}

#[test]
fn normalize_hints_discards_malformed_image_data() {
    let raw = vec![
        (String::from("urgency"), Variant::U8(1)),
        (String::from("image-data"), Variant::Str(String::from("not-an-image"))),
    ];
    assert!(
        IncomingHints::decode(raw).is_err(),
        "invalid image-data should be rejected at the D-Bus boundary"
    );
}

#[test]
fn an_image_whose_pixels_are_not_bytes_is_malformed() {
    let mut image = raw_image(&[]);
    if let Variant::Structure(fields) = &mut image {
        fields[6] = Variant::Array(String::from("i"), Vec::new());
    }
    let raw = vec![(String::from("image-data"), image)];
    assert!(IncomingHints::decode(raw).is_err());
    let raw = vec![(String::from("image-data"), raw_image(&[]))];
    assert!(IncomingHints::decode(raw).is_ok());
}
