use wayle::gvariant::{has_display_hint, parse_buttons, parse_icon, parse_sound, take, IconSource, SoundSource};
use wayle::hints::Variant;
use wayle::image_cache::{png_color_type, png_for_raw_image, strip_rowstride_padding, ColorType};

fn str_v(s: &str) -> Variant {
    Variant::Str(String::from(s))
}

fn icon(tag: &str, payload: Variant) -> Variant {
    Variant::Structure(vec![str_v(tag), Variant::Value(Box::new(payload))])
}

fn row(entries: Vec<(&str, Variant)>) -> Variant {
    Variant::Dict(String::from("s"), String::from("v"), entries.into_iter().map(|(k, v)| (str_v(k), Variant::Value(Box::new(v)))).collect())
}

#[test]
fn icons_name_their_source() {
    match parse_icon(&icon("themed", Variant::Array(String::from("s"), vec![str_v("mail-unread"), str_v("mail")]))) {
        Some(IconSource::Named(n)) => assert_eq!(n, "mail-unread"),
        _ => panic!("themed icon"),
    }
    match parse_icon(&icon("file", str_v("file:///tmp/a.png"))) {
        Some(IconSource::Path(p)) => assert_eq!(p, "/tmp/a.png"),
        _ => panic!("file icon"),
    }
    match parse_icon(&icon("bytes", Variant::Array(String::from("y"), vec![Variant::U8(1), Variant::U8(2)]))) {
        Some(IconSource::Bytes(b)) => assert_eq!(b, vec![1, 2]),
        _ => panic!("bytes icon"),
    }
    match parse_icon(&icon("file-descriptor", Variant::Fd(7))) {
        Some(IconSource::Fd(fd)) => assert_eq!(fd, 7),
        _ => panic!("fd icon"),
    }
    let base = icon("themed", Variant::Array(String::from("s"), vec![str_v("face-smile")]));
    let emblemed = icon("emblemed", Variant::Structure(vec![Variant::Value(Box::new(base)), Variant::Array(String::from("v"), vec![])]));
    match parse_icon(&emblemed) {
        Some(IconSource::Named(n)) => assert_eq!(n, "face-smile"),
        _ => panic!("emblemed icon"),
    }
    assert!(parse_icon(&icon("unknown", str_v("x"))).is_none());
    assert!(parse_icon(&str_v("x")).is_none());
}

#[test]
fn buttons_skip_malformed_rows() {
    let buttons = Variant::Array(String::from("a{sv}"), vec![
        row(vec![("label", str_v("Reply")), ("action", str_v("app.reply")), ("target", Variant::U32(3))]),
        row(vec![("label", str_v("No action"))]),
        str_v("not a row"),
        row(vec![("label", str_v("Call")), ("action", str_v("app.call")), ("purpose", str_v("call.accept"))]),
    ]);
    let parsed = parse_buttons(Some(buttons));
    assert_eq!(parsed.len(), 2);
    assert_eq!(parsed[0].label, "Reply");
    assert_eq!(parsed[0].action, "app.reply");
    assert_eq!(parsed[0].target, Some(Variant::Value(Box::new(Variant::U32(3)))));
    assert_eq!(parsed[1].purpose.as_deref(), Some("call.accept"));
    assert!(parse_buttons(None).is_empty());
}

#[test]
fn sounds_and_display_hints() {
    assert!(matches!(parse_sound(Some(&str_v("silent"))), SoundSource::Silent));
    assert!(matches!(parse_sound(Some(&str_v("default"))), SoundSource::Default));
    assert!(matches!(parse_sound(Some(&str_v("bell"))), SoundSource::Unspecified));
    assert!(matches!(parse_sound(Some(&icon("file-descriptor", Variant::Fd(4)))), SoundSource::Fd(4)));
    assert!(matches!(parse_sound(None), SoundSource::Unspecified));
    let hints = Variant::Array(String::from("s"), vec![str_v("transient"), str_v("tray")]);
    assert!(has_display_hint(Some(&hints), "tray"));
    assert!(!has_display_hint(Some(&hints), "persistent"));
    assert!(!has_display_hint(None, "tray"));
}

#[test]
fn taking_a_key_removes_it() {
    let mut map = vec![(String::from("a"), Variant::U8(1)), (String::from("b"), Variant::U8(2))];
    assert_eq!(take(&mut map, "a"), Some(Variant::U8(1)));
    assert_eq!(take(&mut map, "a"), None);
    assert_eq!(map.len(), 1);
}

#[test]
fn only_eight_bit_rgb_and_rgba_are_cached() {
    assert_eq!(png_color_type(8, 3), Some(ColorType::Rgb));
    assert_eq!(png_color_type(8, 4), Some(ColorType::Rgba));
    assert_eq!(png_color_type(16, 4), None);
    assert_eq!(png_color_type(8, 2), None);
}

#[test]
fn rowstride_padding_is_stripped_per_row() {
    // 2 pixels of RGB per row (6 bytes) in 8-byte rows.
    let data = [1, 2, 3, 4, 5, 6, 0, 0, 7, 8, 9, 10, 11, 12, 0, 0];
    assert_eq!(strip_rowstride_padding(2, 3, 8, &data), vec![1, 2, 3, 4, 5, 6, 7, 8, 9, 10, 11, 12]);
    // A short last row keeps what it has.
    assert_eq!(strip_rowstride_padding(2, 3, 8, &data[..11]), vec![1, 2, 3, 4, 5, 6, 7, 8, 9]);
    // No padding: unchanged.
    assert_eq!(strip_rowstride_padding(2, 3, 6, &data[..12]), data[..12].to_vec());
}

#[test]
fn a_raw_image_encodes_as_a_png() {
    let pixels = [255u8, 0, 0, 255, 0, 255, 0, 255];
    let png = png_for_raw_image(2, 1, 8, 8, 4, &pixels).expect("valid image encodes");
    assert_eq!(&png[..8], &[137, 80, 78, 71, 13, 10, 26, 10]);
    assert_ne!(png, pixels.to_vec());
    // The header records the width and height.
    assert_eq!(&png[16..24], &[0, 0, 0, 2, 0, 0, 0, 1]);
}

#[test]
fn a_raw_image_that_does_not_fit_its_size_is_not_cached() {
    assert!(png_for_raw_image(2, 2, 8, 8, 4, &[0u8; 8]).is_none());
    assert!(png_for_raw_image(0, 1, 0, 8, 4, &[]).is_none());
    assert!(png_for_raw_image(1, 1, 4, 16, 4, &[0u8; 4]).is_none());
}
