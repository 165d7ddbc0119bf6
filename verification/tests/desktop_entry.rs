use wayle::desktop_entry::{applications_dirs, parse_name};

#[test]
fn parse_name_reads_base_name_from_desktop_entry_group() {
    let contents = "[Desktop Entry]\nType=Application\nName=Calendar\nName[de]=Kalender\n";
    assert_eq!(parse_name(contents).as_deref(), Some("Calendar"));
}

#[test]
fn parse_name_ignores_name_in_other_groups() {
    let contents = "[Desktop Action New]\nName=New Window\n[Desktop Entry]\nName=Files\n";
    assert_eq!(parse_name(contents).as_deref(), Some("Files"));
}

#[test]
fn parse_name_returns_none_without_name() {
    let contents = "[Desktop Entry]\nType=Application\n";
    assert_eq!(parse_name(contents), None);
}

#[test]
fn parse_name_trims_and_handles_crlf() {
    let contents = "  [Desktop Entry]  \r\n Name=Terminal \r\n";
    assert_eq!(parse_name(contents).as_deref(), Some("Terminal"));
}

#[test]
fn parse_name_stops_at_a_later_group() {
    let contents = "[Desktop Entry]\nType=Application\n[Desktop Action X]\nName=Other\n";
    assert_eq!(parse_name(contents), None);
}

#[test]
fn parse_name_needs_the_key_written_without_spaces() {
    let contents = "[Desktop Entry]\nName = Terminal\n";
    assert_eq!(parse_name(contents), None);
}

fn some(s: &str) -> Option<String> {
    Some(String::from(s))
}

#[test]
fn applications_dirs_prefer_the_data_home_then_the_data_dirs() {
    assert_eq!(
        applications_dirs(some("/home/u/.data"), some("/home/u"), some("/opt/share:/usr/share/")),
        vec!["/home/u/.data/applications", "/opt/share/applications", "/usr/share/applications"]
    );
}

#[test]
fn applications_dirs_fall_back_to_home_and_the_default_data_dirs() {
    assert_eq!(
        applications_dirs(some(""), some("/home/u"), None),
        vec![
            "/home/u/.local/share/applications",
            "/usr/local/share/applications",
            "/usr/share/applications",
        ]
    );
    assert_eq!(
        applications_dirs(None, None, some("::/a::b:")),
        vec!["/a/applications", "b/applications"]
    );
}
