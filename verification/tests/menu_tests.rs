use fund_baby::menu::{parse_menu_id, parse_u8_from, MenuCommand};

#[test]
fn fixed_menu_ids() {
    assert_eq!(parse_menu_id("show"), MenuCommand::Show);
    assert_eq!(parse_menu_id("hide"), MenuCommand::Hide);
    assert_eq!(parse_menu_id("import-data"), MenuCommand::ImportData);
    assert_eq!(parse_menu_id("export-data"), MenuCommand::ExportData);
    assert_eq!(parse_menu_id("autostart"), MenuCommand::Autostart);
    assert_eq!(parse_menu_id("quit"), MenuCommand::Quit);
}

#[test]
fn opacity_menu_ids() {
    for n in [0u8, 20, 40, 60, 80, 100] {
        assert_eq!(parse_menu_id(&format!("opacity:{}", n)), MenuCommand::Opacity(n));
    }
    assert_eq!(parse_menu_id("opacity:255"), MenuCommand::Opacity(255));
    assert_eq!(parse_menu_id("opacity:+7"), MenuCommand::Opacity(7));
    assert_eq!(parse_menu_id("opacity:007"), MenuCommand::Opacity(7));
    assert_eq!(parse_menu_id("opacity:opacity:30"), MenuCommand::Opacity(30));
}

#[test]
fn bad_opacity_ids_do_nothing() {
    assert_eq!(parse_menu_id("opacity:256"), MenuCommand::Nothing);
    assert_eq!(parse_menu_id("opacity:"), MenuCommand::Nothing);
    assert_eq!(parse_menu_id("opacity:+"), MenuCommand::Nothing);
    assert_eq!(parse_menu_id("opacity:-1"), MenuCommand::Nothing);
    assert_eq!(parse_menu_id("opacity:4x"), MenuCommand::Nothing);
    assert_eq!(parse_menu_id("opacity:1000"), MenuCommand::Nothing);
    assert_eq!(parse_menu_id("opacity"), MenuCommand::Nothing);
}

#[test]
fn unknown_ids_do_nothing() {
    assert_eq!(parse_menu_id(""), MenuCommand::Nothing);
    assert_eq!(parse_menu_id("Show"), MenuCommand::Nothing);
    assert_eq!(parse_menu_id("showx"), MenuCommand::Nothing);
    assert_eq!(parse_menu_id("透明度"), MenuCommand::Nothing);
}

#[test]
fn byte_parsing_agrees_with_std() {
    let samples = [
        "0", "9", "10", "99", "100", "255", "256", "+0", "+255", "++1", "", "+", "-0", "a", "1a", "00000000000000000012",
        "99999999999", "٣",
    ];
    for s in samples {
        assert_eq!(parse_u8_from(s, 0), s.parse::<u8>().ok(), "input {:?}", s);
    }
    assert_eq!(parse_u8_from("xx42", 2), Some(42));
    assert_eq!(parse_u8_from("xx", 2), None);
}
