use winit_kms::device::{default_seat, pick_card, resolve_card_path, select_locale, AcquisitionError, CardCandidate};

fn card(seat: Option<&str>, boot_vga: Option<&str>, devnode: Option<&str>) -> CardCandidate {
    CardCandidate {
        seat: seat.map(|s| s.to_string()),
        boot_vga: boot_vga.map(|s| s.to_string()),
        devnode: devnode.map(|s| s.to_string()),
    }
}

#[test]
fn boot_adapter_of_seat_preferred() {
    let seat = "seat0".to_string();
    let cards = vec![
        card(None, Some("0"), Some("/dev/dri/card0")),
        card(Some("seat1"), Some("1"), Some("/dev/dri/card1")),
        card(Some("seat0"), Some("1"), Some("/dev/dri/card2")),
    ];
    assert_eq!(pick_card(&cards, &seat), Some(2));
    assert_eq!(resolve_card_path(None, &cards, &seat), Ok("/dev/dri/card2".to_string()));
}

#[test]
fn first_card_of_seat_when_no_boot_adapter() {
    let seat = default_seat();
    assert_eq!(seat, "seat0");
    let cards = vec![
        card(Some("seat1"), Some("1"), Some("/dev/dri/card0")),
        card(None, None, None),
        card(None, Some("0"), Some("/dev/dri/card1")),
        card(None, None, Some("/dev/dri/card2")),
    ];
    assert_eq!(pick_card(&cards, &seat), Some(2));
}

#[test]
fn override_path_wins() {
    let seat = "seat0".to_string();
    let r = resolve_card_path(Some("/dev/dri/card9".to_string()), &vec![], &seat);
    assert_eq!(r, Ok("/dev/dri/card9".to_string()));
}

#[test]
fn no_card_of_seat_is_an_error() {
    let seat = "seat0".to_string();
    let cards = vec![card(Some("seat1"), Some("1"), Some("/dev/dri/card0"))];
    assert_eq!(pick_card(&cards, &seat), None);
    assert_eq!(resolve_card_path(None, &cards, &seat), Err(AcquisitionError::NoSuitableAdapter));
}

#[test]
fn locale_precedence() {
    let s = |v: &str| Some(v.to_string());
    assert_eq!(select_locale(s("de_DE.UTF-8"), s("fr_FR"), s("en_US")), "de_DE.UTF-8");
    assert_eq!(select_locale(None, s("fr_FR"), s("en_US")), "fr_FR");
    assert_eq!(select_locale(None, None, s("en_US.UTF-8")), "en_US.UTF-8");
    assert_eq!(select_locale(None, None, None), "C");
}
