use lyricsrs::title::{is_digit_char, is_separator_char, remove_numbered_prefix};

#[test]
fn strips_number_space_dash_space() {
    assert_eq!(remove_numbered_prefix("01 - Asja"), "Asja");
    assert_eq!(remove_numbered_prefix("02 - Anoana"), "Anoana");
}

#[test]
fn strips_number_and_dot() {
    assert_eq!(remove_numbered_prefix("6.CASTLE OF GLASS"), "CASTLE OF GLASS");
}

#[test]
fn strips_number_and_underscore_only() {
    assert_eq!(remove_numbered_prefix("5_4AM"), "4AM");
}

#[test]
fn strips_number_space_underscore_space() {
    assert_eq!(remove_numbered_prefix("04 _ In Repair"), "In Repair");
}

#[test]
fn strips_number_dot_space() {
    assert_eq!(
        remove_numbered_prefix("1. Fortnight (Ft. Post Malone)"),
        "Fortnight (Ft. Post Malone)"
    );
    assert_eq!(remove_numbered_prefix("8. Perfect Day"), "Perfect Day");
}

#[test]
fn stem_without_prefix_is_unchanged() {
    assert_eq!(remove_numbered_prefix("Asja"), "Asja");
    assert_eq!(remove_numbered_prefix("In Repair"), "In Repair");
    assert_eq!(remove_numbered_prefix(""), "");
}

#[test]
fn digits_without_separator_are_kept() {
    assert_eq!(remove_numbered_prefix("1999"), "1999");
    assert_eq!(remove_numbered_prefix("4AM"), "4AM");
    assert_eq!(remove_numbered_prefix("99 Luftballons"), "Luftballons");
    assert_eq!(remove_numbered_prefix("99Luftballons"), "99Luftballons");
}

#[test]
fn separator_without_digits_is_kept() {
    assert_eq!(remove_numbered_prefix("- Asja"), "- Asja");
    assert_eq!(remove_numbered_prefix(". Asja"), ". Asja");
    assert_eq!(remove_numbered_prefix(" 01 - Asja"), " 01 - Asja");
}

#[test]
fn all_separators_after_the_number_go() {
    assert_eq!(remove_numbered_prefix("03 -._ - Title"), "Title");
    assert_eq!(remove_numbered_prefix("7 - "), "");
    assert_eq!(remove_numbered_prefix("7."), "");
}

#[test]
fn only_the_first_prefix_goes() {
    assert_eq!(remove_numbered_prefix("1. 2. Title"), "2. Title");
    assert_eq!(remove_numbered_prefix("01 - Title - 02"), "Title - 02");
}

#[test]
fn text_after_the_prefix_is_kept_as_it_is() {
    assert_eq!(remove_numbered_prefix("01 - Señorita "), "Señorita ");
    assert_eq!(remove_numbered_prefix("12.夜に駆ける"), "夜に駆ける");
}

#[test]
fn other_digits_are_no_track_number() {
    assert_eq!(remove_numbered_prefix("٣ - Title"), "٣ - Title");
}

#[test]
fn digit_and_separator_classes() {
    for c in ['0', '5', '9'] {
        assert!(is_digit_char(c));
    }
    for c in ['/', ':', 'a', ' ', '٣'] {
        assert!(!is_digit_char(c));
    }
    for c in ['-', '.', '_', ' '] {
        assert!(is_separator_char(c));
    }
    for c in ['0', 'a', ',', '\t', '~'] {
        assert!(!is_separator_char(c));
    }
}
