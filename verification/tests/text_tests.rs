use pp252::text::{push_decimal, str_eq_ignore_ascii_case, u32_to_decimal};

#[test]
fn decimal_of_zero() {
    assert_eq!(u32_to_decimal(0), "0");
}

#[test]
fn decimal_of_crop_size() {
    assert_eq!(u32_to_decimal(252), "252");
}

#[test]
fn decimal_of_max() {
    assert_eq!(u32_to_decimal(u32::MAX), "4294967295");
}

#[test]
fn decimal_matches_to_string() {
    for n in [1u32, 9, 10, 99, 100, 1000, 65535, 1234567] {
        assert_eq!(u32_to_decimal(n), n.to_string());
    }
}

#[test]
fn decimal_appends() {
    let mut s = String::from("w=");
    push_decimal(&mut s, 1920);
    assert_eq!(s, "w=1920");
}

#[test]
fn decimal_reads_back_law_example() {
    let s = u32_to_decimal(4050);
    assert!(s.chars().all(|c| c.is_ascii_digit()));
    assert!(!s.starts_with('0'));
    assert_eq!(s.parse::<u32>().unwrap(), 4050);
}

#[test]
fn ignore_case_equal() {
    assert!(str_eq_ignore_ascii_case("png", "png"));
    assert!(str_eq_ignore_ascii_case("PNG", "png"));
    assert!(str_eq_ignore_ascii_case("pNg", "PnG"));
}

#[test]
fn ignore_case_different() {
    assert!(!str_eq_ignore_ascii_case("pn", "png"));
    assert!(!str_eq_ignore_ascii_case("pngx", "png"));
    assert!(!str_eq_ignore_ascii_case("jpg", "png"));
    assert!(!str_eq_ignore_ascii_case("", "png"));
}

#[test]
fn ignore_case_non_ascii_kept() {
    assert!(str_eq_ignore_ascii_case("Ä", "Ä"));
    assert!(!str_eq_ignore_ascii_case("Ä", "ä"));
    assert_eq!(str_eq_ignore_ascii_case("Ä", "ä"), "Ä".eq_ignore_ascii_case("ä"));
}
