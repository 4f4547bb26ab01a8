use rasta::num::{parse_dec, to_dec_string};
use rasta::rand_id::random_id;

#[test]
fn decimal_rendering_is_exact() {
    assert_eq!(to_dec_string(0), "0");
    assert_eq!(to_dec_string(7), "7");
    assert_eq!(to_dec_string(10), "10");
    assert_eq!(to_dec_string(65535), "65535");
    assert_eq!(to_dec_string(u64::MAX), "18446744073709551615");
}

#[test]
fn decimal_parsing_is_exact() {
    assert_eq!(parse_dec("0"), Some(0));
    assert_eq!(parse_dec("007"), Some(7));
    assert_eq!(parse_dec("18446744073709551615"), Some(u64::MAX));
    assert_eq!(parse_dec("18446744073709551616"), None);
    assert_eq!(parse_dec(""), None);
    assert_eq!(parse_dec("12a"), None);
    assert_eq!(parse_dec("-1"), None);
}

#[test]
fn rendering_then_parsing_gives_the_number_back() {
    for n in [0u64, 1, 9, 10, 99, 1000, 123456789, u64::MAX] {
        assert_eq!(parse_dec(&to_dec_string(n)), Some(n));
    }
}

#[test]
fn random_ids_are_letters_of_the_asked_length() {
    let id = random_id(10);
    assert_eq!(id.len(), 10);
    assert!(id.chars().all(|c| c.is_ascii_alphabetic()));
    assert_eq!(random_id(0), "");
}
