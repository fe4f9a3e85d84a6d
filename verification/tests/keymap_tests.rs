use sky_sheet_player::keymap::{key_char, map_key};

#[test]
fn maps_the_fifteen_keys() {
    let expected = [
        'y', 'u', 'i', 'o', 'p', 'h', 'j', 'k', 'l', ';', 'n', 'm', '.', ',', '/',
    ];
    for (n, want) in expected.iter().enumerate() {
        assert_eq!(map_key(&format!("1Key{}", n)), Some(*want));
        assert_eq!(key_char(n as u32), Some(*want));
    }
}

#[test]
fn numbers_beyond_the_keyboard_map_to_nothing() {
    assert_eq!(map_key("1Key15"), None);
    assert_eq!(map_key("1Key99"), None);
    assert_eq!(map_key("1Key4294967296"), None);
    assert_eq!(map_key("1Key99999999999999999999999999"), None);
    assert_eq!(key_char(15), None);
}

#[test]
fn other_symbols_map_to_nothing() {
    assert_eq!(map_key(""), None);
    assert_eq!(map_key("1Key"), None);
    assert_eq!(map_key("1Key+"), None);
    assert_eq!(map_key("1Key-1"), None);
    assert_eq!(map_key("1Key 1"), None);
    assert_eq!(map_key("1Key1 "), None);
    assert_eq!(map_key("2Key1"), None);
    assert_eq!(map_key("1key1"), None);
    assert_eq!(map_key("Key1"), None);
    assert_eq!(map_key("1Key1a"), None);
    assert_eq!(map_key("1Key١"), None);
}

#[test]
fn numerals_may_carry_a_plus_sign_and_leading_zeros() {
    assert_eq!(map_key("1Key+5"), Some('h'));
    assert_eq!(map_key("1Key007"), Some('k'));
    assert_eq!(map_key("1Key+014"), Some('/'));
    assert_eq!(map_key("1Key0000000000000000000000"), Some('y'));
    assert_eq!(map_key("1Key++5"), None);
}

#[test]
fn map_key_agrees_with_the_standard_parser() {
    let samples = [
        "0", "1", "14", "15", "+3", "-3", "003", "", "+", "3x", "4294967295", "4294967296", " 3",
    ];
    for s in samples.iter() {
        let want = match s.parse::<u32>() {
            Ok(n) => key_char(n),
            Err(_) => None,
        };
        assert_eq!(map_key(&format!("1Key{}", s)), want, "symbol 1Key{}", s);
    }
}
