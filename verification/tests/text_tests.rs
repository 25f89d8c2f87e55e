use asset_hub::text::{decimal_string, hex16_string, text_eq};

#[test]
fn hex16_pads_to_sixteen_digits() {
    assert_eq!(hex16_string(0), "0000000000000000");
    assert_eq!(hex16_string(0xdead_beef), "00000000deadbeef");
    assert_eq!(hex16_string(u64::MAX), "ffffffffffffffff");
}

#[test]
fn decimal_has_no_leading_zeros() {
    assert_eq!(decimal_string(0), "0");
    assert_eq!(decimal_string(7), "7");
    assert_eq!(decimal_string(1234567890), "1234567890");
    assert_eq!(decimal_string(u64::MAX as u128), "18446744073709551615");
}

#[test]
fn text_eq_compares_contents() {
    assert!(text_eq("alice", "alice"));
    assert!(!text_eq("alice", "bob"));
    assert!(!text_eq("alice", "alicf"));
    assert!(text_eq("", ""));
}
