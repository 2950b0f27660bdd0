use pioki::text::{contains, parse_i32};

#[test]
fn parse_i32_agrees_with_std() {
    let cases = [
        "0", "7", "-7", "+7", "", "-", "+", "12a", "a12", " 1", "1 ", "2147483647", "2147483648",
        "-2147483648", "-2147483649", "00000000000000000000042", "-0", "+-1", "--1", "99999999999999999999",
        "٣", "1_000", "0x10", "-00", "+2147483647",
    ];
    for c in cases.iter() {
        assert_eq!(parse_i32(c), c.parse::<i32>().ok(), "input {:?}", c);
    }
}

#[test]
fn parse_i32_exact_values() {
    assert_eq!(parse_i32("42"), Some(42));
    assert_eq!(parse_i32("-2147483648"), Some(i32::MIN));
    assert_eq!(parse_i32("2147483648"), None);
    assert_eq!(parse_i32("abc"), None);
}

#[test]
fn contains_finds_substrings() {
    assert!(contains("violates foreign key constraint \"friends_pioki_id_fkey\"", "friends_pioki_id_fkey"));
    assert!(!contains("violates foreign key constraint \"friends_pioki_friend_id_fkey\"", "friends_pioki_id_fkey"));
    assert!(contains("abc", ""));
    assert!(contains("", ""));
    assert!(!contains("ab", "abc"));
    assert!(contains("héllo wörld", "ö"));
    assert!(contains("aaab", "aab"));
}
