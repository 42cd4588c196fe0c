use pingbot::text::contains_text;
use pingbot::text::ends_with_any;
use pingbot::text::push_decimal;
use pingbot::text::push_decimal_nat;
use pingbot::text::str_ends_with;

fn dec(n: i64) -> String {
    let mut s = String::new();
    push_decimal(&mut s, n);
    s
}

fn dec_nat(n: u64) -> String {
    let mut s = String::new();
    push_decimal_nat(&mut s, n);
    s
}

#[test]
fn decimal_numerals() {
    assert_eq!(dec(0), "0");
    assert_eq!(dec(7), "7");
    assert_eq!(dec(10), "10");
    assert_eq!(dec(342), "342");
    assert_eq!(dec(1_000_000), "1000000");
    assert_eq!(dec(-1), "-1");
    assert_eq!(dec(-120), "-120");
    assert_eq!(dec(i32::MAX as i64), "2147483647");
    assert_eq!(dec(i32::MIN as i64), "-2147483648");
    assert_eq!(dec(i64::MAX), "9223372036854775807");
    assert_eq!(dec(i64::MIN), "-9223372036854775808");
}

#[test]
fn decimal_numerals_of_unsigned_numbers() {
    assert_eq!(dec_nat(0), "0");
    assert_eq!(dec_nat(9), "9");
    assert_eq!(dec_nat(100), "100");
    assert_eq!(dec_nat(u64::MAX), "18446744073709551615");
}

#[test]
fn decimal_numerals_agree_with_the_standard_library() {
    for n in -1_100i64..1_100 {
        assert_eq!(dec(n), n.to_string());
    }
    for n in [99_999u64, 100_000, 4_294_967_295, 4_294_967_296] {
        assert_eq!(dec_nat(n), n.to_string());
    }
}

#[test]
fn a_numeral_is_appended_to_what_is_there() {
    let mut s = String::from("page=");
    push_decimal_nat(&mut s, 42);
    s.push_str("&n=");
    push_decimal(&mut s, -3);
    assert_eq!(s, "page=42&n=-3");
}

#[test]
fn suffix_test() {
    assert!(str_ends_with("jane-PingCAP", "-PingCAP"));
    assert!(str_ends_with("-PingCAP", "-PingCAP"));
    assert!(str_ends_with("anything", ""));
    assert!(str_ends_with("", ""));
    assert!(!str_ends_with("PingCAP", "-PingCAP"));
    assert!(!str_ends_with("jane-PingCAP ", "-PingCAP"));
    assert!(!str_ends_with("jane-pingcap", "-PingCAP"));
    assert!(!str_ends_with("", "x"));
}

#[test]
fn suffix_test_counts_characters_not_bytes() {
    assert!(str_ends_with("用户-PingCAP", "-PingCAP"));
    assert!(str_ends_with("TiDB 用户问答", "用户问答"));
    assert!(!str_ends_with("TiDB 用户问答", "用户"));
    assert!(str_ends_with("é", "é"));
}

#[test]
fn suffix_test_over_a_list() {
    let suffixes = vec!["-PingCAP".to_string(), "- PingCAP".to_string()];
    assert!(ends_with_any(&"jane-PingCAP".to_string(), &suffixes));
    assert!(ends_with_any(&"Jane Doe - PingCAP".to_string(), &suffixes));
    assert!(!ends_with_any(&"jane".to_string(), &suffixes));
    assert!(!ends_with_any(&"jane-PingCAP".to_string(), &vec![]));
}

#[test]
fn exact_match_in_a_list() {
    let list = vec!["jane".to_string(), "you06".to_string()];
    assert!(contains_text(&list, &"jane".to_string()));
    assert!(contains_text(&list, &"you06".to_string()));
    assert!(!contains_text(&list, &"Jane".to_string()));
    assert!(!contains_text(&list, &"jan".to_string()));
    assert!(!contains_text(&list, &"".to_string()));
    assert!(!contains_text(&vec![], &"jane".to_string()));
}
