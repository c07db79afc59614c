use overvakt::text::{contains_char, decimal_string, same_text, signed_decimal_string};

#[test]
fn decimal_string_writes_numbers() {
    assert_eq!(decimal_string(0), "0");
    assert_eq!(decimal_string(7), "7");
    assert_eq!(decimal_string(10), "10");
    assert_eq!(decimal_string(1234567890), "1234567890");
    assert_eq!(decimal_string(u128::MAX), u128::MAX.to_string());
}

#[test]
fn signed_decimal_string_writes_the_sign() {
    assert_eq!(signed_decimal_string(0), "0");
    assert_eq!(signed_decimal_string(-1), "-1");
    assert_eq!(signed_decimal_string(1700000000), "1700000000");
    assert_eq!(signed_decimal_string(i64::MIN), i64::MIN.to_string());
    assert_eq!(signed_decimal_string(i64::MAX), i64::MAX.to_string());
}

#[test]
fn contains_char_finds_a_character() {
    assert!(contains_char("http://a/?x=1", '?'));
    assert!(!contains_char("http://a/", '?'));
    assert!(!contains_char("", '?'));
    assert!(contains_char("h\u{e9}?", '?'));
}

#[test]
fn same_text_compares_characters() {
    assert!(same_text("icmp", "icmp"));
    assert!(!same_text("icmp", "icmpx"));
    assert!(!same_text("", "a"));
    assert!(same_text("", ""));
}

fn texts(items: &[&str]) -> Vec<String> {
    items.iter().map(|item| item.to_string()).collect()
}

#[test]
fn join_puts_the_separator_between_texts() {
    assert_eq!(overvakt::text::join(&texts(&[]), ", "), "");
    assert_eq!(overvakt::text::join(&texts(&["a"]), ", "), "a");
    assert_eq!(overvakt::text::join(&texts(&["a", "b", "c"]), ", "), "a, b, c");
    assert_eq!(overvakt::text::join(&texts(&["", ""]), "\n"), "\n");
    assert_eq!(overvakt::text::join(&texts(&["a", "b"]), ""), "ab");
}

#[test]
fn service_and_node_keeps_the_first_two_parts() {
    assert_eq!(overvakt::text::service_and_node("web:api:http://b:80/x"), "web:api");
    assert_eq!(overvakt::text::service_and_node("web:api:0"), "web:api");
    assert_eq!(overvakt::text::service_and_node("web:api"), "web:api");
    assert_eq!(overvakt::text::service_and_node("web"), "web");
    assert_eq!(overvakt::text::service_and_node(""), "");
    assert_eq!(overvakt::text::service_and_node("::"), ":");
    assert_eq!(overvakt::text::service_and_node(":a:b"), ":a");
    assert_eq!(overvakt::text::service_and_node("w\u{e9}b:n\u{f6}de:r"), "w\u{e9}b:n\u{f6}de");
}

#[test]
fn count_by_node_counts_in_order_of_first_appearance() {
    let paths = texts(&["web:api:a", "db:main:0", "web:api:b", "web:front:a", "db:main:1", "web:api:c"]);
    assert_eq!(
        overvakt::text::count_by_node(&paths),
        vec![("web:api".to_string(), 3), ("db:main".to_string(), 2), ("web:front".to_string(), 1)]
    );
    assert_eq!(overvakt::text::count_by_node(&texts(&[])), vec![]);
}

#[test]
fn parse_unsigned_reads_what_the_standard_parser_reads() {
    let inputs = [
        "",
        "+",
        "0",
        "007",
        "+5",
        "++5",
        "5+",
        "-0",
        "-1",
        "42",
        "987654",
        "18446744073709551615",
        "18446744073709551616",
        "+18446744073709551615",
        "99999999999999999999999999",
        "000000000000000000000000001",
        " 1",
        "1 ",
        "1_000",
        "12a",
        "a12",
        "\u{661}\u{662}",
        "@acme_status",
    ];
    for input in inputs {
        assert_eq!(overvakt::text::parse_unsigned(input), input.parse::<u64>().ok(), "{:?}", input);
    }
    assert_eq!(overvakt::text::parse_unsigned("+18446744073709551615"), Some(u64::MAX));
    assert_eq!(overvakt::text::parse_unsigned("-0"), None);
}
