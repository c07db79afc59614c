use overvakt::config::notify::ReminderBackoffFunction;
use overvakt::config::plugins::{PluginIcmp, Plugins};
use overvakt::config::regex::Regex;
use overvakt::prober::states::{LoadIndex, SocketType};

#[test]
fn regex_new_takes_patterns_that_compile() {
    assert!(Regex::new("^ok$").is_some());
    assert!(Regex::new("foo(bar").is_none());
    assert_eq!(Regex::new("a+b").unwrap().as_str(), "a+b");
}

#[test]
fn regex_is_match_searches_the_haystack() {
    let regex = Regex::new("status: (up|ok)").unwrap();
    assert!(regex.is_match("the status: ok today"));
    assert!(!regex.is_match("the status: down today"));
    assert!(!regex.is_match("status: (up|ok)x"));
}

#[test]
fn regex_clone_keeps_the_pattern() {
    let regex = Regex::new("^a.c$").unwrap();
    let copy = regex.clone();
    assert_eq!(copy.as_str(), "^a.c$");
    assert!(copy.is_match("abc"));
    assert!(!copy.is_match("abcd"));
}

#[test]
fn backoff_exponents() {
    assert_eq!(ReminderBackoffFunction::Disabled.exponent(), 0);
    assert_eq!(ReminderBackoffFunction::Linear.exponent(), 1);
    assert_eq!(ReminderBackoffFunction::Square.exponent(), 2);
    assert_eq!(ReminderBackoffFunction::Cubic.exponent(), 3);
    assert_eq!(ReminderBackoffFunction::default(), ReminderBackoffFunction::Disabled);
}

#[test]
fn socket_type_defaults_to_raw() {
    assert_eq!(SocketType::default(), SocketType::Raw);
    let plugins = Plugins::default();
    assert_eq!(plugins.icmp_socket_type(), SocketType::Raw);
    let plugins = Plugins { rabbitmq: None, icmp: Some(PluginIcmp { socket_type: SocketType::Dgram }) };
    assert_eq!(plugins.icmp_socket_type(), SocketType::Dgram);
}

fn load(value: f32) -> LoadIndex {
    LoadIndex { bits: value.to_bits() }
}

#[test]
fn load_index_compares_as_the_numbers_do() {
    let values: Vec<f32> = vec![
        0.0,
        -0.0,
        0.5,
        0.9,
        0.90000004,
        0.95,
        1.0,
        2.5,
        -0.5,
        -1.0,
        -2.5,
        f32::MIN_POSITIVE,
        -f32::MIN_POSITIVE,
        1.0e-45,
        f32::MAX,
        f32::MIN,
        f32::INFINITY,
        f32::NEG_INFINITY,
        f32::NAN,
        -f32::NAN,
    ];
    for a in values.iter() {
        for b in values.iter() {
            assert_eq!(load(*a).is_above(&load(*b)), *a > *b, "{} > {}", a, b);
        }
    }
}

#[test]
fn load_index_threshold_example() {
    assert!(load(0.95).is_above(&load(0.9)));
    assert!(!load(0.9).is_above(&load(0.9)));
    assert!(!load(0.1).is_above(&load(0.9)));
}
