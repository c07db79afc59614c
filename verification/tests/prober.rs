use overvakt::config::probe::HttpMethod;
use overvakt::config::regex::Regex;
use overvakt::config::Metrics;
use overvakt::prober::manager::{chunk_ranges, chunk_size};
use overvakt::prober::probe::{
    http_needs_body, icmp_timeout_seconds, plan_http_probe, proceed_replica_probe_poll,
    proceed_replica_probe_poll_http, proceed_replica_probe_poll_icmp, proceed_replica_probe_script,
    span_as_milliseconds, EchoProbe, PollRetry, PROBE_HOLD_MILLISECONDS,
};
use overvakt::prober::states::LoadIndex;
use overvakt::prober::status::Status;

const SECOND: u128 = 1_000_000_000;
const MILLISECOND: u128 = 1_000_000;

fn metrics() -> Metrics {
    Metrics {
        poll_interval: 120,
        poll_retry: 2,
        poll_http_status_healthy_above: 200,
        poll_http_status_healthy_below: 400,
        poll_delay_dead: 10,
        poll_delay_sick: 5,
        poll_parallelism: 4,
        push_delay_dead: 20,
        push_system_cpu_sick_above: LoadIndex { bits: 0.9f32.to_bits() },
        push_system_ram_sick_above: LoadIndex { bits: 0.9f32.to_bits() },
        script_interval: 300,
        script_parallelism: 2,
        local_delay_dead: 40,
    }
}

#[test]
fn span_as_milliseconds_rounds_down() {
    assert_eq!(span_as_milliseconds(0), 0);
    assert_eq!(span_as_milliseconds(999_999), 0);
    assert_eq!(span_as_milliseconds(1_000_000), 1);
    assert_eq!(span_as_milliseconds(1_500 * MILLISECOND + 7), 1_500);
    assert_eq!(span_as_milliseconds((u64::MAX as u128) * MILLISECOND), u64::MAX);
    assert_eq!(span_as_milliseconds((u64::MAX as u128 + 1) * MILLISECOND), 0);
}

#[test]
fn poll_classifies_by_reachability_and_latency() {
    let m = metrics();
    assert_eq!(proceed_replica_probe_poll(true, None, 10 * MILLISECOND, &m), (Status::Healthy, 10 * MILLISECOND));
    assert_eq!(proceed_replica_probe_poll(true, None, 5 * SECOND - 1, &m), (Status::Healthy, 5 * SECOND - 1));
    assert_eq!(proceed_replica_probe_poll(true, None, 5 * SECOND, &m), (Status::Sick, 5 * SECOND));
    assert_eq!(proceed_replica_probe_poll(false, None, 10 * MILLISECOND, &m), (Status::Dead, 10 * MILLISECOND));
    assert_eq!(proceed_replica_probe_poll(false, None, 9 * SECOND, &m), (Status::Dead, 9 * SECOND));
}

#[test]
fn poll_prefers_the_latency_that_the_probe_measured() {
    let m = metrics();
    assert_eq!(
        proceed_replica_probe_poll(true, Some(3 * MILLISECOND), 7 * SECOND, &m),
        (Status::Healthy, 3 * MILLISECOND)
    );
    assert_eq!(
        proceed_replica_probe_poll(true, Some(6 * SECOND), 1 * MILLISECOND, &m),
        (Status::Sick, 6 * SECOND)
    );
}

#[test]
fn script_exit_codes() {
    assert_eq!(proceed_replica_probe_script(Some(0), Some(5)), (Status::Healthy, Some(5)));
    assert_eq!(proceed_replica_probe_script(Some(1), Some(6)), (Status::Sick, Some(6)));
    assert_eq!(proceed_replica_probe_script(Some(2), None), (Status::Dead, None));
    assert_eq!(proceed_replica_probe_script(Some(-1), Some(1)), (Status::Dead, Some(1)));
    assert_eq!(proceed_replica_probe_script(Some(255), Some(1)), (Status::Dead, Some(1)));
    assert_eq!(proceed_replica_probe_script(None, Some(9)), (Status::Dead, Some(9)));
}

#[test]
fn icmp_timeout_is_the_shorter_of_one_second_and_the_dead_delay() {
    let mut m = metrics();
    assert_eq!(icmp_timeout_seconds(&m), 1);
    m.poll_delay_dead = 0;
    assert_eq!(icmp_timeout_seconds(&m), 0);
    m.poll_delay_dead = 1;
    assert_eq!(icmp_timeout_seconds(&m), 1);
}

#[test]
fn icmp_one_unreachable_address_makes_the_host_unreachable() {
    assert_eq!(proceed_replica_probe_poll_icmp(&vec![Some(3), None]), (false, None));
    assert_eq!(proceed_replica_probe_poll_icmp(&vec![None, Some(3)]), (false, None));
    assert_eq!(proceed_replica_probe_poll_icmp(&vec![None, None]), (false, None));
    assert_eq!(proceed_replica_probe_poll_icmp(&vec![Some(1), Some(2), None, Some(9)]), (false, None));
}

#[test]
fn icmp_latency_is_the_longest_round_trip() {
    assert_eq!(proceed_replica_probe_poll_icmp(&vec![Some(3), Some(8), Some(5)]), (true, Some(8)));
    assert_eq!(proceed_replica_probe_poll_icmp(&vec![Some(0)]), (true, Some(0)));
    assert_eq!(proceed_replica_probe_poll_icmp(&vec![Some(8), Some(8)]), (true, Some(8)));
}

#[test]
fn icmp_without_an_address_is_unreachable() {
    assert_eq!(proceed_replica_probe_poll_icmp(&vec![]), (false, None));
    assert_eq!(EchoProbe::start(None).outcome(), (false, None));
    assert!(!EchoProbe::start(None).wants_ping());
    assert!(!EchoProbe::start(Some(0)).wants_ping());
}

#[test]
fn echo_probe_stops_at_the_first_address_without_reply() {
    let mut probe = EchoProbe::start(Some(3));
    assert!(probe.wants_ping());
    probe.record(Some(4));
    assert!(probe.wants_ping());
    assert_eq!(probe.outcome(), (true, Some(4)));
    probe.record(None);
    assert!(!probe.wants_ping());
    assert_eq!(probe.outcome(), (false, None));
    probe.record(Some(1));
    assert_eq!(probe.outcome(), (false, None));
}

#[test]
fn echo_probe_is_done_after_all_addresses() {
    let mut probe = EchoProbe::start(Some(2));
    probe.record(Some(9));
    probe.record(Some(2));
    assert!(!probe.wants_ping());
    assert_eq!(probe.outcome(), (true, Some(9)));
    probe.record(Some(100));
    assert_eq!(probe.outcome(), (true, Some(9)));
}

#[test]
fn http_probe_url_gets_a_cache_buster() {
    let request = plan_http_probe("http://a/", true, None, &None, false, 1700000000);
    assert_eq!(request.url, "http://a/?_overvakt=1700000000");
    let request = plan_http_probe("http://a/?x=1", true, None, &None, false, 42);
    assert_eq!(request.url, "http://a/?x=1&_overvakt=42");
    let request = plan_http_probe("http://a/", true, None, &None, false, -5);
    assert_eq!(request.url, "http://a/?_overvakt=-5");
    let request = plan_http_probe("http://a/?x=1", false, None, &None, false, 42);
    assert_eq!(request.url, "http://a/?x=1");
}

#[test]
fn http_probe_method_defaults_to_head_or_get() {
    let body = Some("ping".to_string());
    assert_eq!(plan_http_probe("http://a/", false, None, &body, false, 0).method, HttpMethod::Head);
    assert_eq!(plan_http_probe("http://a/", false, None, &body, true, 0).method, HttpMethod::Get);
    assert_eq!(
        plan_http_probe("http://a/", false, Some(HttpMethod::Post), &body, true, 0).method,
        HttpMethod::Post
    );
    assert_eq!(
        plan_http_probe("http://a/", false, Some(HttpMethod::Head), &body, true, 0).method,
        HttpMethod::Head
    );
}

#[test]
fn http_probe_body_goes_with_post_put_and_patch_only() {
    let body = Some("ping".to_string());
    for method in [HttpMethod::Post, HttpMethod::Put, HttpMethod::Patch] {
        assert_eq!(plan_http_probe("http://a/", false, Some(method), &body, false, 0).body, body);
        assert_eq!(
            plan_http_probe("http://a/", false, Some(method), &None, false, 0).body,
            Some(String::new())
        );
    }
    for method in [HttpMethod::Head, HttpMethod::Get] {
        assert_eq!(plan_http_probe("http://a/", false, Some(method), &body, false, 0).body, None);
    }
    assert_eq!(plan_http_probe("http://a/", false, None, &body, true, 0).body, None);
}

#[test]
fn http_status_range_is_inclusive_below_and_exclusive_above() {
    let m = metrics();
    let up = |code: u16| proceed_replica_probe_poll_http(Some(code), None, &None, &m);
    assert_eq!(up(199), (false, None));
    assert_eq!(up(200), (true, None));
    assert_eq!(up(302), (true, None));
    assert_eq!(up(399), (true, None));
    assert_eq!(up(400), (false, None));
    assert_eq!(up(500), (false, None));
    assert_eq!(proceed_replica_probe_poll_http(None, None, &None, &m), (false, None));
    assert_eq!(proceed_replica_probe_poll_http(None, Some("ok"), &None, &m), (false, None));
}

#[test]
fn http_body_has_to_match_where_a_pattern_is_configured() {
    let m = metrics();
    let pattern = Some(Regex::new("^ok$").unwrap());
    assert_eq!(proceed_replica_probe_poll_http(Some(200), Some("ok"), &pattern, &m), (true, None));
    assert_eq!(proceed_replica_probe_poll_http(Some(200), Some("not ok"), &pattern, &m), (false, None));
    assert_eq!(proceed_replica_probe_poll_http(Some(200), None, &pattern, &m), (false, None));
    assert_eq!(proceed_replica_probe_poll_http(Some(404), Some("ok"), &pattern, &m), (false, None));
    assert_eq!(proceed_replica_probe_poll_http(Some(200), Some("not ok"), &None, &m), (true, None));
}

#[test]
fn http_body_is_read_only_where_it_decides() {
    let m = metrics();
    assert!(http_needs_body(200, true, &m));
    assert!(http_needs_body(399, true, &m));
    assert!(!http_needs_body(200, false, &m));
    assert!(!http_needs_body(404, true, &m));
    assert!(!http_needs_body(199, true, &m));
}

#[test]
fn retry_makes_three_attempts_at_a_dead_target_with_two_retries() {
    let mut state = PollRetry::start(2);
    let mut attempts = 0;
    let mut held = 0;
    while let Some(hold) = state.next_hold() {
        assert_eq!(hold, 500);
        held += hold;
        attempts += 1;
        state.record((Status::Dead, (attempts as u128) * MILLISECOND));
        assert!(attempts < 100);
    }
    assert_eq!(attempts, 3);
    assert_eq!(held, 3 * PROBE_HOLD_MILLISECONDS);
    assert_eq!(state.outcome(), (Status::Dead, Some(3 * MILLISECOND)));
}

#[test]
fn retry_stops_at_the_first_reachable_result() {
    let mut state = PollRetry::start(5);
    assert_eq!(state.next_hold(), Some(500));
    state.record((Status::Dead, 1));
    assert_eq!(state.next_hold(), Some(500));
    state.record((Status::Sick, 2));
    assert_eq!(state.next_hold(), None);
    assert_eq!(state.outcome(), (Status::Sick, Some(2)));
    state.record((Status::Dead, 3));
    assert_eq!(state.outcome(), (Status::Sick, Some(2)));

    let mut state = PollRetry::start(5);
    state.record((Status::Healthy, 7));
    assert_eq!(state.next_hold(), None);
    assert_eq!(state.outcome(), (Status::Healthy, Some(7)));
}

#[test]
fn retry_without_retries_makes_one_attempt() {
    let mut state = PollRetry::start(0);
    assert_eq!(state.outcome(), (Status::Dead, None));
    assert_eq!(state.next_hold(), Some(500));
    state.record((Status::Dead, 1));
    assert_eq!(state.next_hold(), None);
    assert_eq!(state.outcome(), (Status::Dead, Some(1)));
}

#[test]
fn retry_with_the_largest_retry_count_does_not_overflow() {
    let mut state = PollRetry::start(u64::MAX);
    for _ in 0..10 {
        assert_eq!(state.next_hold(), Some(500));
        state.record((Status::Dead, 1));
    }
    assert_eq!(state.retries_left, u64::MAX - 9);
}

#[test]
fn chunk_size_is_the_rounded_up_share() {
    assert_eq!(chunk_size(0, 4), 0);
    assert_eq!(chunk_size(1, 4), 1);
    assert_eq!(chunk_size(4, 4), 1);
    assert_eq!(chunk_size(5, 4), 2);
    assert_eq!(chunk_size(8, 4), 2);
    assert_eq!(chunk_size(9, 4), 3);
    assert_eq!(chunk_size(10, 1), 10);
    assert_eq!(chunk_size(usize::MAX, 1), usize::MAX);
    assert_eq!(chunk_size(usize::MAX, 2), usize::MAX / 2 + 1);
}

#[test]
fn chunk_ranges_are_contiguous_and_cover_all() {
    assert_eq!(chunk_ranges(0, 4), vec![]);
    assert_eq!(chunk_ranges(1, 4), vec![(0, 1)]);
    assert_eq!(chunk_ranges(4, 4), vec![(0, 1), (1, 2), (2, 3), (3, 4)]);
    assert_eq!(chunk_ranges(5, 4), vec![(0, 2), (2, 4), (4, 5)]);
    assert_eq!(chunk_ranges(9, 4), vec![(0, 3), (3, 6), (6, 9)]);
    assert_eq!(chunk_ranges(10, 4), vec![(0, 3), (3, 6), (6, 9), (9, 10)]);
    assert_eq!(chunk_ranges(7, 1), vec![(0, 7)]);
    assert_eq!(chunk_ranges(3, 100), vec![(0, 1), (1, 2), (2, 3)]);
}

#[test]
fn chunk_ranges_match_slice_chunks() {
    for total in 0..40usize {
        for parallelism in 1..12u16 {
            let items: Vec<usize> = (0..total).collect();
            let size = chunk_size(total, parallelism);
            let ranges = chunk_ranges(total, parallelism);
            assert!(ranges.len() <= parallelism as usize);
            if size == 0 {
                assert!(ranges.is_empty());
            } else {
                let expected: Vec<Vec<usize>> = items.chunks(size).map(|chunk| chunk.to_vec()).collect();
                let got: Vec<Vec<usize>> =
                    ranges.iter().map(|range| items[range.0..range.1].to_vec()).collect();
                assert_eq!(got, expected);
            }
        }
    }
}
