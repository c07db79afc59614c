//! The rules of a single probe: what is asked of a target, and what its
//! answer means.

use vstd::prelude::*;
use vstd::string::StringExecFns;

use crate::config::probe::HttpMethod;
use crate::config::regex::{regex_matches, Regex};
use crate::config::{Branding, Metrics};
use crate::prober::states::NANOSECONDS_PER_SECOND;
use crate::prober::status::Status;
use crate::text::{contains_char, signed_decimal, signed_decimal_string};

verus! {

/// The milliseconds that a worker holds before each poll attempt.
pub const PROBE_HOLD_MILLISECONDS: u64 = 500;

/// The seconds that an ICMP echo is waited for at most.
pub const PROBE_ICMP_TIMEOUT_SECONDS: u64 = 1;

/// The nanoseconds in a millisecond.
pub const NANOSECONDS_PER_MILLISECOND: u128 = 1_000_000;

/// A span in whole milliseconds, as far as 64 bits hold it.
pub open spec fn milliseconds_of(span: u128) -> u64 {
    ((span / NANOSECONDS_PER_MILLISECOND) % 0x1_0000_0000_0000_0000) as u64
}

/// Turns a span into whole milliseconds.
pub fn span_as_milliseconds(span: u128) -> (milliseconds: u64)
    ensures
        milliseconds == milliseconds_of(span),
{
    ((span / NANOSECONDS_PER_MILLISECOND) % 0x1_0000_0000_0000_0000) as u64
}

/// The status of a polled target: dead when unreachable, sick when the
/// latency is `poll_delay_sick` seconds or more, healthy otherwise.
pub open spec fn poll_status(is_up: bool, latency: u128, poll_delay_sick: u64) -> Status {
    if !is_up {
        Status::Dead
    } else if latency >= poll_delay_sick * NANOSECONDS_PER_SECOND {
        Status::Sick
    } else {
        Status::Healthy
    }
}

/// Classifies one poll attempt. `poll_duration` is the latency that the
/// probe measured itself, if it did; `elapsed` is the time that the whole
/// attempt took, which counts where the probe measured nothing.
pub fn proceed_replica_probe_poll(
    is_up: bool,
    poll_duration: Option<u128>,
    elapsed: u128,
    metrics: &Metrics,
) -> (result: (Status, u128))
    ensures
        result.1 == match poll_duration {
            Some(duration) => duration,
            None => elapsed,
        },
        result.0 == poll_status(is_up, result.1, metrics.poll_delay_sick),
{
    let duration_latency = match poll_duration {
        Some(duration) => duration,
        None => elapsed,
    };
    if is_up {
        let threshold: u128 = (metrics.poll_delay_sick as u128) * NANOSECONDS_PER_SECOND;
        if duration_latency >= threshold {
            return (Status::Sick, duration_latency);
        }
        (Status::Healthy, duration_latency)
    } else {
        (Status::Dead, duration_latency)
    }
}

/// The status that the exit of a script stands for: 0 is healthy, 1 is
/// sick, and any other code, or no code at all, is dead.
pub open spec fn script_status(exit_code: Option<i32>) -> Status {
    match exit_code {
        Some(code) => if code == 0 {
            Status::Healthy
        } else if code == 1 {
            Status::Sick
        } else {
            Status::Dead
        },
        None => Status::Dead,
    }
}

/// Classifies one run of a script. `exit_code` is `None` where the script
/// could not be run; `elapsed` is the time the run took, if the clock gave
/// one.
pub fn proceed_replica_probe_script(exit_code: Option<i32>, elapsed: Option<u128>) -> (result: (
    Status,
    Option<u128>,
))
    ensures
        result.0 == script_status(exit_code),
        result.1 == elapsed,
{
    let status = match exit_code {
        Some(code) => {
            if code == 0 {
                Status::Healthy
            } else if code == 1 {
                Status::Sick
            } else {
                Status::Dead
            }
        },
        None => Status::Dead,
    };
    (status, elapsed)
}

/// The seconds that an ICMP echo is waited for: the fixed ICMP timeout, or
/// the dead delay where that is shorter.
pub fn icmp_timeout_seconds(metrics: &Metrics) -> (seconds: u64)
    ensures
        seconds == if metrics.poll_delay_dead < PROBE_ICMP_TIMEOUT_SECONDS {
            metrics.poll_delay_dead
        } else {
            PROBE_ICMP_TIMEOUT_SECONDS
        },
{
    if metrics.poll_delay_dead < PROBE_ICMP_TIMEOUT_SECONDS {
        metrics.poll_delay_dead
    } else {
        PROBE_ICMP_TIMEOUT_SECONDS
    }
}

/// The longest of the round trips among `replies`, if any address replied.
pub open spec fn maximum_rtt(replies: Seq<Option<u128>>) -> Option<u128>
    decreases replies.len(),
{
    if replies.len() == 0 {
        None
    } else {
        longer_rtt(maximum_rtt(replies.drop_last()), replies.last())
    }
}

/// The longer of the longest round trip so far and one more reply.
pub open spec fn longer_rtt(maximum: Option<u128>, reply: Option<u128>) -> Option<u128> {
    match (maximum, reply) {
        (Some(longest), Some(rtt)) => if rtt > longest {
            Some(rtt)
        } else {
            Some(longest)
        },
        (None, Some(rtt)) => Some(rtt),
        (_, None) => maximum,
    }
}

/// What an ICMP probe makes of the replies of the addresses of a host, each
/// `Some` of the round trip or `None` for no reply: the host is reachable
/// when it has an address and every address replied, and the latency is
/// then the longest round trip.
pub open spec fn echo_outcome(replies: Seq<Option<u128>>) -> (bool, Option<u128>) {
    if replies.len() > 0 && forall|i: int| 0 <= i < replies.len() ==> (#[trigger] replies[i]).is_some() {
        (true, maximum_rtt(replies))
    } else {
        (false, None)
    }
}

/// An ICMP probe under way: one echo request after the other.
#[derive(Clone, Copy, Debug, PartialEq, Eq, Structural)]
pub struct EchoProbe {
    /// The addresses still to be pinged.
    pub pending: usize,
    /// The longest round trip among the replies so far.
    pub maximum_rtt: Option<u128>,
    /// Whether the probe has failed: no address, or one that did not reply.
    pub unreachable: bool,
}

impl EchoProbe {
    /// The probe of a host that resolved to `addresses` addresses; `None`
    /// where it did not resolve.
    pub open spec fn spec_start(addresses: Option<usize>) -> EchoProbe {
        match addresses {
            Some(count) => EchoProbe { pending: count, maximum_rtt: None, unreachable: count == 0 },
            None => EchoProbe { pending: 0, maximum_rtt: None, unreachable: true },
        }
    }

    /// The probe after the next address replied, or did not.
    pub open spec fn after(self, reply: Option<u128>) -> EchoProbe {
        if self.unreachable || self.pending == 0 {
            self
        } else {
            match reply {
                Some(rtt) => EchoProbe {
                    pending: (self.pending - 1) as usize,
                    maximum_rtt: longer_rtt(self.maximum_rtt, reply),
                    unreachable: false,
                },
                None => EchoProbe { pending: 0, maximum_rtt: None, unreachable: true },
            }
        }
    }

    /// The probe after a run of replies.
    pub open spec fn after_all(self, replies: Seq<Option<u128>>) -> EchoProbe
        decreases replies.len(),
    {
        if replies.len() == 0 {
            self
        } else {
            self.after_all(replies.drop_last()).after(replies.last())
        }
    }

    /// Whether another address is to be pinged.
    pub open spec fn spec_wants_ping(self) -> bool {
        !self.unreachable && self.pending > 0
    }

    /// What the probe has found: reachable unless it failed, with the
    /// longest round trip.
    pub open spec fn spec_outcome(self) -> (bool, Option<u128>) {
        if self.unreachable {
            (false, None)
        } else {
            (true, self.maximum_rtt)
        }
    }

    /// Starts the probe of a host that resolved to `addresses` addresses, or
    /// did not resolve.
    pub fn start(addresses: Option<usize>) -> (probe: EchoProbe)
        ensures
            probe == EchoProbe::spec_start(addresses),
    {
        match addresses {
            Some(count) => EchoProbe { pending: count, maximum_rtt: None, unreachable: count == 0 },
            None => EchoProbe { pending: 0, maximum_rtt: None, unreachable: true },
        }
    }

    /// Says whether another address is to be pinged.
    pub fn wants_ping(&self) -> (wanted: bool)
        ensures
            wanted == self.spec_wants_ping(),
    {
        !self.unreachable && self.pending > 0
    }

    /// Takes the reply of the next address into account.
    pub fn record(&mut self, reply: Option<u128>)
        ensures
            *final(self) == old(self).after(reply),
    {
        if !self.unreachable && self.pending > 0 {
            match reply {
                Some(rtt) => {
                    self.pending = self.pending - 1;
                    self.maximum_rtt = match self.maximum_rtt {
                        Some(longest) => {
                            if rtt > longest {
                                Some(rtt)
                            } else {
                                Some(longest)
                            }
                        },
                        None => Some(rtt),
                    };
                },
                None => {
                    self.pending = 0;
                    self.maximum_rtt = None;
                    self.unreachable = true;
                },
            }
        }
    }

    /// Says what the probe has found.
    pub fn outcome(&self) -> (result: (bool, Option<u128>))
        ensures
            result == self.spec_outcome(),
    {
        if self.unreachable {
            (false, None)
        } else {
            (true, self.maximum_rtt)
        }
    }
}

/// A probe that took the replies of all addresses of a host has found what
/// `echo_outcome` says; one address without a reply makes the host
/// unreachable, whatever the others did.
pub proof fn lemma_echo_probe_outcome(replies: Seq<Option<u128>>, addresses: usize, upto: nat)
    requires
        upto <= replies.len(),
        addresses == replies.len(),
    ensures
        ({
            let probe = EchoProbe::spec_start(Some(addresses)).after_all(replies.take(upto as int));
            let seen = replies.take(upto as int);
            if replies.len() == 0 {
                probe == EchoProbe::spec_start(Some(0usize))
            } else if forall|i: int| 0 <= i < upto ==> (#[trigger] seen[i]).is_some() {
                probe == (EchoProbe {
                    pending: (replies.len() - upto) as usize,
                    maximum_rtt: maximum_rtt(seen),
                    unreachable: false,
                })
            } else {
                probe == (EchoProbe { pending: 0, maximum_rtt: None, unreachable: true })
            }
        }),
        upto == replies.len() ==> EchoProbe::spec_start(Some(addresses)).after_all(
            replies,
        ).spec_outcome() == echo_outcome(replies),
    decreases upto,
{
    let seen = replies.take(upto as int);
    if upto == 0 {
        assert(seen =~= Seq::<Option<u128>>::empty());
    } else {
        lemma_echo_probe_outcome(replies, addresses, (upto - 1) as nat);
        let earlier = replies.take(upto - 1);
        assert(seen.drop_last() =~= earlier);
        assert(seen.last() == replies[upto - 1]);
        if forall|i: int| 0 <= i < upto - 1 ==> (#[trigger] earlier[i]).is_some() {
            if seen.last().is_some() {
                assert forall|i: int| 0 <= i < upto implies (#[trigger] seen[i]).is_some() by {
                    if i < upto - 1 {
                        assert(earlier[i].is_some());
                    }
                }
            } else {
                assert(!seen[upto - 1].is_some());
            }
        } else {
            let i = choose|i: int| 0 <= i < upto - 1 && !(#[trigger] earlier[i]).is_some();
            assert(!seen[i].is_some());
        }
    }
    if upto == replies.len() {
        assert(seen =~= replies);
    }
}

/// The first `count` of the replies.
pub open spec fn replies_seen(replies: Seq<Option<u128>>, count: usize) -> Seq<Option<u128>> {
    replies.take(count as int)
}

/// Runs an ICMP probe over the replies of all the addresses of a host, in
/// their order.
pub fn proceed_replica_probe_poll_icmp(replies: &Vec<Option<u128>>) -> (result: (bool, Option<u128>))
    ensures
        result == echo_outcome(replies@),
{
    let mut probe = EchoProbe::start(Some(replies.len()));
    let mut index: usize = 0;
    while index < replies.len()
        invariant
            index <= replies.len(),
            probe == EchoProbe::spec_start(Some(replies.len())).after_all(replies_seen(replies@, index)),
        decreases replies.len() - index,
    {
        let ghost seen = replies_seen(replies@, index);
        probe.record(replies[index]);
        index = index + 1;
        proof {
            assert(replies_seen(replies@, index).drop_last() =~= seen);
        }
    }
    proof {
        assert(replies_seen(replies@, index) =~= replies@);
        lemma_echo_probe_outcome(replies@, index, replies@.len());
    }
    probe.outcome()
}

/// The request that an HTTP probe sends.
pub struct HttpProbeRequest {
    pub url: String,
    pub method: HttpMethod,
    /// The body, for the methods that carry one.
    pub body: Option<String>,
}

/// The URL that an HTTP probe asks for: the configured one, and with the
/// cache buster a query parameter that holds the time, set off by `&` where
/// the URL has a query already and by `?` where it has none.
pub open spec fn http_probe_url(url: Seq<char>, http_cache_buster: bool, unix_timestamp: i64) -> Seq<
    char,
> {
    if http_cache_buster {
        url + (if url.contains('?') {
            seq!['&']
        } else {
            seq!['?']
        }) + "_overvakt="@ + signed_decimal(unix_timestamp as int)
    } else {
        url
    }
}

/// The method of an HTTP probe: the configured one, else `Get` where the
/// body of the answer is to be matched, else `Head`.
pub open spec fn effective_http_method(http_method: Option<HttpMethod>, has_body_match: bool) -> HttpMethod {
    match http_method {
        Some(method) => method,
        None => if has_body_match {
            HttpMethod::Get
        } else {
            HttpMethod::Head
        },
    }
}

/// Whether requests of this method carry a body.
pub open spec fn carries_body(method: HttpMethod) -> bool {
    method == HttpMethod::Post || method == HttpMethod::Put || method == HttpMethod::Patch
}

/// Plans the request of an HTTP probe at the time `unix_timestamp`.
pub fn plan_http_probe(
    url: &str,
    http_cache_buster: bool,
    http_method: Option<HttpMethod>,
    http_body: &Option<String>,
    has_body_match: bool,
    unix_timestamp: i64,
) -> (request: HttpProbeRequest)
    ensures
        request.url@ == http_probe_url(url@, http_cache_buster, unix_timestamp),
        request.method == effective_http_method(http_method, has_body_match),
        match request.body {
            Some(body) => carries_body(request.method) && body@ == match *http_body {
                Some(configured) => configured@,
                None => Seq::<char>::empty(),
            },
            None => !carries_body(request.method),
        },
{
    let url_bang = if http_cache_buster {
        proof {
            reveal_strlit("&");
            reveal_strlit("?");
        }
        let query_separator = if contains_char(url, '?') {
            "&"
        } else {
            "?"
        };
        assert(query_separator@ =~= if url@.contains('?') {
            seq!['&']
        } else {
            seq!['?']
        });
        let mut text = url.to_owned();
        text.append(query_separator);
        text.append("_overvakt=");
        text.append(signed_decimal_string(unix_timestamp).as_str());
        text
    } else {
        url.to_owned()
    };
    let method = match http_method {
        Some(method) => method,
        None => if has_body_match {
            HttpMethod::Get
        } else {
            HttpMethod::Head
        },
    };
    let body = match method {
        HttpMethod::Post | HttpMethod::Put | HttpMethod::Patch => match http_body {
            Some(configured) => Some(configured.clone()),
            None => Some(String::new()),
        },
        _ => None,
    };
    HttpProbeRequest { url: url_bang, method, body }
}

/// Whether a status code lies in the healthy range: at or above the lower
/// bound and below the upper one.
pub open spec fn http_status_is_healthy(status_code: u16, metrics: Metrics) -> bool {
    metrics.poll_http_status_healthy_above <= status_code < metrics.poll_http_status_healthy_below
}

/// Whether the answer to an HTTP probe shows the target reachable: an
/// answer came, its status code is healthy, and where a pattern is
/// configured the body could be read and matches it.
pub open spec fn http_outcome(
    status_code: Option<u16>,
    text: Option<Seq<char>>,
    body_match: Option<Seq<char>>,
    metrics: Metrics,
) -> bool {
    match status_code {
        Some(code) => http_status_is_healthy(code, metrics) && match body_match {
            Some(pattern) => text matches Some(body) && regex_matches(pattern, body),
            None => true,
        },
        None => false,
    }
}

/// Whether the body of an answer with this status code has to be read: the
/// code is healthy and a pattern is configured.
pub fn http_needs_body(status_code: u16, has_body_match: bool, metrics: &Metrics) -> (needed: bool)
    ensures
        needed == (http_status_is_healthy(status_code, *metrics) && has_body_match),
{
    status_code >= metrics.poll_http_status_healthy_above && status_code
        < metrics.poll_http_status_healthy_below && has_body_match
}

/// The view of an optional pattern.
pub open spec fn pattern_view(body_match: Option<Regex>) -> Option<Seq<char>> {
    match body_match {
        Some(regex) => Some(regex@),
        None => None,
    }
}

/// The view of an optional text.
pub open spec fn text_view(text: Option<&str>) -> Option<Seq<char>> {
    match text {
        Some(t) => Some(t@),
        None => None,
    }
}

/// Classifies the answer to an HTTP probe. `status_code` is `None` where no
/// answer came; `text` is the body, where it was read. An HTTP probe
/// measures no latency of its own.
pub fn proceed_replica_probe_poll_http(
    status_code: Option<u16>,
    text: Option<&str>,
    body_match: &Option<Regex>,
    metrics: &Metrics,
) -> (result: (bool, Option<u128>))
    ensures
        result.0 == http_outcome(status_code, text_view(text), pattern_view(*body_match), *metrics),
        result.1.is_none(),
{
    if let Some(code) = status_code {
        if code >= metrics.poll_http_status_healthy_above && code < metrics.poll_http_status_healthy_below {
            if let Some(body_match_regex) = body_match {
                if let Some(body) = text {
                    if !body_match_regex.is_match(body) {
                        return (false, None);
                    }
                } else {
                    return (false, None);
                }
            }
            return (true, None);
        }
    }
    (false, None)
}

/// The attempts at one poll target: a first one, and one more for each
/// allowed retry as long as the target is dead.
#[derive(Clone, Copy, Debug, PartialEq, Eq, Structural)]
pub struct PollRetry {
    /// The status after the last attempt; `Dead` before the first.
    pub status: Status,
    /// The latency of the last attempt.
    pub latency: Option<u128>,
    /// Whether the first attempt has been made.
    pub attempted: bool,
    /// The retries still allowed.
    pub retries_left: u64,
}

impl PollRetry {
    pub open spec fn spec_start(poll_retry: u64) -> PollRetry {
        PollRetry { status: Status::Dead, latency: None, attempted: false, retries_left: poll_retry }
    }

    /// Whether one more attempt is to be made: the target is dead as far as
    /// is known, and the first attempt or a retry is left.
    pub open spec fn spec_wants_attempt(self) -> bool {
        self.status == Status::Dead && (!self.attempted || self.retries_left > 0)
    }

    /// The state after an attempt that ended in `result`.
    pub open spec fn after(self, result: (Status, u128)) -> PollRetry {
        if self.spec_wants_attempt() {
            PollRetry {
                status: result.0,
                latency: Some(result.1),
                attempted: true,
                retries_left: if self.attempted {
                    (self.retries_left - 1) as u64
                } else {
                    self.retries_left
                },
            }
        } else {
            self
        }
    }

    /// The state after a run of attempts.
    pub open spec fn after_all(self, results: Seq<(Status, u128)>) -> PollRetry
        decreases results.len(),
    {
        if results.len() == 0 {
            self
        } else {
            self.after_all(results.drop_last()).after(results.last())
        }
    }

    /// The state before the first attempt, with `poll_retry` retries allowed.
    pub fn start(poll_retry: u64) -> (state: PollRetry)
        ensures
            state == PollRetry::spec_start(poll_retry),
    {
        PollRetry { status: Status::Dead, latency: None, attempted: false, retries_left: poll_retry }
    }

    /// The milliseconds to hold before the next attempt, where one is to be
    /// made.
    pub fn next_hold(&self) -> (hold: Option<u64>)
        ensures
            hold == if self.spec_wants_attempt() {
                Some(PROBE_HOLD_MILLISECONDS)
            } else {
                None
            },
    {
        if self.status == Status::Dead && (!self.attempted || self.retries_left > 0) {
            Some(PROBE_HOLD_MILLISECONDS)
        } else {
            None
        }
    }

    /// Takes the result of an attempt into account.
    pub fn record(&mut self, result: (Status, u128))
        ensures
            *final(self) == old(self).after(result),
    {
        if self.status == Status::Dead && (!self.attempted || self.retries_left > 0) {
            if self.attempted {
                self.retries_left = self.retries_left - 1;
            }
            self.status = result.0;
            self.latency = Some(result.1);
            self.attempted = true;
        }
    }

    /// The status and the latency of the last attempt.
    pub fn outcome(&self) -> (result: (Status, Option<u128>))
        ensures
            result == (self.status, self.latency),
    {
        (self.status, self.latency)
    }
}

/// The retry bound: while every attempt finds the target dead, the first
/// attempt and each of the `poll_retry` retries are asked for, and after
/// them no more; the target is then dead.
pub proof fn lemma_retry_bound(poll_retry: u64, results: Seq<(Status, u128)>)
    requires
        forall|i: int| 0 <= i < results.len() ==> (#[trigger] results[i]).0 == Status::Dead,
        results.len() <= poll_retry + 1,
    ensures
        ({
            let state = PollRetry::spec_start(poll_retry).after_all(results);
            &&& state.status == Status::Dead
            &&& state.attempted == (results.len() > 0)
            &&& state.retries_left == if results.len() == 0 {
                poll_retry as int
            } else {
                poll_retry - (results.len() - 1)
            }
            &&& state.spec_wants_attempt() == (results.len() <= poll_retry)
        }),
    decreases results.len(),
{
    if results.len() > 0 {
        let earlier = results.drop_last();
        assert forall|i: int| 0 <= i < earlier.len() implies (#[trigger] earlier[i]).0 == Status::Dead by {
            assert(earlier[i] == results[i]);
        }
        lemma_retry_bound(poll_retry, earlier);
        assert(results.last() == results[results.len() - 1]);
    }
}

/// An attempt that finds the target reachable is the last one.
pub proof fn lemma_retry_stops_when_reachable(state: PollRetry, result: (Status, u128))
    requires
        state.spec_wants_attempt(),
        result.0 != Status::Dead,
    ensures
        !state.after(result).spec_wants_attempt(),
        state.after(result).status == result.0,
        state.after(result).latency == Some(result.1),
{
}

/// Every attempt uses up the first attempt or one of the retries, so the
/// attempts come to an end.
pub proof fn lemma_retry_ends(state: PollRetry, result: (Status, u128))
    requires
        state.spec_wants_attempt(),
    ensures
        state.after(result).attempted,
        state.attempted ==> state.after(result).retries_left == state.retries_left - 1,
        !state.attempted ==> state.after(result).retries_left == state.retries_left,
{
}

/// How the prober names itself to the servers it polls.
pub open spec fn spec_user_agent(branding: Branding) -> Seq<char> {
    "vigil (+"@ + branding.page_url@ + ")"@
}

/// Writes the name by which the prober calls itself.
pub fn user_agent(branding: &Branding) -> (text: String)
    ensures
        text@ == spec_user_agent(*branding),
{
    let mut text = "vigil (+".to_owned();
    text.append(branding.page_url.as_str());
    text.append(")");
    text
}

} // verus!
