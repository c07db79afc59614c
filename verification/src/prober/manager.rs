//! The store that the prober and the aggregator share: how it is built from
//! the configuration, which replicas a probing cycle takes from it, how a
//! cycle is split among workers, and how results are written back.

use vstd::prelude::*;

use crate::config::probe::{HttpMethod, Probe, Service, ServiceNode};
use crate::config::regex::Regex;
use crate::ordered::{position_of, OrderedMap};
use crate::prober::mode::Mode;
use crate::prober::probe::{milliseconds_of, pattern_view, span_as_milliseconds};
use crate::prober::replica::{parsed_url, target_of, ReplicaUrl};
use crate::prober::states::{
    ServiceStates, ServiceStatesNotifier, ServiceStatesProbe, ServiceStatesProbeNode,
    ServiceStatesProbeNodeRabbitMQ, ServiceStatesProbeNodeReplica,
    ServiceStatesProbeNodeReplicaMetrics,
};
use crate::prober::status::Status;
use crate::text::{decimal, decimal_string, lemma_decimal_value};

verus! {

/// The state tree, and when the last notification went out.
pub struct Store {
    pub states: ServiceStates,
    pub notified: Option<u128>,
}

impl Store {
    /// The store before anything is configured: healthy, never aggregated,
    /// no service, never notified, and the backoff counter at 1.
    pub fn new() -> (store: Store)
        ensures
            store.states.status == Status::Healthy,
            store.states.date.is_none(),
            store.states.probes.keys() == Seq::<Seq<char>>::empty(),
            store.states.probes.values().len() == 0,
            store.states.notifier == (ServiceStatesNotifier {
                reminder_backoff_counter: 1,
                reminder_ignore_until: None,
            }),
            store.notified.is_none(),
    {
        Store {
            states: ServiceStates {
                status: Status::Healthy,
                date: None,
                probes: OrderedMap::new(),
                notifier: ServiceStatesNotifier {
                    reminder_backoff_counter: 1,
                    reminder_ignore_until: None,
                },
            },
            notified: None,
        }
    }
}

/// The number of replicas that one worker probes: the number of replicas
/// over the number of workers, rounded up.
pub open spec fn spec_chunk_size(total: usize, parallelism: u16) -> int {
    if (total as int) % (parallelism as int) > 0 {
        (total as int) / (parallelism as int) + 1
    } else {
        (total as int) / (parallelism as int)
    }
}

/// Works out how many replicas one worker probes.
pub fn chunk_size(total: usize, parallelism: u16) -> (size: usize)
    requires
        parallelism > 0,
    ensures
        size == spec_chunk_size(total, parallelism),
        size * parallelism >= total,
        total > 0 ==> size > 0 && (size - 1) * parallelism < total,
{
    let workers: usize = parallelism as usize;
    let mut size = total / workers;
    proof {
        let t = total as int;
        let w = workers as int;
        let q = t / w;
        let r = t % w;
        assert(t == w * q + r && 0 <= r < w) by (nonlinear_arith)
            requires
                w > 0,
                q == t / w,
                r == t % w,
        ;
        assert(q * w == w * q && (q + 1) * w == w * q + w && (q - 1) * w == w * q - w)
            by (nonlinear_arith);
        assert(q >= 0) by (nonlinear_arith)
            requires
                t >= 0,
                w > 0,
                q == t / w,
        ;
        assert(w * q >= q) by (nonlinear_arith)
            requires
                w >= 1,
                q >= 0,
        ;
    }
    if total % workers > 0 {
        size = size + 1;
    }
    proof {
        let w = workers as int;
        let q = (total as int) / w;
        if (total as int) % w > 0 {
            assert((size - 1) * parallelism == q * w);
            assert(size * parallelism == (q + 1) * w);
        } else {
            assert(total > 0 ==> q > 0) by (nonlinear_arith)
                requires
                    total == w * q,
                    w > 0,
            ;
            assert((size - 1) * parallelism == (q - 1) * w);
            assert(size * parallelism == q * w);
        }
    }
    size
}

/// The contiguous chunks into which `total` replicas are split for
/// `parallelism` workers, each as the positions of its first replica and of
/// the one after its last.
///
/// The chunks follow each other from 0 to `total`. Each holds
/// `chunk_size` replicas but the last, which holds what is left. There are
/// no more chunks than workers, and none where there is no replica.
pub fn chunk_ranges(total: usize, parallelism: u16) -> (ranges: Vec<(usize, usize)>)
    requires
        parallelism > 0,
    ensures
        ranges@.len() <= parallelism,
        total == 0 ==> ranges@.len() == 0,
        total > 0 ==> ranges@.len() > 0 && ranges@[ranges@.len() - 1].1 == total,
        forall|n: int|
            0 <= n < ranges@.len() ==> {
                &&& (#[trigger] ranges@[n]).0 == n * spec_chunk_size(total, parallelism)
                &&& ranges@[n].0 < ranges@[n].1 <= total
                &&& ranges@[n].1 == if (n + 1) * spec_chunk_size(total, parallelism) < total {
                    (n + 1) * spec_chunk_size(total, parallelism)
                } else {
                    total as int
                }
            },
{
    let size = chunk_size(total, parallelism);
    let mut ranges: Vec<(usize, usize)> = Vec::new();
    let mut start: usize = 0;
    while start < total
        invariant
            parallelism > 0,
            size == spec_chunk_size(total, parallelism),
            size * parallelism >= total,
            total > 0 ==> size > 0,
            start <= total,
            start == total || start == ranges@.len() * size,
            start == total ==> total == 0 || (ranges@.len() > 0 && ranges@[ranges@.len() - 1].1 == total),
            ranges@.len() <= parallelism,
            total == 0 ==> ranges@.len() == 0,
            start < total ==> ranges@.len() < parallelism,
            forall|n: int|
                0 <= n < ranges@.len() ==> {
                    &&& (#[trigger] ranges@[n]).0 == n * size
                    &&& ranges@[n].0 < ranges@[n].1 <= total
                    &&& ranges@[n].1 == if (n + 1) * size < total {
                        (n + 1) * size
                    } else {
                        total as int
                    }
                },
        decreases total - start,
    {
        let ghost count = ranges@.len() as int;
        let end = if total - start > size {
            start + size
        } else {
            total
        };
        assert((count + 1) * size == count * size + size) by (nonlinear_arith);
        ranges.push((start, end));
        proof {
            if end < total {
                assert(count + 1 < parallelism) by (nonlinear_arith)
                    requires
                        (count + 1) * size < total,
                        size * parallelism >= total,
                        size > 0,
                        count >= 0,
                ;
            }
        }
        start = end;
    }
    ranges
}

/// The replica that a probe is about: the identifiers of its service, of
/// its node, and its own.
pub struct ProbeReplicaTarget {
    pub probe_id: String,
    pub node_id: String,
    pub replica_id: String,
}

/// What a poll of a replica needs to know.
pub struct ProbeReplicaPoll {
    pub replica_url: ReplicaUrl,
    pub http_cache_buster: bool,
    pub http_headers: Vec<(String, String)>,
    pub http_method: Option<HttpMethod>,
    pub http_body: Option<String>,
    pub body_match: Option<Regex>,
}

/// What a script probe of a replica needs to know.
pub struct ProbeReplicaScript {
    pub script: String,
}

/// One replica to probe, with what the probe needs, so that the store is
/// not held while the probe runs.
pub enum ProbeReplica {
    Poll(ProbeReplicaTarget, ProbeReplicaPoll),
    Script(ProbeReplicaTarget, ProbeReplicaScript),
}

/// Where the replica with these identifiers stands in the tree: the
/// positions of its service, of its node in the service, and of the replica
/// in the node; nothing where one of the three is not there.
pub open spec fn replica_place(
    states: ServiceStates,
    probe_id: Seq<char>,
    node_id: Seq<char>,
    replica_id: Seq<char>,
) -> Option<(int, int, int)> {
    match position_of(states.probes.keys(), probe_id) {
        Some(i) => match position_of(states.probes.values()[i].nodes.keys(), node_id) {
            Some(j) => match position_of(
                states.probes.values()[i].nodes.values()[j].replicas.keys(),
                replica_id,
            ) {
                Some(k) => Some((i, j, k)),
                None => None,
            },
            None => None,
        },
        None => None,
    }
}

/// A replica after a probe found `status` and `latency`: the status and the
/// latency in milliseconds are overwritten, and nothing else.
pub open spec fn replica_probed(
    replica: ServiceStatesProbeNodeReplica,
    status: Status,
    latency: Option<u128>,
) -> ServiceStatesProbeNodeReplica {
    ServiceStatesProbeNodeReplica {
        status,
        metrics: ServiceStatesProbeNodeReplicaMetrics {
            latency: match latency {
                Some(span) => Some(milliseconds_of(span)),
                None => None,
            },
            ..replica.metrics
        },
        ..replica
    }
}

/// Whether `after` is `before` with nothing changed but the replica at
/// `place`, which a probe found at `status` and `latency`.
pub open spec fn replica_written(
    before: ServiceStates,
    after: ServiceStates,
    place: (int, int, int),
    status: Status,
    latency: Option<u128>,
) -> bool {
    let probe_before = before.probes.values()[place.0];
    let probe_after = after.probes.values()[place.0];
    let node_before = probe_before.nodes.values()[place.1];
    let node_after = probe_after.nodes.values()[place.1];
    &&& after == (ServiceStates { probes: after.probes, ..before })
    &&& after.probes.keys() == before.probes.keys()
    &&& after.probes.values() == before.probes.values().update(place.0, probe_after)
    &&& probe_after == (ServiceStatesProbe { nodes: probe_after.nodes, ..probe_before })
    &&& probe_after.nodes.keys() == probe_before.nodes.keys()
    &&& probe_after.nodes.values() == probe_before.nodes.values().update(place.1, node_after)
    &&& node_after == (ServiceStatesProbeNode { replicas: node_after.replicas, ..node_before })
    &&& node_after.replicas.keys() == node_before.replicas.keys()
    &&& node_after.replicas.values() == node_before.replicas.values().update(
        place.2,
        replica_probed(node_before.replicas.values()[place.2], status, latency),
    )
}

fn find_replica(states: &ServiceStates, target: &ProbeReplicaTarget) -> (place: Option<(usize, usize, usize)>)
    ensures
        match place {
            Some(found) => {
                let probe = states.probes.values()[found.0 as int];
                let node = probe.nodes.values()[found.1 as int];
                &&& replica_place(*states, target.probe_id@, target.node_id@, target.replica_id@) == Some(
                    (found.0 as int, found.1 as int, found.2 as int),
                )
                &&& found.0 < states.probes.values().len()
                &&& found.1 < probe.nodes.values().len()
                &&& found.2 < node.replicas.values().len()
            },
            None => replica_place(*states, target.probe_id@, target.node_id@, target.replica_id@).is_none(),
        },
{
    if let Some(i) = states.probes.index_of(target.probe_id.as_str()) {
        let probe = states.probes.value_at(i);
        if let Some(j) = probe.nodes.index_of(target.node_id.as_str()) {
            let node = probe.nodes.value_at(j);
            if let Some(k) = node.replicas.index_of(target.replica_id.as_str()) {
                return Some((i, j, k));
            }
        }
    }
    None
}

/// Writes the result of a probe back: the replica that `target` names
/// takes the status and the latency, and nothing else changes. Where the
/// tree holds no such replica, nothing changes at all.
pub fn dispatch_replica(
    store: &mut Store,
    target: &ProbeReplicaTarget,
    replica_status: Status,
    replica_latency: Option<u128>,
)
    ensures
        final(store).notified == old(store).notified,
        match replica_place(old(store).states, target.probe_id@, target.node_id@, target.replica_id@) {
            Some(place) => replica_written(
                old(store).states,
                final(store).states,
                place,
                replica_status,
                replica_latency,
            ),
            None => *final(store) == *old(store),
        },
{
    if let Some((i, j, k)) = find_replica(&store.states, target) {
        let probe = store.states.probes.value_at_mut(i);
        let node = probe.nodes.value_at_mut(j);
        let replica = node.replicas.value_at_mut(k);
        replica.status = replica_status;
        replica.metrics.latency = match replica_latency {
            Some(span) => Some(span_as_milliseconds(span)),
            None => None,
        };
    }
}

/// Whether a cycle in `mode` probes this replica of this node: the node is
/// in that mode, and the replica has a URL to poll or a script to run.
pub open spec fn is_probed(mode: Mode, node: ServiceStatesProbeNode, replica: ServiceStatesProbeNodeReplica) -> bool {
    node.mode == mode && match mode {
        Mode::Poll => replica.url.is_some(),
        Mode::Script => replica.script.is_some(),
        _ => false,
    }
}

/// The places of the replicas that a cycle in `mode` probes among the
/// first `upto` replicas of the node at (`i`, `j`).
pub open spec fn node_places(mode: Mode, node: ServiceStatesProbeNode, i: int, j: int, upto: int) -> Seq<
    (int, int, int),
>
    decreases upto,
{
    if upto <= 0 {
        Seq::empty()
    } else {
        let before = node_places(mode, node, i, j, upto - 1);
        if is_probed(mode, node, node.replicas.values()[upto - 1]) {
            before.push((i, j, upto - 1))
        } else {
            before
        }
    }
}

/// The places of the replicas that a cycle in `mode` probes in the first
/// `upto` nodes of the service at `i`.
pub open spec fn probe_places(mode: Mode, probe: ServiceStatesProbe, i: int, upto: int) -> Seq<
    (int, int, int),
>
    decreases upto,
{
    if upto <= 0 {
        Seq::empty()
    } else {
        let node = probe.nodes.values()[upto - 1];
        probe_places(mode, probe, i, upto - 1) + node_places(
            mode,
            node,
            i,
            upto - 1,
            node.replicas.values().len() as int,
        )
    }
}

/// The places of the replicas that a cycle in `mode` probes in the first
/// `upto` services.
pub open spec fn tree_places(mode: Mode, states: ServiceStates, upto: int) -> Seq<(int, int, int)>
    decreases upto,
{
    if upto <= 0 {
        Seq::empty()
    } else {
        let probe = states.probes.values()[upto - 1];
        tree_places(mode, states, upto - 1) + probe_places(
            mode,
            probe,
            upto - 1,
            probe.nodes.values().len() as int,
        )
    }
}

/// The places of all replicas that a cycle in `mode` probes: services,
/// nodes and replicas each in their order.
pub open spec fn probed_places(mode: Mode, states: ServiceStates) -> Seq<(int, int, int)> {
    tree_places(mode, states, states.probes.values().len() as int)
}

/// Whether `item` is the snapshot of the replica at position `k` of a node:
/// it names the replica, and holds a copy of what the probe needs.
pub open spec fn snapshot_matches(
    item: ProbeReplica,
    probe_id: Seq<char>,
    node_id: Seq<char>,
    node: ServiceStatesProbeNode,
    k: int,
) -> bool {
    let replica = node.replicas.values()[k];
    match item {
        ProbeReplica::Poll(target, poll) => {
            &&& node.mode == Mode::Poll
            &&& target.probe_id@ == probe_id
            &&& target.node_id@ == node_id
            &&& target.replica_id@ == node.replicas.keys()[k]
            &&& replica.url == Some(poll.replica_url)
            &&& poll.http_cache_buster == node.http_cache_buster
            &&& poll.http_headers@ == node.http_headers@
            &&& poll.http_method == node.http_method
            &&& poll.http_body == node.http_body
            &&& pattern_view(poll.body_match) == pattern_view(node.http_body_healthy_match)
        },
        ProbeReplica::Script(target, script) => {
            &&& node.mode == Mode::Script
            &&& target.probe_id@ == probe_id
            &&& target.node_id@ == node_id
            &&& target.replica_id@ == node.replicas.keys()[k]
            &&& replica.script == Some(script.script)
        },
    }
}

/// Whether `item` is the snapshot of the replica at `place` in the tree.
pub open spec fn snapshot_of(states: ServiceStates, place: (int, int, int), item: ProbeReplica) -> bool {
    let probe = states.probes.values()[place.0];
    snapshot_matches(
        item,
        states.probes.keys()[place.0],
        probe.nodes.keys()[place.1],
        probe.nodes.values()[place.1],
        place.2,
    )
}

/// Whether `list` holds, in order, the snapshots of the replicas at
/// `places`.
pub open spec fn snapshots_of(states: ServiceStates, places: Seq<(int, int, int)>, list: Seq<ProbeReplica>) -> bool {
    &&& list.len() == places.len()
    &&& forall|n: int| 0 <= n < places.len() ==> snapshot_of(states, places[n], #[trigger] list[n])
}

/// A copy of the headers.
pub fn clone_headers(headers: &Vec<(String, String)>) -> (copy: Vec<(String, String)>)
    ensures
        copy@ == headers@,
{
    let mut copy: Vec<(String, String)> = Vec::new();
    let mut index: usize = 0;
    while index < headers.len()
        invariant
            index <= headers.len(),
            copy@ == headers@.take(index as int),
        decreases headers.len() - index,
    {
        let name = headers[index].0.clone();
        let value = headers[index].1.clone();
        copy.push((name, value));
        assert(copy@ =~= headers@.take(index + 1));
        index = index + 1;
    }
    assert(headers@.take(index as int) =~= headers@);
    copy
}

fn clone_text(text: &Option<String>) -> (copy: Option<String>)
    ensures
        copy == *text,
{
    match text {
        Some(t) => Some(t.clone()),
        None => None,
    }
}

fn clone_pattern(body_match: &Option<Regex>) -> (copy: Option<Regex>)
    ensures
        pattern_view(copy) == pattern_view(*body_match),
{
    match body_match {
        Some(regex) => Some(regex.clone()),
        None => None,
    }
}

fn snapshot_replica(
    mode: Mode,
    probe_id: &String,
    node_id: &String,
    node: &ServiceStatesProbeNode,
    index: usize,
) -> (item: Option<ProbeReplica>)
    requires
        mode == Mode::Poll || mode == Mode::Script,
        node.mode == mode,
        index < node.replicas.values().len(),
        index < node.replicas.keys().len(),
    ensures
        item.is_some() == is_probed(mode, *node, node.replicas.values()[index as int]),
        item matches Some(snapshot) ==> snapshot_matches(snapshot, probe_id@, node_id@, *node, index as int),
{
    let replica = node.replicas.value_at(index);
    let target = ProbeReplicaTarget {
        probe_id: probe_id.clone(),
        node_id: node_id.clone(),
        replica_id: node.replicas.key_at(index).clone(),
    };
    match mode {
        Mode::Poll => match &replica.url {
            Some(replica_url) => Some(
                ProbeReplica::Poll(
                    target,
                    ProbeReplicaPoll {
                        replica_url: replica_url.clone(),
                        http_headers: clone_headers(&node.http_headers),
                        http_method: node.http_method,
                        http_body: clone_text(&node.http_body),
                        http_cache_buster: node.http_cache_buster,
                        body_match: clone_pattern(&node.http_body_healthy_match),
                    },
                ),
            ),
            None => None,
        },
        _ => match &replica.script {
            Some(replica_script) => Some(
                ProbeReplica::Script(target, ProbeReplicaScript { script: replica_script.clone() }),
            ),
            None => None,
        },
    }
}

fn map_node_replicas(
    mode: Mode,
    probe_id: &String,
    node_id: &String,
    node: &ServiceStatesProbeNode,
    i: usize,
    j: usize,
    replica_list: &mut Vec<ProbeReplica>,
    Ghost(states): Ghost<ServiceStates>,
    Ghost(places): Ghost<Seq<(int, int, int)>>,
)
    requires
        mode == Mode::Poll || mode == Mode::Script,
        i < states.probes.values().len(),
        j < states.probes.values()[i as int].nodes.values().len(),
        states.probes.keys()[i as int] == probe_id@,
        states.probes.values()[i as int].nodes.keys()[j as int] == node_id@,
        states.probes.values()[i as int].nodes.values()[j as int] == *node,
        snapshots_of(states, places, old(replica_list)@),
    ensures
        snapshots_of(
            states,
            places + node_places(mode, *node, i as int, j as int, node.replicas.values().len() as int),
            final(replica_list)@,
        ),
{
    if node.mode != mode {
        proof {
            lemma_no_places(mode, *node, i as int, j as int, node.replicas.values().len() as int);
            assert(places + Seq::<(int, int, int)>::empty() =~= places);
        }
        return ;
    }
    let count = node.replicas.len();
    let mut index: usize = 0;
    assert(places + node_places(mode, *node, i as int, j as int, 0) =~= places);
    while index < count
        invariant
            index <= count,
            count == node.replicas.values().len(),
            count == node.replicas.keys().len(),
            mode == Mode::Poll || mode == Mode::Script,
            node.mode == mode,
            i < states.probes.values().len(),
            j < states.probes.values()[i as int].nodes.values().len(),
            states.probes.keys()[i as int] == probe_id@,
            states.probes.values()[i as int].nodes.keys()[j as int] == node_id@,
            states.probes.values()[i as int].nodes.values()[j as int] == *node,
            snapshots_of(
                states,
                places + node_places(mode, *node, i as int, j as int, index as int),
                replica_list@,
            ),
        decreases count - index,
    {
        let ghost before = places + node_places(mode, *node, i as int, j as int, index as int);
        if let Some(item) = snapshot_replica(mode, probe_id, node_id, node, index) {
            replica_list.push(item);
            assert(places + node_places(mode, *node, i as int, j as int, index + 1) =~= before.push(
                (i as int, j as int, index as int),
            ));
        } else {
            assert(places + node_places(mode, *node, i as int, j as int, index + 1) =~= before);
        }
        index = index + 1;
    }
}

/// A node in another mode has no replica that the cycle probes.
proof fn lemma_no_places(mode: Mode, node: ServiceStatesProbeNode, i: int, j: int, upto: int)
    requires
        node.mode != mode,
    ensures
        node_places(mode, node, i, j, upto) == Seq::<(int, int, int)>::empty(),
    decreases upto,
{
    if upto > 0 {
        lemma_no_places(mode, node, i, j, upto - 1);
    }
}

fn map_replicas(states: &ServiceStates, mode: Mode) -> (replica_list: Vec<ProbeReplica>)
    requires
        mode == Mode::Poll || mode == Mode::Script,
    ensures
        snapshots_of(*states, probed_places(mode, *states), replica_list@),
{
    let mut replica_list: Vec<ProbeReplica> = Vec::new();
    let probes = states.probes.len();
    let mut i: usize = 0;
    while i < probes
        invariant
            i <= probes,
            probes == states.probes.values().len(),
            probes == states.probes.keys().len(),
            mode == Mode::Poll || mode == Mode::Script,
            snapshots_of(*states, tree_places(mode, *states, i as int), replica_list@),
        decreases probes - i,
    {
        let probe_id = states.probes.key_at(i);
        let probe = states.probes.value_at(i);
        let nodes = probe.nodes.len();
        let mut j: usize = 0;
        assert(tree_places(mode, *states, i as int) + probe_places(mode, *probe, i as int, 0)
            =~= tree_places(mode, *states, i as int));
        while j < nodes
            invariant
                j <= nodes,
                i < probes,
                probes == states.probes.values().len(),
                probes == states.probes.keys().len(),
                *probe == states.probes.values()[i as int],
                probe_id@ == states.probes.keys()[i as int],
                nodes == probe.nodes.values().len(),
                nodes == probe.nodes.keys().len(),
                mode == Mode::Poll || mode == Mode::Script,
                snapshots_of(
                    *states,
                    tree_places(mode, *states, i as int) + probe_places(mode, *probe, i as int, j as int),
                    replica_list@,
                ),
            decreases nodes - j,
        {
            let node_id = probe.nodes.key_at(j);
            let node = probe.nodes.value_at(j);
            let ghost places = tree_places(mode, *states, i as int) + probe_places(
                mode,
                *probe,
                i as int,
                j as int,
            );
            map_node_replicas(
                mode,
                probe_id,
                node_id,
                node,
                i,
                j,
                &mut replica_list,
                Ghost(*states),
                Ghost(places),
            );
            assert(tree_places(mode, *states, i as int) + probe_places(mode, *probe, i as int, j + 1)
                =~= places + node_places(
                mode,
                *node,
                i as int,
                j as int,
                node.replicas.values().len() as int,
            ));
            j = j + 1;
        }
        i = i + 1;
    }
    replica_list
}

/// The replicas that a poll cycle probes, each with what its probe needs:
/// every replica with a URL of every node in poll mode, in the order of the
/// tree.
pub fn map_poll_replicas(states: &ServiceStates) -> (replica_list: Vec<ProbeReplica>)
    ensures
        snapshots_of(*states, probed_places(Mode::Poll, *states), replica_list@),
{
    map_replicas(states, Mode::Poll)
}

/// The replicas that a script cycle probes, each with its script: every
/// replica with a script of every node in script mode, in the order of the
/// tree.
pub fn map_script_replicas(states: &ServiceStates) -> (replica_list: Vec<ProbeReplica>)
    ensures
        snapshots_of(*states, probed_places(Mode::Script, *states), replica_list@),
{
    map_replicas(states, Mode::Script)
}

/// Why a configuration cannot be turned into a store.
#[derive(Clone, Copy, Debug, PartialEq, Eq, Structural)]
pub enum StoreError {
    /// A node that is not in poll mode has replicas.
    ReplicasOnNonPollNode,
    /// A node that is not in script mode has scripts.
    ScriptsOnNonScriptNode,
    /// A replica's text names no target.
    InvalidReplicaUrl,
    /// A node in poll mode has no replica.
    PollNodeWithoutReplicas,
    /// A node in script mode has no script.
    ScriptNodeWithoutScripts,
}

impl StoreError {
    pub open spec fn spec_message(self) -> Seq<char> {
        match self {
            StoreError::ReplicasOnNonPollNode => "non-poll node cannot have replicas"@,
            StoreError::ScriptsOnNonScriptNode => "non-script node cannot have scripts"@,
            StoreError::InvalidReplicaUrl => "invalid replica url"@,
            StoreError::PollNodeWithoutReplicas => "poll node must have replicas"@,
            StoreError::ScriptNodeWithoutScripts => "script node must have scripts"@,
        }
    }

    /// The error in words.
    pub fn message(&self) -> (text: &'static str)
        ensures
            text@ == self.spec_message(),
    {
        match self {
            StoreError::ReplicasOnNonPollNode => "non-poll node cannot have replicas",
            StoreError::ScriptsOnNonScriptNode => "non-script node cannot have scripts",
            StoreError::InvalidReplicaUrl => "invalid replica url",
            StoreError::PollNodeWithoutReplicas => "poll node must have replicas",
            StoreError::ScriptNodeWithoutScripts => "script node must have scripts",
        }
    }
}

/// Whether one of the first `upto` texts names no target.
pub open spec fn has_invalid_url(urls: Seq<String>, upto: int) -> bool {
    exists|k: int| 0 <= k < upto && k < urls.len() && target_of(parsed_url(#[trigger] urls[k]@)).is_err()
}

/// What is wrong with the configuration of a node, if anything.
///
/// Only a node in poll mode may have replicas, each of which has to name a
/// target, and it needs at least one. Only a node in script mode may have
/// scripts, and it needs at least one.
pub open spec fn node_error(node: ServiceNode) -> Option<StoreError> {
    if node.replicas.is_some() && node.mode != Mode::Poll {
        Some(StoreError::ReplicasOnNonPollNode)
    } else if node.replicas matches Some(urls) && has_invalid_url(urls@, urls@.len() as int) {
        Some(StoreError::InvalidReplicaUrl)
    } else if node.scripts.is_some() && node.mode != Mode::Script {
        Some(StoreError::ScriptsOnNonScriptNode)
    } else if node.mode == Mode::Poll && !(node.replicas matches Some(urls) && urls@.len() > 0) {
        Some(StoreError::PollNodeWithoutReplicas)
    } else if node.mode == Mode::Script && !(node.scripts matches Some(scripts) && scripts@.len() > 0) {
        Some(StoreError::ScriptNodeWithoutScripts)
    } else {
        None
    }
}

/// What is wrong with the first wrong node among the first `upto` nodes of
/// a service.
pub open spec fn service_error(service: Service, upto: int) -> Option<StoreError>
    decreases upto,
{
    if upto <= 0 {
        None
    } else {
        match service_error(service, upto - 1) {
            Some(error) => Some(error),
            None => node_error(service.node.values()[upto - 1]),
        }
    }
}

/// What is wrong with the first wrong node among the first `upto`
/// services.
pub open spec fn probe_error(probe: Probe, upto: int) -> Option<StoreError>
    decreases upto,
{
    if upto <= 0 {
        None
    } else {
        match probe_error(probe, upto - 1) {
            Some(error) => Some(error),
            None => service_error(
                probe.service.values()[upto - 1],
                probe.service.values()[upto - 1].node.values().len() as int,
            ),
        }
    }
}

/// What is wrong with a configuration, if anything: the error of its first
/// wrong node, services and nodes taken in their order.
pub open spec fn config_error(probe: Probe) -> Option<StoreError> {
    probe_error(probe, probe.service.values().len() as int)
}

/// The keys of a map into which the first `upto` texts were inserted one
/// after the other: each text once, where it came first.
pub open spec fn inserted_keys(texts: Seq<String>, upto: int) -> Seq<Seq<char>>
    decreases upto,
{
    if upto <= 0 {
        Seq::empty()
    } else {
        let before = inserted_keys(texts, upto - 1);
        if before.contains(texts[upto - 1]@) {
            before
        } else {
            before.push(texts[upto - 1]@)
        }
    }
}

/// A replica as the store first holds it: healthy, with nothing measured
/// and nothing reported.
pub open spec fn replica_is_fresh(replica: ServiceStatesProbeNodeReplica) -> bool {
    &&& replica.status == Status::Healthy
    &&& replica.metrics == (ServiceStatesProbeNodeReplicaMetrics { latency: None, system: None, rabbitmq: None })
    &&& replica.load.is_none()
    &&& replica.report.is_none()
}

/// Whether `replica` is the fresh replica of a poll node whose text is
/// `key`.
pub open spec fn replica_polls(replica: ServiceStatesProbeNodeReplica, key: Seq<char>) -> bool {
    &&& replica_is_fresh(replica)
    &&& replica.script.is_none()
    &&& replica.url matches Some(url) && target_of(parsed_url(key)) == Ok::<_, ()>(url@)
}

/// Whether `replica` is the fresh replica of a script node that runs
/// `script`.
pub open spec fn replica_runs(replica: ServiceStatesProbeNodeReplica, script: String) -> bool {
    &&& replica_is_fresh(replica)
    &&& replica.url.is_none()
    &&& replica.script == Some(script)
}

/// Whether the replicas are those of a valid configured node: for a poll
/// node one under each of its texts, for a script node one for each script
/// under the script's number, and none for another node.
pub open spec fn replicas_initialized(
    replicas: OrderedMap<ServiceStatesProbeNodeReplica>,
    configured: ServiceNode,
) -> bool {
    match configured.mode {
        Mode::Poll => {
            &&& replicas.keys() == inserted_keys(
                configured.replicas.unwrap()@,
                configured.replicas.unwrap()@.len() as int,
            )
            &&& replicas.values().len() == replicas.keys().len()
            &&& forall|k: int|
                0 <= k < replicas.keys().len() ==> replica_polls(
                    #[trigger] replicas.values()[k],
                    replicas.keys()[k],
                )
        },
        Mode::Script => {
            &&& replicas.keys().len() == configured.scripts.unwrap()@.len()
            &&& replicas.values().len() == replicas.keys().len()
            &&& forall|k: int|
                0 <= k < replicas.keys().len() ==> #[trigger] replicas.keys()[k] == decimal(k as nat)
                    && replica_runs(replicas.values()[k], configured.scripts.unwrap()@[k])
        },
        _ => replicas.keys().len() == 0 && replicas.values().len() == 0,
    }
}

/// Whether `node` is what the store first holds for a valid configured
/// node.
pub open spec fn node_initialized(node: ServiceStatesProbeNode, configured: ServiceNode) -> bool {
    &&& node.status == Status::Healthy
    &&& node.label == configured.label
    &&& node.mode == configured.mode
    &&& node.http_headers@ == configured.http_headers@
    &&& node.http_cache_buster == !configured.http_no_cache_buster
    &&& node.http_method == configured.http_method
    &&& node.http_body == configured.http_body
    &&& pattern_view(node.http_body_healthy_match) == pattern_view(configured.http_body_healthy_match)
    &&& node.rabbitmq == match configured.rabbitmq_queue {
        Some(queue) => Some(
            ServiceStatesProbeNodeRabbitMQ {
                queue,
                queue_nack_healthy_below: configured.rabbitmq_queue_nack_healthy_below,
                queue_nack_dead_above: configured.rabbitmq_queue_nack_dead_above,
            },
        ),
        None => None,
    }
    &&& replicas_initialized(node.replicas, configured)
}

/// Whether `probe` is what the store first holds for a valid configured
/// service with the identifier `id`.
pub open spec fn probe_initialized(probe: ServiceStatesProbe, id: Seq<char>, configured: Service) -> bool {
    &&& probe.id@ == id
    &&& probe.label == configured.label
    &&& probe.status == Status::Healthy
    &&& probe.nodes.keys() == configured.node.keys()
    &&& probe.nodes.values().len() == configured.node.values().len()
    &&& forall|j: int|
        0 <= j < configured.node.values().len() ==> node_initialized(
            #[trigger] probe.nodes.values()[j],
            configured.node.values()[j],
        )
}

/// Whether `store` is the store of a valid configuration before the first
/// probe: every configured service, node and replica is there, in the
/// configured order, and healthy.
pub open spec fn store_initialized(store: Store, configured: Probe) -> bool {
    &&& store.notified.is_none()
    &&& store.states.status == Status::Healthy
    &&& store.states.date.is_none()
    &&& store.states.notifier == (ServiceStatesNotifier {
        reminder_backoff_counter: 1,
        reminder_ignore_until: None,
    })
    &&& store.states.probes.keys() == configured.service.keys()
    &&& store.states.probes.values().len() == configured.service.values().len()
    &&& forall|i: int|
        0 <= i < configured.service.values().len() ==> probe_initialized(
            #[trigger] store.states.probes.values()[i],
            configured.service.keys()[i],
            configured.service.values()[i],
        )
}

fn fresh_replica(url: Option<ReplicaUrl>, script: Option<String>) -> (replica: ServiceStatesProbeNodeReplica)
    ensures
        replica_is_fresh(replica),
        replica.url == url,
        replica.script == script,
{
    ServiceStatesProbeNodeReplica {
        status: Status::Healthy,
        url,
        script,
        metrics: ServiceStatesProbeNodeReplicaMetrics::default(),
        load: None,
        report: None,
    }
}

fn poll_replicas(urls: &Vec<String>) -> (built: Result<OrderedMap<ServiceStatesProbeNodeReplica>, StoreError>)
    ensures
        match built {
            Ok(replicas) => {
                &&& !has_invalid_url(urls@, urls@.len() as int)
                &&& replicas.keys() == inserted_keys(urls@, urls@.len() as int)
                &&& replicas.values().len() == replicas.keys().len()
                &&& forall|k: int|
                    0 <= k < replicas.keys().len() ==> replica_polls(
                        #[trigger] replicas.values()[k],
                        replicas.keys()[k],
                    )
            },
            Err(error) => error == StoreError::InvalidReplicaUrl && has_invalid_url(
                urls@,
                urls@.len() as int,
            ),
        },
{
    let mut replicas: OrderedMap<ServiceStatesProbeNodeReplica> = OrderedMap::new();
    let mut index: usize = 0;
    while index < urls.len()
        invariant
            index <= urls.len(),
            !has_invalid_url(urls@, index as int),
            replicas.keys() == inserted_keys(urls@, index as int),
            replicas.values().len() == replicas.keys().len(),
            forall|k: int|
                0 <= k < replicas.keys().len() ==> replica_polls(
                    #[trigger] replicas.values()[k],
                    replicas.keys()[k],
                ),
        decreases urls.len() - index,
    {
        let replica = &urls[index];
        match ReplicaUrl::parse_from(replica.as_str()) {
            Ok(replica_url) => {
                let ghost keys_before = replicas.keys();
                let entry = fresh_replica(Some(replica_url), None);
                replicas.insert(replica.clone(), entry);
                proof {
                    if keys_before.contains(replica@) {
                        assert(replicas.keys() == keys_before);
                    } else {
                        assert(replicas.keys() == keys_before.push(replica@));
                    }
                }
            },
            Err(_) => {
                return Err(StoreError::InvalidReplicaUrl);
            },
        }
        index = index + 1;
    }
    Ok(replicas)
}

fn script_replicas(scripts: &Vec<String>) -> (replicas: OrderedMap<ServiceStatesProbeNodeReplica>)
    ensures
        replicas.keys().len() == scripts@.len(),
        replicas.values().len() == replicas.keys().len(),
        forall|k: int|
            0 <= k < replicas.keys().len() ==> #[trigger] replicas.keys()[k] == decimal(k as nat)
                && replica_runs(replicas.values()[k], scripts@[k]),
{
    let mut replicas: OrderedMap<ServiceStatesProbeNodeReplica> = OrderedMap::new();
    let mut index: usize = 0;
    while index < scripts.len()
        invariant
            index <= scripts.len(),
            replicas.keys().len() == index,
            replicas.values().len() == index,
            forall|k: int|
                0 <= k < index ==> #[trigger] replicas.keys()[k] == decimal(k as nat) && replica_runs(
                    replicas.values()[k],
                    scripts@[k],
                ),
        decreases scripts.len() - index,
    {
        let key = decimal_string(index as u128);
        proof {
            assert forall|k: int| 0 <= k < index implies replicas.keys()[k] != key@ by {
                lemma_decimal_value(k as nat);
                lemma_decimal_value(index as nat);
            }
        }
        let entry = fresh_replica(None, Some(scripts[index].clone()));
        replicas.insert(key, entry);
        index = index + 1;
    }
    replicas
}

fn initialize_node(node: &ServiceNode) -> (built: Result<ServiceStatesProbeNode, StoreError>)
    ensures
        match built {
            Ok(probe_node) => node_error(*node).is_none() && node_initialized(probe_node, *node),
            Err(error) => node_error(*node) == Some(error),
        },
{
    let mut replicas: OrderedMap<ServiceStatesProbeNodeReplica> = OrderedMap::new();
    if let Some(urls) = &node.replicas {
        if node.mode != Mode::Poll {
            return Err(StoreError::ReplicasOnNonPollNode);
        }
        match poll_replicas(urls) {
            Ok(polled) => {
                replicas = polled;
            },
            Err(error) => {
                return Err(error);
            },
        }
    }
    if let Some(scripts) = &node.scripts {
        if node.mode != Mode::Script {
            return Err(StoreError::ScriptsOnNonScriptNode);
        }
        replicas = script_replicas(scripts);
    }
    let count = replicas.len();
    if node.mode == Mode::Poll && count == 0 {
        proof {
            if node.replicas.is_some() && node.replicas.unwrap()@.len() > 0 {
                let urls = node.replicas.unwrap();
                assert(inserted_keys(urls@, 1).len() > 0);
                lemma_inserted_keys_grow(urls@, 1, urls@.len() as int);
            }
        }
        return Err(StoreError::PollNodeWithoutReplicas);
    }
    if node.mode == Mode::Script && count == 0 {
        return Err(StoreError::ScriptNodeWithoutScripts);
    }
    let rabbitmq = match &node.rabbitmq_queue {
        Some(queue) => Some(
            ServiceStatesProbeNodeRabbitMQ {
                queue: queue.clone(),
                queue_nack_healthy_below: node.rabbitmq_queue_nack_healthy_below,
                queue_nack_dead_above: node.rabbitmq_queue_nack_dead_above,
            },
        ),
        None => None,
    };
    Ok(
        ServiceStatesProbeNode {
            status: Status::Healthy,
            label: node.label.clone(),
            mode: node.mode,
            replicas,
            http_headers: clone_headers(&node.http_headers),
            http_cache_buster: !node.http_no_cache_buster,
            http_method: node.http_method,
            http_body: clone_text(&node.http_body),
            http_body_healthy_match: clone_pattern(&node.http_body_healthy_match),
            rabbitmq,
        },
    )
}

/// Inserting more texts never takes keys away.
proof fn lemma_inserted_keys_grow(texts: Seq<String>, from: int, upto: int)
    requires
        0 <= from <= upto,
    ensures
        inserted_keys(texts, from).len() <= inserted_keys(texts, upto).len(),
    decreases upto - from,
{
    if from < upto {
        lemma_inserted_keys_grow(texts, from, upto - 1);
    }
}

fn initialize_probe(service_id: &String, service: &Service) -> (built: Result<ServiceStatesProbe, StoreError>)
    ensures
        match built {
            Ok(probe) => service_error(*service, service.node.values().len() as int).is_none()
                && probe_initialized(probe, service_id@, *service),
            Err(error) => service_error(*service, service.node.values().len() as int) == Some(error),
        },
{
    let mut nodes: OrderedMap<ServiceStatesProbeNode> = OrderedMap::new();
    let count = service.node.len();
    let mut index: usize = 0;
    while index < count
        invariant
            index <= count,
            count == service.node.values().len(),
            count == service.node.keys().len(),
            service.node.keys().no_duplicates(),
            service_error(*service, index as int).is_none(),
            nodes.keys() == service.node.keys().take(index as int),
            nodes.values().len() == index,
            forall|j: int|
                0 <= j < index ==> node_initialized(#[trigger] nodes.values()[j], service.node.values()[j]),
        decreases count - index,
    {
        let node_id = service.node.key_at(index);
        match initialize_node(service.node.value_at(index)) {
            Ok(probe_node) => {
                proof {
                    assert forall|j: int| 0 <= j < index implies nodes.keys()[j] != node_id@ by {
                        assert(nodes.keys()[j] == service.node.keys()[j]);
                    }
                }
                nodes.insert(node_id.clone(), probe_node);
                assert(nodes.keys() =~= service.node.keys().take(index + 1));
            },
            Err(error) => {
                proof {
                    lemma_service_error_stays(*service, index + 1, count as int);
                }
                return Err(error);
            },
        }
        index = index + 1;
    }
    assert(service.node.keys().take(count as int) =~= service.node.keys());
    Ok(
        ServiceStatesProbe {
            id: service_id.clone(),
            label: service.label.clone(),
            status: Status::Healthy,
            nodes,
        },
    )
}

/// The first error among the nodes of a service is the first error among
/// any longer run of them.
proof fn lemma_service_error_stays(service: Service, from: int, upto: int)
    requires
        0 <= from <= upto,
        service_error(service, from).is_some(),
    ensures
        service_error(service, upto) == service_error(service, from),
    decreases upto - from,
{
    if from < upto {
        lemma_service_error_stays(service, from, upto - 1);
    }
}

/// The first error among the services is the first error among any longer
/// run of them.
proof fn lemma_probe_error_stays(probe: Probe, from: int, upto: int)
    requires
        0 <= from <= upto,
        probe_error(probe, from).is_some(),
    ensures
        probe_error(probe, upto) == probe_error(probe, from),
    decreases upto - from,
{
    if from < upto {
        lemma_probe_error_stays(probe, from, upto - 1);
    }
}

/// Builds the store from the configuration: every service, node and
/// replica, each healthy. A configuration with a wrong node gives the error
/// of the first such node, and no store.
pub fn initialize_store(probe: &Probe) -> (built: Result<Store, StoreError>)
    ensures
        match built {
            Ok(store) => config_error(*probe).is_none() && store_initialized(store, *probe),
            Err(error) => config_error(*probe) == Some(error),
        },
{
    let mut store = Store::new();
    let count = probe.service.len();
    let mut index: usize = 0;
    while index < count
        invariant
            index <= count,
            count == probe.service.values().len(),
            count == probe.service.keys().len(),
            probe.service.keys().no_duplicates(),
            probe_error(*probe, index as int).is_none(),
            store.notified.is_none(),
            store.states.status == Status::Healthy,
            store.states.date.is_none(),
            store.states.notifier == (ServiceStatesNotifier {
                reminder_backoff_counter: 1,
                reminder_ignore_until: None,
            }),
            store.states.probes.keys() == probe.service.keys().take(index as int),
            store.states.probes.values().len() == index,
            forall|i: int|
                0 <= i < index ==> probe_initialized(
                    #[trigger] store.states.probes.values()[i],
                    probe.service.keys()[i],
                    probe.service.values()[i],
                ),
        decreases count - index,
    {
        let service_id = probe.service.key_at(index);
        match initialize_probe(service_id, probe.service.value_at(index)) {
            Ok(built_probe) => {
                proof {
                    assert forall|i: int| 0 <= i < index implies store.states.probes.keys()[i]
                        != service_id@ by {
                        assert(store.states.probes.keys()[i] == probe.service.keys()[i]);
                    }
                }
                store.states.probes.insert(service_id.clone(), built_probe);
                assert(store.states.probes.keys() =~= probe.service.keys().take(index + 1));
            },
            Err(error) => {
                proof {
                    lemma_probe_error_stays(*probe, index + 1, count as int);
                }
                return Err(error);
            },
        }
        index = index + 1;
    }
    assert(probe.service.keys().take(count as int) =~= probe.service.keys());
    Ok(store)
}

} // verus!
