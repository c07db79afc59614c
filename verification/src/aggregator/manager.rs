//! One pass of the aggregator: every replica's status is resolved, the
//! statuses roll up to nodes, services and the global status, and the pass
//! decides whether a notification is due.

use vstd::prelude::*;
use vstd::string::StringExecFns;

use crate::config::notify::{Notify, ReminderBackoffFunction};
use crate::config::Metrics;
use crate::prober::manager::Store;
use crate::prober::mode::Mode;
use crate::prober::states::{
    ServiceStates, ServiceStatesNotifier, ServiceStatesProbe, ServiceStatesProbeNode,
    ServiceStatesProbeNodeReplica, ServiceStatesProbeNodeReplicaReport, NANOSECONDS_PER_SECOND,
};
use crate::prober::status::{worst_of, Status};

verus! {

/// The seconds between two passes.
pub const AGGREGATE_INTERVAL_SECONDS: u64 = 10;

/// What a pass hands to the notifiers.
#[derive(Debug)]
pub struct BumpedStates {
    /// The global status.
    pub status: Status,
    /// The paths of the replicas that the pass found dead.
    pub replicas: Vec<String>,
    /// Whether the global status differs from that of the pass before.
    pub changed: bool,
    /// Whether this is the notification sent when the aggregator starts.
    pub startup: bool,
}

/// What a child's status does to its parent's: `Some` of the parent's new
/// status where the child is more severe than what has been seen, `None`
/// where the parent stays as it is.
pub open spec fn child_bump(parent: Status, child: Status) -> Option<Status> {
    if child == Status::Dead {
        Some(Status::Dead)
    } else if child == Status::Sick && parent != Status::Dead {
        Some(Status::Sick)
    } else {
        None
    }
}

/// Says what a child's status does to its parent's.
pub fn check_child_status(parent_status: &Status, child_status: &Status) -> (bump: Option<Status>)
    ensures
        bump == child_bump(*parent_status, *child_status),
        parent_status.merged_with(*child_status) == match bump {
            Some(worst) => worst,
            None => *parent_status,
        },
{
    if *child_status == Status::Dead {
        Some(Status::Dead)
    } else if *child_status == Status::Sick && *parent_status != Status::Dead {
        Some(Status::Sick)
    } else {
        None
    }
}

/// Whether a replica has kept silent for too long at `now`: it has reported
/// before, not in the future, and since then at least its declared interval
/// and `dead_delay` seconds have passed.
pub open spec fn is_silent(
    report: Option<ServiceStatesProbeNodeReplicaReport>,
    dead_delay: u64,
    now: u128,
) -> bool {
    report matches Some(r) && now >= r.time && now - r.time >= r.interval + dead_delay
        * NANOSECONDS_PER_SECOND
}

/// The status of a replica as the aggregator sees it at `now`.
///
/// A polled or scripted replica has the status that the prober wrote. A
/// pushing replica is dead when silent, else sick when its processor or
/// memory load is above the threshold, else dead when its queue is stalled,
/// else sick when its queue is loaded, else healthy. A local replica is dead
/// when silent, and else has the status it reported.
pub open spec fn resolved_status(
    mode: Mode,
    replica: ServiceStatesProbeNodeReplica,
    metrics: Metrics,
    now: u128,
) -> Status {
    match mode {
        Mode::Push => {
            if is_silent(replica.report, metrics.push_delay_dead, now) {
                Status::Dead
            } else {
                match replica.load {
                    Some(load) => {
                        if load.cpu.exceeds(metrics.push_system_cpu_sick_above) || load.ram.exceeds(
                            metrics.push_system_ram_sick_above,
                        ) {
                            Status::Sick
                        } else if load.queue.stalled {
                            Status::Dead
                        } else if load.queue.loaded {
                            Status::Sick
                        } else {
                            Status::Healthy
                        }
                    },
                    None => Status::Healthy,
                }
            }
        },
        Mode::Local => {
            if is_silent(replica.report, metrics.local_delay_dead, now) {
                Status::Dead
            } else {
                replica.status
            }
        },
        _ => replica.status,
    }
}

fn reported_too_long_ago(
    report: &Option<ServiceStatesProbeNodeReplicaReport>,
    dead_delay: u64,
    now: u128,
) -> (silent: bool)
    ensures
        silent == is_silent(*report, dead_delay, now),
{
    match report {
        Some(r) => {
            if now >= r.time {
                let delay: u128 = (dead_delay as u128) * NANOSECONDS_PER_SECOND;
                match r.interval.checked_add(delay) {
                    Some(deadline) => now - r.time >= deadline,
                    None => false,
                }
            } else {
                false
            }
        },
        None => false,
    }
}

/// Resolves the status of one replica of a node in `mode`.
pub fn resolve_status(
    mode: Mode,
    replica: &ServiceStatesProbeNodeReplica,
    metrics: &Metrics,
    now: u128,
) -> (status: Status)
    ensures
        status == resolved_status(mode, *replica, *metrics, now),
{
    match mode {
        Mode::Push => {
            let mut replica_status = Status::Healthy;
            if reported_too_long_ago(&replica.report, metrics.push_delay_dead, now) {
                replica_status = Status::Dead;
            }
            if replica_status == Status::Healthy {
                if let Some(replica_load) = &replica.load {
                    if replica_load.cpu.is_above(&metrics.push_system_cpu_sick_above)
                        || replica_load.ram.is_above(&metrics.push_system_ram_sick_above) {
                        replica_status = Status::Sick;
                    }
                }
            }
            if replica_status == Status::Healthy {
                if let Some(replica_load) = &replica.load {
                    if replica_load.queue.stalled {
                        replica_status = Status::Dead;
                    } else if replica_load.queue.loaded {
                        replica_status = Status::Sick;
                    }
                }
            }
            replica_status
        },
        Mode::Local => {
            if reported_too_long_ago(&replica.report, metrics.local_delay_dead, now) {
                Status::Dead
            } else {
                replica.status
            }
        },
        _ => replica.status,
    }
}

/// The path that names a replica in a notification.
pub open spec fn replica_path(probe_id: Seq<char>, node_id: Seq<char>, replica_id: Seq<char>) -> Seq<
    char,
> {
    probe_id + seq![':'] + node_id + seq![':'] + replica_id
}

/// Writes the path of a replica.
pub fn make_replica_path(probe_id: &str, node_id: &str, replica_id: &str) -> (path: String)
    ensures
        path@ == replica_path(probe_id@, node_id@, replica_id@),
{
    proof {
        reveal_strlit(":");
    }
    assert(":"@ =~= seq![':']);
    let mut path = probe_id.to_owned();
    path.append(":");
    path.append(node_id);
    path.append(":");
    path.append(replica_id);
    path
}

/// The resolved statuses of the replicas of a node, in their order.
pub open spec fn resolved_statuses(node: ServiceStatesProbeNode, metrics: Metrics, now: u128) -> Seq<
    Status,
> {
    node.replicas.values().map_values(
        |replica: ServiceStatesProbeNodeReplica| resolved_status(node.mode, replica, metrics, now),
    )
}

/// The statuses of the nodes of a service, in their order.
pub open spec fn node_statuses(probe: ServiceStatesProbe) -> Seq<Status> {
    probe.nodes.values().map_values(|node: ServiceStatesProbeNode| node.status)
}

/// The statuses of the services, in their order.
pub open spec fn probe_statuses(states: ServiceStates) -> Seq<Status> {
    states.probes.values().map_values(|probe: ServiceStatesProbe| probe.status)
}

/// The paths of the dead among the first `upto` replicas of a node.
pub open spec fn node_dead_paths(
    probe_id: Seq<char>,
    node_id: Seq<char>,
    node: ServiceStatesProbeNode,
    metrics: Metrics,
    now: u128,
    upto: int,
) -> Seq<Seq<char>>
    decreases upto,
{
    if upto <= 0 {
        Seq::empty()
    } else {
        let before = node_dead_paths(probe_id, node_id, node, metrics, now, upto - 1);
        if resolved_status(node.mode, node.replicas.values()[upto - 1], metrics, now) == Status::Dead {
            before.push(replica_path(probe_id, node_id, node.replicas.keys()[upto - 1]))
        } else {
            before
        }
    }
}

/// The paths of the dead replicas of the first `upto` nodes of a service.
pub open spec fn probe_dead_paths(
    probe_id: Seq<char>,
    probe: ServiceStatesProbe,
    metrics: Metrics,
    now: u128,
    upto: int,
) -> Seq<Seq<char>>
    decreases upto,
{
    if upto <= 0 {
        Seq::empty()
    } else {
        let node = probe.nodes.values()[upto - 1];
        probe_dead_paths(probe_id, probe, metrics, now, upto - 1) + node_dead_paths(
            probe_id,
            probe.nodes.keys()[upto - 1],
            node,
            metrics,
            now,
            node.replicas.values().len() as int,
        )
    }
}

/// The paths of the dead replicas of the first `upto` services.
pub open spec fn tree_dead_paths(states: ServiceStates, metrics: Metrics, now: u128, upto: int) -> Seq<
    Seq<char>,
>
    decreases upto,
{
    if upto <= 0 {
        Seq::empty()
    } else {
        let probe = states.probes.values()[upto - 1];
        tree_dead_paths(states, metrics, now, upto - 1) + probe_dead_paths(
            states.probes.keys()[upto - 1],
            probe,
            metrics,
            now,
            probe.nodes.values().len() as int,
        )
    }
}

/// The path of every replica whose resolved status at `now` is dead:
/// services, nodes and replicas each in their order.
pub open spec fn dead_replica_paths(states: ServiceStates, metrics: Metrics, now: u128) -> Seq<
    Seq<char>,
> {
    tree_dead_paths(states, metrics, now, states.probes.values().len() as int)
}

/// What a pass makes of a node: each replica takes its resolved status, the
/// node takes the worst of them, and nothing else changes.
pub open spec fn node_bumped(
    before: ServiceStatesProbeNode,
    after: ServiceStatesProbeNode,
    metrics: Metrics,
    now: u128,
) -> bool {
    &&& after == (ServiceStatesProbeNode { status: after.status, replicas: after.replicas, ..before })
    &&& after.replicas.keys() == before.replicas.keys()
    &&& after.replicas.values().len() == before.replicas.values().len()
    &&& forall|k: int|
        0 <= k < before.replicas.values().len() ==> #[trigger] after.replicas.values()[k] == (
        ServiceStatesProbeNodeReplica {
            status: resolved_status(before.mode, before.replicas.values()[k], metrics, now),
            ..before.replicas.values()[k]
        })
    &&& after.status == worst_of(resolved_statuses(before, metrics, now))
}

/// What a pass makes of a service: each node is bumped, the service takes
/// the worst of the nodes' statuses, and nothing else changes.
pub open spec fn probe_bumped(
    before: ServiceStatesProbe,
    after: ServiceStatesProbe,
    metrics: Metrics,
    now: u128,
) -> bool {
    &&& after == (ServiceStatesProbe { status: after.status, nodes: after.nodes, ..before })
    &&& after.nodes.keys() == before.nodes.keys()
    &&& after.nodes.values().len() == before.nodes.values().len()
    &&& forall|j: int|
        0 <= j < before.nodes.values().len() ==> node_bumped(
            before.nodes.values()[j],
            #[trigger] after.nodes.values()[j],
            metrics,
            now,
        )
    &&& after.status == worst_of(node_statuses(after))
}

/// What a pass makes of the services: each is bumped, and none comes or
/// goes.
pub open spec fn tree_bumped(before: ServiceStates, after: ServiceStates, metrics: Metrics, now: u128) -> bool {
    &&& after.probes.keys() == before.probes.keys()
    &&& after.probes.values().len() == before.probes.values().len()
    &&& forall|i: int|
        0 <= i < before.probes.values().len() ==> probe_bumped(
            before.probes.values()[i],
            #[trigger] after.probes.values()[i],
            metrics,
            now,
        )
}

/// Bumps one node, and appends the paths of its dead replicas to
/// `bumped_replicas`.
pub fn bump_node(
    node: &mut ServiceStatesProbeNode,
    probe_id: &str,
    node_id: &str,
    metrics: &Metrics,
    now: u128,
    bumped_replicas: &mut Vec<String>,
) -> (node_status: Status)
    ensures
        node_bumped(*old(node), *final(node), *metrics, now),
        node_status == final(node).status,
        final(bumped_replicas).deep_view() == old(bumped_replicas).deep_view() + node_dead_paths(
            probe_id@,
            node_id@,
            *old(node),
            *metrics,
            now,
            old(node).replicas.values().len() as int,
        ),
{
    let count = node.replicas.len();
    let mode = node.mode;
    let mut node_status = Status::Healthy;
    let mut index: usize = 0;
    while index < count
        invariant
            index <= count,
            count == old(node).replicas.values().len(),
            count == old(node).replicas.keys().len(),
            mode == old(node).mode,
            *node == (ServiceStatesProbeNode { replicas: node.replicas, ..*old(node) }),
            node.replicas.keys() == old(node).replicas.keys(),
            node.replicas.values().len() == count,
            forall|k: int|
                0 <= k < index ==> #[trigger] node.replicas.values()[k] == (
                ServiceStatesProbeNodeReplica {
                    status: resolved_status(mode, old(node).replicas.values()[k], *metrics, now),
                    ..old(node).replicas.values()[k]
                }),
            forall|k: int|
                index <= k < count ==> #[trigger] node.replicas.values()[k] == old(
                    node,
                ).replicas.values()[k],
            node_status == worst_of(resolved_statuses(*old(node), *metrics, now).take(index as int)),
            bumped_replicas.deep_view() == old(bumped_replicas).deep_view() + node_dead_paths(
                probe_id@,
                node_id@,
                *old(node),
                *metrics,
                now,
                index as int,
            ),
        decreases count - index,
    {
        let replica_status = resolve_status(mode, node.replicas.value_at(index), metrics, now);
        if let Some(worst_status) = check_child_status(&node_status, &replica_status) {
            node_status = worst_status;
        }
        if replica_status == Status::Dead {
            let path = make_replica_path(probe_id, node_id, node.replicas.key_at(index).as_str());
            let ghost paths_before = bumped_replicas.deep_view();
            bumped_replicas.push(path);
            assert(bumped_replicas.deep_view() =~= paths_before.push(path@));
        }
        let replica = node.replicas.value_at_mut(index);
        replica.status = replica_status;
        proof {
            let statuses = resolved_statuses(*old(node), *metrics, now);
            crate::prober::status::lemma_worst_of_push(statuses.take(index as int), replica_status);
            assert(statuses.take(index as int).push(replica_status) =~= statuses.take(index + 1));
        }
        index = index + 1;
    }
    proof {
        let statuses = resolved_statuses(*old(node), *metrics, now);
        assert(statuses.take(count as int) =~= statuses);
    }
    node.status = node_status;
    node_status
}

/// Bumps one service, and appends the paths of its dead replicas to
/// `bumped_replicas`.
pub fn bump_probe(
    probe: &mut ServiceStatesProbe,
    probe_id: &str,
    metrics: &Metrics,
    now: u128,
    bumped_replicas: &mut Vec<String>,
) -> (probe_status: Status)
    ensures
        probe_bumped(*old(probe), *final(probe), *metrics, now),
        probe_status == final(probe).status,
        final(bumped_replicas).deep_view() == old(bumped_replicas).deep_view() + probe_dead_paths(
            probe_id@,
            *old(probe),
            *metrics,
            now,
            old(probe).nodes.values().len() as int,
        ),
{
    let count = probe.nodes.len();
    let mut probe_status = Status::Healthy;
    let mut index: usize = 0;
    while index < count
        invariant
            index <= count,
            count == old(probe).nodes.values().len(),
            count == old(probe).nodes.keys().len(),
            *probe == (ServiceStatesProbe { nodes: probe.nodes, ..*old(probe) }),
            probe.nodes.keys() == old(probe).nodes.keys(),
            probe.nodes.values().len() == count,
            forall|j: int|
                0 <= j < index ==> node_bumped(
                    old(probe).nodes.values()[j],
                    #[trigger] probe.nodes.values()[j],
                    *metrics,
                    now,
                ),
            forall|j: int|
                index <= j < count ==> #[trigger] probe.nodes.values()[j] == old(probe).nodes.values()[j],
            probe_status == worst_of(node_statuses(*probe).take(index as int)),
            bumped_replicas.deep_view() == old(bumped_replicas).deep_view() + probe_dead_paths(
                probe_id@,
                *old(probe),
                *metrics,
                now,
                index as int,
            ),
        decreases count - index,
    {
        let node_id = probe.nodes.key_at(index).clone();
        let ghost statuses_before = node_statuses(*probe);
        let ghost paths_before = bumped_replicas.deep_view();
        let node = probe.nodes.value_at_mut(index);
        let node_status = bump_node(node, probe_id, node_id.as_str(), metrics, now, bumped_replicas);
        if let Some(worst_status) = check_child_status(&probe_status, &node_status) {
            probe_status = worst_status;
        }
        proof {
            let statuses = node_statuses(*probe);
            assert(statuses.take(index as int) =~= statuses_before.take(index as int));
            crate::prober::status::lemma_worst_of_push(statuses.take(index as int), node_status);
            assert(statuses.take(index as int).push(node_status) =~= statuses.take(index + 1));
        }
        index = index + 1;
    }
    proof {
        let statuses = node_statuses(*probe);
        assert(statuses.take(count as int) =~= statuses);
    }
    probe.status = probe_status;
    proof {
        assert(node_statuses(*probe) =~= node_statuses(
            ServiceStatesProbe { status: old(probe).status, ..*probe },
        ));
    }
    probe_status
}

/// Bumps every service, and appends the paths of the dead replicas to
/// `bumped_replicas`. The result is the global status: the worst of the
/// services' statuses.
pub fn bump_tree(
    states: &mut ServiceStates,
    metrics: &Metrics,
    now: u128,
    bumped_replicas: &mut Vec<String>,
) -> (general_status: Status)
    ensures
        tree_bumped(*old(states), *final(states), *metrics, now),
        *final(states) == (ServiceStates { probes: final(states).probes, ..*old(states) }),
        general_status == worst_of(probe_statuses(*final(states))),
        final(bumped_replicas).deep_view() == old(bumped_replicas).deep_view() + dead_replica_paths(
            *old(states),
            *metrics,
            now,
        ),
{
    let count = states.probes.len();
    let mut general_status = Status::Healthy;
    let mut index: usize = 0;
    while index < count
        invariant
            index <= count,
            count == old(states).probes.values().len(),
            count == old(states).probes.keys().len(),
            *states == (ServiceStates { probes: states.probes, ..*old(states) }),
            states.probes.keys() == old(states).probes.keys(),
            states.probes.values().len() == count,
            forall|i: int|
                0 <= i < index ==> probe_bumped(
                    old(states).probes.values()[i],
                    #[trigger] states.probes.values()[i],
                    *metrics,
                    now,
                ),
            forall|i: int|
                index <= i < count ==> #[trigger] states.probes.values()[i] == old(
                    states,
                ).probes.values()[i],
            general_status == worst_of(probe_statuses(*states).take(index as int)),
            bumped_replicas.deep_view() == old(bumped_replicas).deep_view() + tree_dead_paths(
                *old(states),
                *metrics,
                now,
                index as int,
            ),
        decreases count - index,
    {
        let probe_id = states.probes.key_at(index).clone();
        let ghost statuses_before = probe_statuses(*states);
        let probe = states.probes.value_at_mut(index);
        let probe_status = bump_probe(probe, probe_id.as_str(), metrics, now, bumped_replicas);
        if let Some(worst_status) = check_child_status(&general_status, &probe_status) {
            general_status = worst_status;
        }
        proof {
            let statuses = probe_statuses(*states);
            assert(statuses.take(index as int) =~= statuses_before.take(index as int));
            crate::prober::status::lemma_worst_of_push(statuses.take(index as int), probe_status);
            assert(statuses.take(index as int).push(probe_status) =~= statuses.take(index + 1));
        }
        index = index + 1;
    }
    proof {
        let statuses = probe_statuses(*states);
        assert(statuses.take(count as int) =~= statuses);
    }
    general_status
}

/// What a pass decides once the global status is known.
#[derive(Clone, Copy, Debug, PartialEq, Eq, Structural)]
pub struct Verdict {
    /// Whether the global status differs from the stored one.
    pub has_changed: bool,
    /// Whether a notification goes out.
    pub should_notify: bool,
    /// The reminder state to store.
    pub notifier: ServiceStatesNotifier,
}

/// Whether the move from `previous` to `general` enters or leaves `Dead`.
pub open spec fn is_critical_transition(previous: Status, general: Status) -> bool {
    (previous != Status::Dead && general == Status::Dead) || (previous == Status::Dead && general
        != Status::Dead)
}

/// The factor by which the reminder interval is stretched: the backoff
/// counter to the power that the backoff function names.
pub open spec fn backoff_factor(counter: u16, function: ReminderBackoffFunction) -> nat {
    match function {
        ReminderBackoffFunction::Disabled => 1,
        ReminderBackoffFunction::Linear => counter as nat,
        ReminderBackoffFunction::Square => (counter * counter) as nat,
        ReminderBackoffFunction::Cubic => (counter * counter * counter) as nat,
    }
}

/// The backoff factor is the counter to the power of the exponent that the
/// backoff function stands for.
pub proof fn lemma_backoff_factor_is_power(counter: u16, function: ReminderBackoffFunction)
    ensures
        backoff_factor(counter, function) == vstd::arithmetic::power::pow(
            counter as int,
            function.spec_exponent(),
        ),
{
    reveal_with_fuel(vstd::arithmetic::power::pow, 4);
    assert(counter * counter * counter == counter * (counter * (counter * 1))) by (nonlinear_arith);
    assert(counter * counter == counter * (counter * 1)) by (nonlinear_arith);
}

/// The seconds that have to pass between a notification and the reminder
/// that follows it.
pub open spec fn effective_interval(
    reminder_interval: u64,
    counter: u16,
    function: ReminderBackoffFunction,
) -> nat {
    (reminder_interval * backoff_factor(counter, function)) as nat
}

/// Whether a reminder is due at `now`: a notification went out before, not
/// in the future, reminders are configured, the effective interval has
/// passed since, and no suppression window is open.
pub open spec fn reminder_due(
    notified: Option<u128>,
    reminder_interval: Option<u64>,
    function: ReminderBackoffFunction,
    notifier: ServiceStatesNotifier,
    now: u128,
) -> bool {
    &&& notified matches Some(last_notified)
    &&& reminder_interval matches Some(interval)
    &&& now >= last_notified
    &&& now - last_notified >= effective_interval(interval, notifier.reminder_backoff_counter, function)
        * NANOSECONDS_PER_SECOND
    &&& !(notifier.reminder_ignore_until matches Some(until) && now < until)
}

/// The decision of a pass that found the global status `general` where
/// `previous` was stored.
///
/// A notification goes out at once when the status enters or leaves `Dead`.
/// A change to a status other than `Dead` puts the backoff counter back to 1
/// and closes the suppression window. Where the status is unchanged and
/// `Dead`, a notification goes out when a reminder is due, and the backoff
/// counter then grows by one if a backoff function is set and the counter is
/// below `limit`.
pub open spec fn verdict(
    previous: Status,
    general: Status,
    notifier: ServiceStatesNotifier,
    notified: Option<u128>,
    reminder_interval: Option<u64>,
    function: ReminderBackoffFunction,
    limit: u16,
    now: u128,
) -> Verdict {
    let has_changed = previous != general;
    let reminds = !has_changed && general == Status::Dead && reminder_due(
        notified,
        reminder_interval,
        function,
        notifier,
        now,
    );
    Verdict {
        has_changed,
        should_notify: is_critical_transition(previous, general) || reminds,
        notifier: if has_changed && general != Status::Dead {
            ServiceStatesNotifier { reminder_backoff_counter: 1, reminder_ignore_until: None }
        } else if reminds && function != ReminderBackoffFunction::Disabled
            && notifier.reminder_backoff_counter < limit {
            ServiceStatesNotifier {
                reminder_backoff_counter: (notifier.reminder_backoff_counter + 1) as u16,
                ..notifier
            }
        } else {
            notifier
        },
    }
}

fn is_reminder_due(
    notified: Option<u128>,
    reminder_interval: Option<u64>,
    function: ReminderBackoffFunction,
    notifier: &ServiceStatesNotifier,
    now: u128,
) -> (due: bool)
    ensures
        due == reminder_due(notified, reminder_interval, function, *notifier, now),
{
    if let (Some(last_notified), Some(interval)) = (notified, reminder_interval) {
        if now >= last_notified {
            let counter: u128 = notifier.reminder_backoff_counter as u128;
            let factor: u128 = match function {
                ReminderBackoffFunction::Disabled => 1,
                ReminderBackoffFunction::Linear => counter,
                ReminderBackoffFunction::Square => {
                    assert(counter * counter <= 0xffff * 0xffff) by (nonlinear_arith)
                        requires
                            counter <= 0xffff,
                    ;
                    counter * counter
                },
                ReminderBackoffFunction::Cubic => {
                    assert(counter * counter * counter <= 0xffff * 0xffff * 0xffff) by (nonlinear_arith)
                        requires
                            counter <= 0xffff,
                    ;
                    assert(counter * counter <= 0xffff * 0xffff) by (nonlinear_arith)
                        requires
                            counter <= 0xffff,
                    ;
                    counter * counter * counter
                },
            };
            assert(factor == backoff_factor(notifier.reminder_backoff_counter, function));
            assert(interval * factor <= 0xffff_ffff_ffff_ffff * 0xffff_ffff_ffff) by (nonlinear_arith)
                requires
                    interval <= 0xffff_ffff_ffff_ffff,
                    factor <= 0xffff * 0xffff * 0xffff,
            ;
            let reminder_interval_backoff: u128 = (interval as u128) * factor;
            let should_ignore_reminders = if let Some(until) = notifier.reminder_ignore_until {
                now < until
            } else {
                false
            };
            let elapsed: u128 = now - last_notified;
            assert((elapsed / NANOSECONDS_PER_SECOND >= reminder_interval_backoff) == (elapsed
                >= reminder_interval_backoff * NANOSECONDS_PER_SECOND)) by (nonlinear_arith)
                requires
                    NANOSECONDS_PER_SECOND == 1_000_000_000,
            ;
            elapsed / NANOSECONDS_PER_SECOND >= reminder_interval_backoff && !should_ignore_reminders
        } else {
            false
        }
    } else {
        false
    }
}

/// Decides what follows from the global status that a pass found.
pub fn decide(
    previous: Status,
    general: Status,
    notifier: &ServiceStatesNotifier,
    notified: Option<u128>,
    reminder_interval: Option<u64>,
    function: ReminderBackoffFunction,
    limit: u16,
    now: u128,
) -> (decision: Verdict)
    ensures
        decision == verdict(
            previous,
            general,
            *notifier,
            notified,
            reminder_interval,
            function,
            limit,
            now,
        ),
{
    let has_changed = previous != general;
    let mut should_notify = (previous != Status::Dead && general == Status::Dead) || (previous
        == Status::Dead && general != Status::Dead);
    let mut next = *notifier;
    if has_changed && general != Status::Dead {
        next.reminder_backoff_counter = 1;
        next.reminder_ignore_until = None;
    }
    if !has_changed && !should_notify && general == Status::Dead {
        if is_reminder_due(notified, reminder_interval, function, notifier, now) {
            should_notify = true;
            if function != ReminderBackoffFunction::Disabled && next.reminder_backoff_counter < limit {
                next.reminder_backoff_counter = next.reminder_backoff_counter + 1;
            }
        }
    }
    Verdict { has_changed, should_notify, notifier: next }
}

/// The description by which the time of a pass is written.
pub const TIME_NOW_DESCRIPTION: &'static str =
    "[hour]:[minute]:[second] UTC[offset_hour sign:mandatory]:[offset_minute]";

/// What the `time` crate writes for the point `now` in UTC under a format
/// description of version 1; nothing where it refuses the description or
/// the point.
pub uninterp spec fn formatted_time(now: u128, description: Seq<char>) -> Option<Seq<char>>;

/// `time::OffsetDateTime::format`, on the point `now` as
/// `from_unix_timestamp_nanos` gives it and the description as
/// `format_description::parse_borrowed` reads it.
#[verifier::external_body]
fn format_time(now: u128, description: &str) -> (text: Option<String>)
    ensures
        formatted_time(now, description@) == match text {
            Some(t) => Some(t@),
            None => None,
        },
{
    let items = time::format_description::parse_borrowed::<1>(description).ok()?;
    let point = time::OffsetDateTime::from_unix_timestamp_nanos(i128::try_from(now).ok()?).ok()?;
    point.format(&items).ok()
}

/// `std::time::SystemTime::now`, as nanoseconds since the UNIX epoch;
/// nothing where the clock stands before the epoch.
#[verifier::external_body]
fn clock_now() -> (now: Option<u128>) {
    std::time::SystemTime::now().duration_since(std::time::UNIX_EPOCH).ok().map(|since| since.as_nanos())
}

/// The time of day of `now` as text, or a question mark where it cannot be
/// written.
pub open spec fn time_text(now: u128) -> Seq<char> {
    match formatted_time(now, TIME_NOW_DESCRIPTION@) {
        Some(text) => text,
        None => "?"@,
    }
}

/// Writes the time of day of `now`.
pub fn time_as_string(now: u128) -> (text: String)
    ensures
        text@ == time_text(now),
{
    match format_time(now, TIME_NOW_DESCRIPTION) {
        Some(text) => text,
        None => "?".to_owned(),
    }
}

/// The store after a pass at `now`: the tree is bumped, the global status
/// is the worst of the services' statuses, the time of the pass is
/// recorded, the reminder state is that of the verdict, and the time of the
/// last notification moves to `now` where the pass notifies.
pub open spec fn store_bumped(
    before: Store,
    after: Store,
    reminder_interval: Option<u64>,
    function: ReminderBackoffFunction,
    limit: u16,
    metrics: Metrics,
    now: u128,
    date: Seq<char>,
) -> bool {
    let decision = pass_verdict(before, after, reminder_interval, function, limit, now);
    &&& tree_bumped(before.states, after.states, metrics, now)
    &&& after.states.status == worst_of(probe_statuses(after.states))
    &&& after.states.date matches Some(written) && written@ == date
    &&& after.states.notifier == decision.notifier
    &&& after.notified == if decision.should_notify {
        Some(now)
    } else {
        before.notified
    }
}

/// The verdict of the pass that led from `before` to `after`.
pub open spec fn pass_verdict(
    before: Store,
    after: Store,
    reminder_interval: Option<u64>,
    function: ReminderBackoffFunction,
    limit: u16,
    now: u128,
) -> Verdict {
    verdict(
        before.states.status,
        after.states.status,
        before.states.notifier,
        before.notified,
        reminder_interval,
        function,
        limit,
        now,
    )
}

/// Whether `bumped` is what the pass from `before` to `after` hands to the
/// notifiers: nothing where the verdict is not to notify, and else the
/// global status, the paths of the dead replicas, and whether the status
/// changed.
pub open spec fn pass_result(
    before: Store,
    after: Store,
    bumped: Option<BumpedStates>,
    reminder_interval: Option<u64>,
    function: ReminderBackoffFunction,
    limit: u16,
    metrics: Metrics,
    now: u128,
) -> bool {
    let decision = pass_verdict(before, after, reminder_interval, function, limit, now);
    match bumped {
        Some(states) => {
            &&& decision.should_notify
            &&& states.status == after.states.status
            &&& states.replicas.deep_view() == dead_replica_paths(before.states, metrics, now)
            &&& states.changed == decision.has_changed
            &&& !states.startup
        },
        None => !decision.should_notify,
    }
}

/// Runs one pass over the store at the time `now`.
pub fn bump_states(store: &mut Store, notify: &Notify, metrics: &Metrics, now: u128) -> (bumped: Option<
    BumpedStates,
>)
    ensures
        store_bumped(
            *old(store),
            *final(store),
            notify.reminder_interval,
            notify.reminder_backoff_function,
            notify.reminder_backoff_limit,
            *metrics,
            now,
            time_text(now),
        ),
        pass_result(
            *old(store),
            *final(store),
            bumped,
            notify.reminder_interval,
            notify.reminder_backoff_function,
            notify.reminder_backoff_limit,
            *metrics,
            now,
        ),
{
    let mut bumped_replicas: Vec<String> = Vec::new();
    let general_status = bump_tree(&mut store.states, metrics, now, &mut bumped_replicas);
    assert(bumped_replicas.deep_view() =~= dead_replica_paths(old(store).states, *metrics, now));
    let decision = decide(
        store.states.status,
        general_status,
        &store.states.notifier,
        store.notified,
        notify.reminder_interval,
        notify.reminder_backoff_function,
        notify.reminder_backoff_limit,
        now,
    );
    store.states.notifier = decision.notifier;
    store.states.status = general_status;
    store.states.date = Some(time_as_string(now));
    proof {
        assert(probe_statuses(store.states) =~= probe_statuses(
            ServiceStates {
                status: old(store).states.status,
                date: old(store).states.date,
                notifier: old(store).states.notifier,
                ..store.states
            },
        ));
    }
    if decision.should_notify {
        store.notified = Some(now);
        Some(
            BumpedStates {
                status: general_status,
                replicas: bumped_replicas,
                changed: decision.has_changed,
                startup: false,
            },
        )
    } else {
        None
    }
}

/// Runs one pass over the store at the time that the clock shows; a clock
/// that stands before the UNIX epoch counts as standing at it.
pub fn scan_and_bump_states(store: &mut Store, notify: &Notify, metrics: &Metrics) -> (bumped: Option<
    BumpedStates,
>)
    ensures
        exists|now: u128|
            {
                &&& #[trigger] store_bumped(
                    *old(store),
                    *final(store),
                    notify.reminder_interval,
                    notify.reminder_backoff_function,
                    notify.reminder_backoff_limit,
                    *metrics,
                    now,
                    time_text(now),
                )
                &&& pass_result(
                    *old(store),
                    *final(store),
                    bumped,
                    notify.reminder_interval,
                    notify.reminder_backoff_function,
                    notify.reminder_backoff_limit,
                    *metrics,
                    now,
                )
            },
{
    let now = match clock_now() {
        Some(now) => now,
        None => 0,
    };
    bump_states(store, notify, metrics, now)
}

/// The notification that goes out when the aggregator starts, where the
/// settings ask for one: healthy, no replica, changed.
pub fn dispatch_startup_notification(notify: &Notify) -> (bumped: Option<BumpedStates>)
    ensures
        bumped.is_some() == notify.startup_notification,
        bumped matches Some(states) ==> states.status == Status::Healthy && states.replicas@.len() == 0
            && states.changed && states.startup,
{
    if notify.startup_notification {
        Some(BumpedStates { status: Status::Healthy, replicas: Vec::new(), changed: true, startup: true })
    } else {
        None
    }
}

/// The statuses of the replicas of a node, in their order.
pub open spec fn replica_statuses(node: ServiceStatesProbeNode) -> Seq<Status> {
    node.replicas.values().map_values(|replica: ServiceStatesProbeNodeReplica| replica.status)
}

/// The statuses of all replicas of a service: node by node.
pub open spec fn probe_replica_statuses(probe: ServiceStatesProbe) -> Seq<Status> {
    probe.nodes.values().map_values(|node: ServiceStatesProbeNode| replica_statuses(node)).flatten()
}

/// The statuses of all replicas of the tree: service by service.
pub open spec fn tree_replica_statuses(states: ServiceStates) -> Seq<Status> {
    states.probes.values().map_values(
        |probe: ServiceStatesProbe| probe_replica_statuses(probe),
    ).flatten()
}

/// The rollup is max-severity: after a pass every node, every service and
/// the global status stand at the most severe status among the replicas
/// below them, and at `Healthy` where there is none.
pub proof fn lemma_rollup_is_max_severity(
    before: ServiceStates,
    after: ServiceStates,
    metrics: Metrics,
    now: u128,
)
    requires
        tree_bumped(before, after, metrics, now),
        after.status == worst_of(probe_statuses(after)),
    ensures
        forall|i: int, j: int|
            #![trigger after.probes.values()[i].nodes.values()[j]]
            0 <= i < after.probes.values().len() && 0 <= j < after.probes.values()[i].nodes.values().len()
                ==> after.probes.values()[i].nodes.values()[j].status == worst_of(
                replica_statuses(after.probes.values()[i].nodes.values()[j]),
            ),
        forall|i: int|
            0 <= i < after.probes.values().len() ==> (#[trigger] after.probes.values()[i]).status
                == worst_of(probe_replica_statuses(after.probes.values()[i])),
        after.status == worst_of(tree_replica_statuses(after)),
{
    assert forall|i: int| 0 <= i < after.probes.values().len() implies {
        &&& (#[trigger] after.probes.values()[i]).status == worst_of(
            probe_replica_statuses(after.probes.values()[i]),
        )
        &&& forall|j: int|
            0 <= j < after.probes.values()[i].nodes.values().len() ==> (
            #[trigger] after.probes.values()[i].nodes.values()[j]).status == worst_of(
                replica_statuses(after.probes.values()[i].nodes.values()[j]),
            )
    } by {
        let probe_before = before.probes.values()[i];
        let probe = after.probes.values()[i];
        assert(probe_bumped(probe_before, probe, metrics, now));
        assert forall|j: int| 0 <= j < probe.nodes.values().len() implies (
        #[trigger] probe.nodes.values()[j]).status == worst_of(replica_statuses(probe.nodes.values()[j])) by {
            let node_before = probe_before.nodes.values()[j];
            let node = probe.nodes.values()[j];
            assert(node_bumped(node_before, node, metrics, now));
            assert(replica_statuses(node) =~= resolved_statuses(node_before, metrics, now)) by {
                assert forall|k: int| 0 <= k < node.replicas.values().len() implies replica_statuses(
                    node,
                )[k] == resolved_statuses(node_before, metrics, now)[k] by {
                    assert(node.replicas.values()[k].status == resolved_status(
                        node_before.mode,
                        node_before.replicas.values()[k],
                        metrics,
                        now,
                    ));
                }
            }
        }
        let groups = probe.nodes.values().map_values(
            |node: ServiceStatesProbeNode| replica_statuses(node),
        );
        crate::prober::status::lemma_worst_of_groups(groups);
        assert(groups.map_values(|group: Seq<Status>| worst_of(group)) =~= node_statuses(probe));
    }
    let groups = after.probes.values().map_values(
        |probe: ServiceStatesProbe| probe_replica_statuses(probe),
    );
    crate::prober::status::lemma_worst_of_groups(groups);
    assert(groups.map_values(|group: Seq<Status>| worst_of(group)) =~= probe_statuses(after));
}

/// Transition gating: among the changes of the global status only those
/// that enter or leave `Dead` notify at once, and they always do. A move
/// from `Healthy` to `Sick` counts as a change and does not notify. Any
/// other notification is a reminder of an unchanged `Dead`.
pub proof fn lemma_transition_gating(
    previous: Status,
    general: Status,
    notifier: ServiceStatesNotifier,
    notified: Option<u128>,
    reminder_interval: Option<u64>,
    function: ReminderBackoffFunction,
    limit: u16,
    now: u128,
)
    ensures
        ({
            let decision = verdict(
                previous,
                general,
                notifier,
                notified,
                reminder_interval,
                function,
                limit,
                now,
            );
            &&& decision.has_changed == (previous != general)
            &&& is_critical_transition(previous, general) ==> decision.should_notify
                && decision.has_changed
            &&& decision.should_notify && decision.has_changed ==> is_critical_transition(
                previous,
                general,
            )
            &&& decision.should_notify && !decision.has_changed ==> general == Status::Dead
                && reminder_due(notified, reminder_interval, function, notifier, now)
            &&& previous == Status::Healthy && general == Status::Sick ==> decision.has_changed
                && !decision.should_notify
        }),
{
}

/// Reset on recovery: a pass that finds the global status changed to
/// anything but `Dead` puts the backoff counter back to 1 and closes the
/// suppression window. Every move away from `Dead` is such a change.
pub proof fn lemma_reset_on_recovery(
    previous: Status,
    general: Status,
    notifier: ServiceStatesNotifier,
    notified: Option<u128>,
    reminder_interval: Option<u64>,
    function: ReminderBackoffFunction,
    limit: u16,
    now: u128,
)
    requires
        previous != general,
        general != Status::Dead,
    ensures
        verdict(
            previous,
            general,
            notifier,
            notified,
            reminder_interval,
            function,
            limit,
            now,
        ).notifier == (ServiceStatesNotifier { reminder_backoff_counter: 1, reminder_ignore_until: None }),
{
}

/// The backoff counter goes back to 1 only when the global status changes
/// to something other than `Dead`; otherwise it stays or grows by one, and
/// it never grows past the limit. A counter of at least 1 stays at least 1.
pub proof fn lemma_counter_only_grows(
    previous: Status,
    general: Status,
    notifier: ServiceStatesNotifier,
    notified: Option<u128>,
    reminder_interval: Option<u64>,
    function: ReminderBackoffFunction,
    limit: u16,
    now: u128,
)
    ensures
        ({
            let after = verdict(
                previous,
                general,
                notifier,
                notified,
                reminder_interval,
                function,
                limit,
                now,
            ).notifier.reminder_backoff_counter;
            let counter = notifier.reminder_backoff_counter;
            &&& if previous != general && general != Status::Dead {
                after == 1
            } else {
                after == counter || (after == counter + 1 && after <= limit)
            }
            &&& counter >= 1 ==> after >= 1
        }),
{
}

/// Without a reminder interval nothing but a move into or out of `Dead`
/// notifies.
pub proof fn lemma_no_interval_no_reminder(
    previous: Status,
    general: Status,
    notifier: ServiceStatesNotifier,
    notified: Option<u128>,
    function: ReminderBackoffFunction,
    limit: u16,
    now: u128,
)
    ensures
        verdict(previous, general, notifier, notified, None, function, limit, now).should_notify
            == is_critical_transition(previous, general),
        verdict(previous, general, notifier, notified, None, function, limit, now).notifier.reminder_backoff_counter
            == if previous != general && general != Status::Dead {
            1u16
        } else {
            notifier.reminder_backoff_counter
        },
{
}

/// The backoff counter after a number of reminders in a row, from `start`.
pub open spec fn counter_after_reminders(
    start: u16,
    limit: u16,
    function: ReminderBackoffFunction,
    reminders: nat,
) -> u16
    decreases reminders,
{
    if reminders == 0 {
        start
    } else {
        let counter = counter_after_reminders(start, limit, function, (reminders - 1) as nat);
        if function != ReminderBackoffFunction::Disabled && counter < limit {
            (counter + 1) as u16
        } else {
            counter
        }
    }
}

/// A reminder that is due while the status stays `Dead` goes out, and moves
/// the backoff counter by one step of `counter_after_reminders`.
pub proof fn lemma_reminder_step(
    notifier: ServiceStatesNotifier,
    notified: Option<u128>,
    reminder_interval: Option<u64>,
    function: ReminderBackoffFunction,
    limit: u16,
    now: u128,
)
    requires
        reminder_due(notified, reminder_interval, function, notifier, now),
    ensures
        ({
            let decision = verdict(
                Status::Dead,
                Status::Dead,
                notifier,
                notified,
                reminder_interval,
                function,
                limit,
                now,
            );
            &&& decision.should_notify
            &&& !decision.has_changed
            &&& decision.notifier.reminder_ignore_until == notifier.reminder_ignore_until
            &&& decision.notifier.reminder_backoff_counter == counter_after_reminders(
                notifier.reminder_backoff_counter,
                limit,
                function,
                1,
            )
        }),
{
    reveal_with_fuel(counter_after_reminders, 2);
}

/// Backoff growth: from a counter of 1 and with a backoff function set, the
/// counter after `reminders` reminders is one more than their number, until
/// it stops at the limit. Under the linear function the interval before the
/// next reminder is then that many times the configured interval: once,
/// twice, three times and so on.
pub proof fn lemma_backoff_growth(
    reminder_interval: u64,
    limit: u16,
    function: ReminderBackoffFunction,
    reminders: nat,
)
    requires
        function != ReminderBackoffFunction::Disabled,
        limit >= 1,
    ensures
        counter_after_reminders(1, limit, function, reminders) == if reminders + 1 <= limit {
            reminders + 1
        } else {
            limit as nat
        },
        effective_interval(
            reminder_interval,
            counter_after_reminders(1, limit, ReminderBackoffFunction::Linear, reminders),
            ReminderBackoffFunction::Linear,
        ) == reminder_interval * if reminders + 1 <= limit {
            reminders + 1
        } else {
            limit as nat
        },
    decreases reminders,
{
    if reminders > 0 {
        lemma_backoff_growth(reminder_interval, limit, function, (reminders - 1) as nat);
        lemma_backoff_growth(
            reminder_interval,
            limit,
            ReminderBackoffFunction::Linear,
            (reminders - 1) as nat,
        );
    }
}

} // verus!
