use overvakt::config::probe::{HttpMethod, Probe, Service, ServiceNode};
use overvakt::config::regex::Regex;
use overvakt::ordered::OrderedMap;
use overvakt::prober::manager::{
    clone_headers, dispatch_replica, initialize_store, map_poll_replicas, map_script_replicas,
    ProbeReplica, ProbeReplicaTarget, Store, StoreError,
};
use overvakt::prober::mode::Mode;
use overvakt::prober::replica::ReplicaUrl;
use overvakt::prober::states::ServiceStatesNotifier;
use overvakt::prober::status::Status;

fn service_node(mode: Mode, replicas: Option<Vec<&str>>, scripts: Option<Vec<&str>>) -> ServiceNode {
    ServiceNode {
        label: "Node".to_string(),
        mode,
        replicas: replicas.map(|list| list.into_iter().map(|text| text.to_string()).collect()),
        scripts: scripts.map(|list| list.into_iter().map(|text| text.to_string()).collect()),
        http_no_cache_buster: false,
        http_headers: Vec::new(),
        http_method: None,
        http_body: None,
        http_body_healthy_match: None,
        rabbitmq_queue: None,
        rabbitmq_queue_nack_healthy_below: None,
        rabbitmq_queue_nack_dead_above: None,
    }
}

fn configuration(services: Vec<(&str, Vec<(&str, ServiceNode)>)>) -> Probe {
    let mut service_map = OrderedMap::new();
    for (service_id, nodes) in services {
        let mut node_map = OrderedMap::new();
        for (node_id, node) in nodes {
            node_map.insert(node_id.to_string(), node);
        }
        service_map.insert(service_id.to_string(), Service { label: "Service".to_string(), node: node_map });
    }
    Probe { service: service_map }
}

fn target(probe_id: &str, node_id: &str, replica_id: &str) -> ProbeReplicaTarget {
    ProbeReplicaTarget {
        probe_id: probe_id.to_string(),
        node_id: node_id.to_string(),
        replica_id: replica_id.to_string(),
    }
}

fn error_of(probe: &Probe) -> Option<StoreError> {
    match initialize_store(probe) {
        Ok(_) => None,
        Err(error) => Some(error),
    }
}

#[test]
fn new_store_is_healthy_and_empty() {
    let store = Store::new();
    assert_eq!(store.states.status, Status::Healthy);
    assert_eq!(store.states.date, None);
    assert_eq!(store.states.probes.len(), 0);
    assert_eq!(
        store.states.notifier,
        ServiceStatesNotifier { reminder_backoff_counter: 1, reminder_ignore_until: None }
    );
    assert_eq!(store.notified, None);
}

#[test]
fn initialize_store_builds_the_configured_tree() {
    let mut api = service_node(Mode::Poll, Some(vec!["http://a", "tcp://b:80", "icmp://c"]), None);
    api.http_no_cache_buster = true;
    api.http_headers = vec![("x-probe".to_string(), "1".to_string())];
    api.http_method = Some(HttpMethod::Post);
    api.http_body = Some("ping".to_string());
    api.http_body_healthy_match = Regex::new("pong");
    api.rabbitmq_queue = Some("jobs".to_string());
    api.rabbitmq_queue_nack_healthy_below = Some(10);
    api.rabbitmq_queue_nack_dead_above = Some(20);
    let probe = configuration(vec![
        ("web", vec![("api", api), ("cron", service_node(Mode::Script, None, Some(vec!["true", "false"])))]),
        (
            "agents",
            vec![("push", service_node(Mode::Push, None, None)), ("local", service_node(Mode::Local, None, None))],
        ),
    ]);
    let store = initialize_store(&probe).ok().unwrap();
    assert_eq!(store.states.status, Status::Healthy);
    assert_eq!(store.states.date, None);
    assert_eq!(store.notified, None);
    assert_eq!(store.states.notifier.reminder_backoff_counter, 1);
    assert_eq!(store.states.probes.len(), 2);
    assert_eq!(store.states.probes.key_at(0), "web");
    assert_eq!(store.states.probes.key_at(1), "agents");

    let web = store.states.probes.value_at(0);
    assert_eq!(web.id, "web");
    assert_eq!(web.label, "Service");
    assert_eq!(web.status, Status::Healthy);
    assert_eq!(web.nodes.len(), 2);
    assert_eq!(web.nodes.key_at(0), "api");
    assert_eq!(web.nodes.key_at(1), "cron");

    let api = web.nodes.value_at(0);
    assert_eq!(api.status, Status::Healthy);
    assert_eq!(api.label, "Node");
    assert_eq!(api.mode, Mode::Poll);
    assert!(!api.http_cache_buster);
    assert_eq!(api.http_headers, vec![("x-probe".to_string(), "1".to_string())]);
    assert_eq!(api.http_method, Some(HttpMethod::Post));
    assert_eq!(api.http_body.as_deref(), Some("ping"));
    assert_eq!(api.http_body_healthy_match.as_ref().unwrap().as_str(), "pong");
    let rabbitmq = api.rabbitmq.as_ref().unwrap();
    assert_eq!(rabbitmq.queue, "jobs");
    assert_eq!(rabbitmq.queue_nack_healthy_below, Some(10));
    assert_eq!(rabbitmq.queue_nack_dead_above, Some(20));
    assert_eq!(api.replicas.len(), 3);
    assert_eq!(api.replicas.key_at(0), "http://a");
    assert_eq!(api.replicas.key_at(1), "tcp://b:80");
    assert_eq!(api.replicas.key_at(2), "icmp://c");
    assert!(matches!(&api.replicas.value_at(0).url, Some(ReplicaUrl::Http(url)) if url == "http://a/"));
    assert!(matches!(&api.replicas.value_at(1).url, Some(ReplicaUrl::Tcp(host, 80)) if host == "b"));
    assert!(matches!(&api.replicas.value_at(2).url, Some(ReplicaUrl::Icmp(host)) if host == "c"));
    for index in 0..3 {
        let replica = api.replicas.value_at(index);
        assert_eq!(replica.status, Status::Healthy);
        assert_eq!(replica.script, None);
        assert_eq!(replica.metrics.latency, None);
        assert!(replica.load.is_none());
        assert!(replica.report.is_none());
    }

    let cron = web.nodes.value_at(1);
    assert_eq!(cron.mode, Mode::Script);
    assert!(cron.http_cache_buster);
    assert!(cron.rabbitmq.is_none());
    assert_eq!(cron.replicas.len(), 2);
    assert_eq!(cron.replicas.key_at(0), "0");
    assert_eq!(cron.replicas.key_at(1), "1");
    assert_eq!(cron.replicas.value_at(0).script.as_deref(), Some("true"));
    assert_eq!(cron.replicas.value_at(1).script.as_deref(), Some("false"));
    assert!(cron.replicas.value_at(0).url.is_none());

    let agents = store.states.probes.value_at(1);
    assert_eq!(agents.nodes.len(), 2);
    assert_eq!(agents.nodes.value_at(0).mode, Mode::Push);
    assert_eq!(agents.nodes.value_at(0).replicas.len(), 0);
    assert_eq!(agents.nodes.value_at(1).mode, Mode::Local);
    assert_eq!(agents.nodes.value_at(1).replicas.len(), 0);
}

#[test]
fn initialize_store_numbers_many_scripts_in_decimal() {
    let scripts: Vec<String> = (0..12).map(|n| format!("script-{}", n)).collect();
    let mut node = service_node(Mode::Script, None, None);
    node.scripts = Some(scripts);
    let store = initialize_store(&configuration(vec![("s", vec![("n", node)])])).ok().unwrap();
    let replicas = &store.states.probes.value_at(0).nodes.value_at(0).replicas;
    assert_eq!(replicas.len(), 12);
    assert_eq!(replicas.key_at(9), "9");
    assert_eq!(replicas.key_at(10), "10");
    assert_eq!(replicas.key_at(11), "11");
    assert_eq!(replicas.get("10").unwrap().script.as_deref(), Some("script-10"));
}

#[test]
fn initialize_store_keeps_a_repeated_replica_once() {
    let node = service_node(Mode::Poll, Some(vec!["http://a", "http://b", "http://a"]), None);
    let store = initialize_store(&configuration(vec![("s", vec![("n", node)])])).ok().unwrap();
    let replicas = &store.states.probes.value_at(0).nodes.value_at(0).replicas;
    assert_eq!(replicas.len(), 2);
    assert_eq!(replicas.key_at(0), "http://a");
    assert_eq!(replicas.key_at(1), "http://b");
}

#[test]
fn initialize_store_of_an_empty_configuration_is_an_empty_store() {
    let store = initialize_store(&configuration(vec![])).ok().unwrap();
    assert_eq!(store.states.probes.len(), 0);
    let store = initialize_store(&configuration(vec![("lonely", vec![])])).ok().unwrap();
    assert_eq!(store.states.probes.len(), 1);
    assert_eq!(store.states.probes.value_at(0).nodes.len(), 0);
}

#[test]
fn initialize_store_refuses_replicas_on_other_than_poll_nodes() {
    for mode in [Mode::Push, Mode::Script, Mode::Local] {
        let node = service_node(mode, Some(vec!["http://a"]), None);
        assert_eq!(
            error_of(&configuration(vec![("s", vec![("n", node)])])),
            Some(StoreError::ReplicasOnNonPollNode)
        );
    }
    let node = service_node(Mode::Push, Some(vec![]), None);
    assert_eq!(error_of(&configuration(vec![("s", vec![("n", node)])])), Some(StoreError::ReplicasOnNonPollNode));
}

#[test]
fn initialize_store_refuses_scripts_on_other_than_script_nodes() {
    for mode in [Mode::Push, Mode::Local] {
        let node = service_node(mode, None, Some(vec!["true"]));
        assert_eq!(
            error_of(&configuration(vec![("s", vec![("n", node)])])),
            Some(StoreError::ScriptsOnNonScriptNode)
        );
    }
    let node = service_node(Mode::Poll, Some(vec!["http://a"]), Some(vec!["true"]));
    assert_eq!(
        error_of(&configuration(vec![("s", vec![("n", node)])])),
        Some(StoreError::ScriptsOnNonScriptNode)
    );
}

#[test]
fn initialize_store_refuses_a_replica_that_names_no_target() {
    let node = service_node(Mode::Poll, Some(vec!["http://a", "ftp://b"]), None);
    assert_eq!(error_of(&configuration(vec![("s", vec![("n", node)])])), Some(StoreError::InvalidReplicaUrl));
    let node = service_node(Mode::Poll, Some(vec!["tcp://no-port"]), Some(vec!["true"]));
    assert_eq!(error_of(&configuration(vec![("s", vec![("n", node)])])), Some(StoreError::InvalidReplicaUrl));
}

#[test]
fn initialize_store_refuses_poll_nodes_without_replicas() {
    let node = service_node(Mode::Poll, None, None);
    assert_eq!(
        error_of(&configuration(vec![("s", vec![("n", node)])])),
        Some(StoreError::PollNodeWithoutReplicas)
    );
    let node = service_node(Mode::Poll, Some(vec![]), None);
    assert_eq!(
        error_of(&configuration(vec![("s", vec![("n", node)])])),
        Some(StoreError::PollNodeWithoutReplicas)
    );
}

#[test]
fn initialize_store_refuses_script_nodes_without_scripts() {
    let node = service_node(Mode::Script, None, None);
    assert_eq!(
        error_of(&configuration(vec![("s", vec![("n", node)])])),
        Some(StoreError::ScriptNodeWithoutScripts)
    );
    let node = service_node(Mode::Script, None, Some(vec![]));
    assert_eq!(
        error_of(&configuration(vec![("s", vec![("n", node)])])),
        Some(StoreError::ScriptNodeWithoutScripts)
    );
}

#[test]
fn initialize_store_reports_the_first_wrong_node() {
    let probe = configuration(vec![
        ("fine", vec![("ok", service_node(Mode::Poll, Some(vec!["http://a"]), None))]),
        (
            "bad",
            vec![
                ("ok", service_node(Mode::Push, None, None)),
                ("first", service_node(Mode::Script, None, None)),
                ("second", service_node(Mode::Poll, None, None)),
            ],
        ),
        ("worse", vec![("third", service_node(Mode::Push, Some(vec!["http://a"]), None))]),
    ]);
    assert_eq!(error_of(&probe), Some(StoreError::ScriptNodeWithoutScripts));
}

#[test]
fn store_error_messages() {
    assert_eq!(StoreError::ReplicasOnNonPollNode.message(), "non-poll node cannot have replicas");
    assert_eq!(StoreError::ScriptsOnNonScriptNode.message(), "non-script node cannot have scripts");
    assert_eq!(StoreError::InvalidReplicaUrl.message(), "invalid replica url");
    assert_eq!(StoreError::PollNodeWithoutReplicas.message(), "poll node must have replicas");
    assert_eq!(StoreError::ScriptNodeWithoutScripts.message(), "script node must have scripts");
}

fn sample_store() -> Store {
    let mut api = service_node(Mode::Poll, Some(vec!["http://a", "tcp://b:80"]), None);
    api.http_headers = vec![("x-probe".to_string(), "1".to_string())];
    api.http_method = Some(HttpMethod::Get);
    api.http_body = Some("ping".to_string());
    api.http_body_healthy_match = Regex::new("pong");
    let probe = configuration(vec![
        ("web", vec![("api", api), ("cron", service_node(Mode::Script, None, Some(vec!["true", "false"])))]),
        ("agents", vec![("push", service_node(Mode::Push, None, None))]),
        ("edge", vec![("ping", service_node(Mode::Poll, Some(vec!["icmp://c"]), None))]),
    ]);
    initialize_store(&probe).ok().unwrap()
}

#[test]
fn map_poll_replicas_lists_the_replicas_of_poll_nodes_in_order() {
    let store = sample_store();
    let list = map_poll_replicas(&store.states);
    assert_eq!(list.len(), 3);
    match &list[0] {
        ProbeReplica::Poll(target, poll) => {
            assert_eq!(target.probe_id, "web");
            assert_eq!(target.node_id, "api");
            assert_eq!(target.replica_id, "http://a");
            assert!(matches!(&poll.replica_url, ReplicaUrl::Http(url) if url == "http://a/"));
            assert!(poll.http_cache_buster);
            assert_eq!(poll.http_headers, vec![("x-probe".to_string(), "1".to_string())]);
            assert_eq!(poll.http_method, Some(HttpMethod::Get));
            assert_eq!(poll.http_body.as_deref(), Some("ping"));
            assert_eq!(poll.body_match.as_ref().unwrap().as_str(), "pong");
        }
        ProbeReplica::Script(_, _) => panic!("a poll replica was expected"),
    }
    match &list[1] {
        ProbeReplica::Poll(target, poll) => {
            assert_eq!(target.replica_id, "tcp://b:80");
            assert!(matches!(&poll.replica_url, ReplicaUrl::Tcp(host, 80) if host == "b"));
        }
        ProbeReplica::Script(_, _) => panic!("a poll replica was expected"),
    }
    match &list[2] {
        ProbeReplica::Poll(target, poll) => {
            assert_eq!(target.probe_id, "edge");
            assert_eq!(target.node_id, "ping");
            assert_eq!(target.replica_id, "icmp://c");
            assert!(matches!(&poll.replica_url, ReplicaUrl::Icmp(host) if host == "c"));
            assert!(poll.http_headers.is_empty());
            assert!(poll.body_match.is_none());
        }
        ProbeReplica::Script(_, _) => panic!("a poll replica was expected"),
    }
}

#[test]
fn map_script_replicas_lists_the_replicas_of_script_nodes_in_order() {
    let store = sample_store();
    let list = map_script_replicas(&store.states);
    assert_eq!(list.len(), 2);
    match &list[0] {
        ProbeReplica::Script(target, script) => {
            assert_eq!(target.probe_id, "web");
            assert_eq!(target.node_id, "cron");
            assert_eq!(target.replica_id, "0");
            assert_eq!(script.script, "true");
        }
        ProbeReplica::Poll(_, _) => panic!("a script replica was expected"),
    }
    match &list[1] {
        ProbeReplica::Script(target, script) => {
            assert_eq!(target.replica_id, "1");
            assert_eq!(script.script, "false");
        }
        ProbeReplica::Poll(_, _) => panic!("a script replica was expected"),
    }
}

#[test]
fn map_replicas_of_an_empty_store_is_empty() {
    let store = Store::new();
    assert!(map_poll_replicas(&store.states).is_empty());
    assert!(map_script_replicas(&store.states).is_empty());
}

#[test]
fn dispatch_replica_overwrites_status_and_latency_of_one_replica() {
    let mut store = sample_store();
    dispatch_replica(&mut store, &target("web", "api", "tcp://b:80"), Status::Sick, Some(1_234_567_890));
    let api = store.states.probes.get("web").unwrap().nodes.get("api").unwrap();
    assert_eq!(api.replicas.get("tcp://b:80").unwrap().status, Status::Sick);
    assert_eq!(api.replicas.get("tcp://b:80").unwrap().metrics.latency, Some(1_234));
    assert_eq!(api.replicas.get("http://a").unwrap().status, Status::Healthy);
    assert_eq!(api.replicas.get("http://a").unwrap().metrics.latency, None);
    // Statuses of nodes and services are the aggregator's to change.
    assert_eq!(api.status, Status::Healthy);
    assert_eq!(store.states.probes.get("web").unwrap().status, Status::Healthy);
    assert_eq!(store.states.status, Status::Healthy);

    dispatch_replica(&mut store, &target("web", "api", "tcp://b:80"), Status::Dead, None);
    let api = store.states.probes.get("web").unwrap().nodes.get("api").unwrap();
    assert_eq!(api.replicas.get("tcp://b:80").unwrap().status, Status::Dead);
    assert_eq!(api.replicas.get("tcp://b:80").unwrap().metrics.latency, None);
}

#[test]
fn dispatch_replica_to_an_unknown_path_changes_nothing() {
    let mut store = sample_store();
    dispatch_replica(&mut store, &target("nope", "api", "http://a"), Status::Dead, Some(1));
    dispatch_replica(&mut store, &target("web", "nope", "http://a"), Status::Dead, Some(1));
    dispatch_replica(&mut store, &target("web", "api", "nope"), Status::Dead, Some(1));
    dispatch_replica(&mut store, &target("web", "cron", "http://a"), Status::Dead, Some(1));
    for i in 0..store.states.probes.len() {
        let probe = store.states.probes.value_at(i);
        for j in 0..probe.nodes.len() {
            let node = probe.nodes.value_at(j);
            for k in 0..node.replicas.len() {
                assert_eq!(node.replicas.value_at(k).status, Status::Healthy);
                assert_eq!(node.replicas.value_at(k).metrics.latency, None);
            }
        }
    }
}

#[test]
fn clone_headers_copies_every_pair() {
    let headers = vec![("a".to_string(), "1".to_string()), ("b".to_string(), "2".to_string())];
    assert_eq!(clone_headers(&headers), headers);
    assert!(clone_headers(&Vec::new()).is_empty());
}
