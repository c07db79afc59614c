use overvakt::prober::replica::{ReplicaUrl, UrlParts};

#[test]
fn parse_from_reads_an_icmp_host() {
    let url = ReplicaUrl::parse_from("icmp://edge.example.org").unwrap();
    assert!(matches!(url, ReplicaUrl::Icmp(host) if host == "edge.example.org"));
}

#[test]
fn parse_from_reads_an_icmp_address_without_brackets() {
    let url = ReplicaUrl::parse_from("icmp://[::1]").unwrap();
    assert!(matches!(url, ReplicaUrl::Icmp(host) if host == "::1"));
    let url = ReplicaUrl::parse_from("icmp://127.0.0.1").unwrap();
    assert!(matches!(url, ReplicaUrl::Icmp(host) if host == "127.0.0.1"));
}

#[test]
fn parse_from_refuses_icmp_with_port_or_path() {
    assert!(ReplicaUrl::parse_from("icmp://edge.example.org:80").is_err());
    assert!(ReplicaUrl::parse_from("icmp://edge.example.org/path").is_err());
}

#[test]
fn parse_from_reads_a_tcp_host_and_port() {
    let url = ReplicaUrl::parse_from("tcp://edge.example.org:6379").unwrap();
    assert!(matches!(url, ReplicaUrl::Tcp(host, 6379) if host == "edge.example.org"));
}

#[test]
fn parse_from_refuses_tcp_without_port_or_with_path() {
    assert!(ReplicaUrl::parse_from("tcp://edge.example.org").is_err());
    assert!(ReplicaUrl::parse_from("tcp://edge.example.org:80/path").is_err());
}

#[test]
fn parse_from_keeps_http_urls_as_the_parser_writes_them() {
    let url = ReplicaUrl::parse_from("http://a").unwrap();
    assert!(matches!(url, ReplicaUrl::Http(text) if text == "http://a/"));
    let url = ReplicaUrl::parse_from("https://example.org/status?x=1").unwrap();
    assert!(matches!(url, ReplicaUrl::Https(text) if text == "https://example.org/status?x=1"));
}

#[test]
fn parse_from_refuses_other_schemes_and_what_is_no_url() {
    assert!(ReplicaUrl::parse_from("ftp://example.org").is_err());
    assert!(ReplicaUrl::parse_from("not a url").is_err());
    assert!(ReplicaUrl::parse_from("").is_err());
}

#[test]
fn from_parts_decides_by_scheme_host_port_and_path() {
    let parts = UrlParts {
        scheme: "tcp".to_string(),
        host: Some("h".to_string()),
        port: Some(1),
        has_path_segments: false,
        serialization: "tcp://h:1".to_string(),
    };
    assert!(matches!(ReplicaUrl::from_parts(parts), Ok(ReplicaUrl::Tcp(host, 1)) if host == "h"));
    let parts = UrlParts {
        scheme: "icmp".to_string(),
        host: None,
        port: None,
        has_path_segments: false,
        serialization: "icmp:".to_string(),
    };
    assert!(ReplicaUrl::from_parts(parts).is_err());
    let parts = UrlParts {
        scheme: "gopher".to_string(),
        host: Some("h".to_string()),
        port: None,
        has_path_segments: false,
        serialization: "gopher://h".to_string(),
    };
    assert!(ReplicaUrl::from_parts(parts).is_err());
}

#[test]
fn replica_url_clone_is_the_same_target() {
    let url = ReplicaUrl::parse_from("tcp://h:9").unwrap();
    let copy = url.clone();
    assert!(matches!(copy, ReplicaUrl::Tcp(host, 9) if host == "h"));
}
