//! The targets that a poll node can name.

use vstd::prelude::*;

use crate::text::same_text;

verus! {

/// What a poll node probes.
#[derive(Debug)]
pub enum ReplicaUrl {
    /// An ICMP echo to every address of a host.
    Icmp(String),
    /// A TCP connection to a host and port.
    Tcp(String, u16),
    /// An HTTP request to a URL.
    Http(String),
    /// An HTTPS request to a URL.
    Https(String),
}

/// A target with its texts as sequences of characters.
pub enum ReplicaUrlView {
    Icmp(Seq<char>),
    Tcp(Seq<char>, u16),
    Http(Seq<char>),
    Https(Seq<char>),
}

impl View for ReplicaUrl {
    type V = ReplicaUrlView;

    open spec fn view(&self) -> ReplicaUrlView {
        match self {
            ReplicaUrl::Icmp(host) => ReplicaUrlView::Icmp(host@),
            ReplicaUrl::Tcp(host, port) => ReplicaUrlView::Tcp(host@, *port),
            ReplicaUrl::Http(url) => ReplicaUrlView::Http(url@),
            ReplicaUrl::Https(url) => ReplicaUrlView::Https(url@),
        }
    }
}

impl Clone for ReplicaUrl {
    fn clone(&self) -> (copy: Self)
        ensures
            copy == *self,
    {
        match self {
            ReplicaUrl::Icmp(host) => ReplicaUrl::Icmp(host.clone()),
            ReplicaUrl::Tcp(host, port) => ReplicaUrl::Tcp(host.clone(), *port),
            ReplicaUrl::Http(url) => ReplicaUrl::Http(url.clone()),
            ReplicaUrl::Https(url) => ReplicaUrl::Https(url.clone()),
        }
    }
}

/// The parts of a parsed URL that decide what kind of target it is.
pub struct UrlParts {
    pub scheme: String,
    /// The host as text; an IPv6 address stands without brackets.
    pub host: Option<String>,
    /// The port, where the URL names one that is not its scheme's default.
    pub port: Option<u16>,
    /// Whether the path of the URL starts with a slash.
    pub has_path_segments: bool,
    /// The whole URL as the parser writes it.
    pub serialization: String,
}

/// The parts of a URL with their texts as sequences of characters.
pub struct UrlPartsView {
    pub scheme: Seq<char>,
    pub host: Option<Seq<char>>,
    pub port: Option<u16>,
    pub has_path_segments: bool,
    pub serialization: Seq<char>,
}

impl View for UrlParts {
    type V = UrlPartsView;

    open spec fn view(&self) -> UrlPartsView {
        UrlPartsView {
            scheme: self.scheme@,
            host: match self.host {
                Some(host) => Some(host@),
                None => None,
            },
            port: self.port,
            has_path_segments: self.has_path_segments,
            serialization: self.serialization@,
        }
    }
}

/// What `url::Url::parse` makes of a text: the parts of the URL, or nothing
/// where the text is no absolute URL.
pub uninterp spec fn parsed_url(raw_url: Seq<char>) -> Option<UrlPartsView>;

/// `url::Url::parse`, with the result taken apart by `scheme`, `host`,
/// `port`, `path_segments` and the conversion into a `String`.
#[verifier::external_body]
fn parse_url(raw_url: &str) -> (parts: Option<UrlParts>)
    ensures
        parsed_url(raw_url@) == match parts {
            Some(p) => Some(p@),
            None => None,
        },
{
    match url::Url::parse(raw_url) {
        Ok(url) => Some(UrlParts {
            scheme: url.scheme().to_string(),
            host: url.host().map(|host| match host {
                url::Host::Domain(domain) => domain.to_string(),
                url::Host::Ipv4(address) => address.to_string(),
                url::Host::Ipv6(address) => address.to_string(),
            }),
            port: url.port(),
            has_path_segments: url.path_segments().is_some(),
            serialization: url.into(),
        }),
        Err(_) => None,
    }
}

/// The target that a parsed URL names.
///
/// `icmp` takes a host and neither port nor path; `tcp` takes a host and a
/// port and no path; `http` and `https` take the URL as it is. Anything else
/// names no target.
pub open spec fn target_of(parts: Option<UrlPartsView>) -> Result<ReplicaUrlView, ()> {
    match parts {
        Some(p) => {
            if p.scheme == "icmp"@ {
                match (p.host, p.port, p.has_path_segments) {
                    (Some(host), None, false) => Ok(ReplicaUrlView::Icmp(host)),
                    _ => Err(()),
                }
            } else if p.scheme == "tcp"@ {
                match (p.host, p.port, p.has_path_segments) {
                    (Some(host), Some(port), false) => Ok(ReplicaUrlView::Tcp(host, port)),
                    _ => Err(()),
                }
            } else if p.scheme == "http"@ {
                Ok(ReplicaUrlView::Http(p.serialization))
            } else if p.scheme == "https"@ {
                Ok(ReplicaUrlView::Https(p.serialization))
            } else {
                Err(())
            }
        },
        None => Err(()),
    }
}

/// The view of a result of `parse_from`.
pub open spec fn target_view(target: Result<ReplicaUrl, ()>) -> Result<ReplicaUrlView, ()> {
    match target {
        Ok(url) => Ok(url@),
        Err(_) => Err(()),
    }
}

impl ReplicaUrl {
    /// The target that the parts of a URL name.
    pub fn from_parts(parts: UrlParts) -> (target: Result<ReplicaUrl, ()>)
        ensures
            target_view(target) == target_of(Some(parts@)),
    {
        let UrlParts { scheme, host, port, has_path_segments, serialization } = parts;
        if same_text(scheme.as_str(), "icmp") {
            match (host, port, has_path_segments) {
                (Some(host), None, false) => Ok(ReplicaUrl::Icmp(host)),
                _ => Err(()),
            }
        } else if same_text(scheme.as_str(), "tcp") {
            match (host, port, has_path_segments) {
                (Some(host), Some(port), false) => Ok(ReplicaUrl::Tcp(host, port)),
                _ => Err(()),
            }
        } else if same_text(scheme.as_str(), "http") {
            Ok(ReplicaUrl::Http(serialization))
        } else if same_text(scheme.as_str(), "https") {
            Ok(ReplicaUrl::Https(serialization))
        } else {
            Err(())
        }
    }

    /// Reads a target from its text.
    pub fn parse_from(raw_url: &str) -> (target: Result<ReplicaUrl, ()>)
        ensures
            target_view(target) == target_of(parsed_url(raw_url@)),
    {
        match parse_url(raw_url) {
            Some(parts) => ReplicaUrl::from_parts(parts),
            None => Err(()),
        }
    }
}

} // verus!
