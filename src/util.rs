//! The URL check made before any request leaves, and the handling of empty
//! query parameters.

use vstd::prelude::*;
use vstd::string::*;
use crate::ip::{
    IpAddress, addr_is_global, v4_link_local, v4_loopback, v4_multicast, v4_private,
    v4_this_network, v6_link_local, v6_loopback, v6_multicast, v6_unique_local, v6_unspecified,
};

verus! {

/// The host part of a parsed URL.
#[derive(Clone, Debug, PartialEq, Eq)]
pub enum Host {
    Domain(String),
    Ipv4([u8; 4]),
    Ipv6([u16; 8]),
}

/// What the URL check reads of a parsed absolute URL: its scheme, lower case
/// as URL parsing leaves it, and its host, if it has one.
#[derive(Clone, Debug, PartialEq, Eq)]
pub struct TargetUrl {
    pub scheme: String,
    pub host: Option<Host>,
}

pub open spec fn http_scheme() -> Seq<char> {
    seq!['h', 't', 't', 'p']
}

pub open spec fn https_scheme() -> Seq<char> {
    seq!['h', 't', 't', 'p', 's']
}

pub open spec fn localhost_name() -> Seq<char> {
    seq!['l', 'o', 'c', 'a', 'l', 'h', 'o', 's', 't']
}

/// Whether a host may be fetched from: a literal address only when it is
/// globally routable, a domain name unless it is `localhost`.
pub open spec fn host_allowed(h: Host) -> bool {
    match h {
        Host::Ipv4(o) => addr_is_global(IpAddress::V4(o)),
        Host::Ipv6(s) => addr_is_global(IpAddress::V6(s)),
        Host::Domain(d) => d@ != localhost_name(),
    }
}

/// Whether a URL may be fetched: its scheme is `http` or `https` and it has a
/// host that is allowed.
pub open spec fn url_allowed(url: TargetUrl) -> bool {
    (url.scheme@ == http_scheme() || url.scheme@ == https_scheme()) && match url.host {
        Some(h) => host_allowed(h),
        None => false,
    }
}

/// Decides whether a URL may be fetched. A domain name is let through here:
/// the addresses it resolves to are checked when the connection is made.
pub fn is_global_ip_url(url: &TargetUrl) -> (r: bool)
    ensures
        r == url_allowed(*url),
{
    proof {
        reveal_strlit("http");
        reveal_strlit("https");
        reveal_strlit("localhost");
        assert("http"@ =~= http_scheme());
        assert("https"@ =~= https_scheme());
        assert("localhost"@ =~= localhost_name());
    }
    let http = String::from_str("http");
    let https = String::from_str("https");
    if !(url.scheme == http || url.scheme == https) {
        return false;
    }
    match &url.host {
        Some(Host::Ipv4(o)) => IpAddress::V4(*o).is_global(),
        Some(Host::Ipv6(s)) => IpAddress::V6(*s).is_global(),
        Some(Host::Domain(d)) => {
            let localhost = String::from_str("localhost");
            !(*d == localhost)
        },
        None => false,
    }
}

/// A query parameter that is absent or empty counts as absent.
pub fn empty_string_as_none(param: Option<String>) -> (r: Option<String>)
    ensures
        r == (match param {
            Some(s) => if s@.len() == 0 { None } else { Some(s) },
            None => None,
        }),
{
    match param {
        Some(s) => {
            if s.as_str().unicode_len() == 0 {
                None
            } else {
                Some(s)
            }
        },
        None => None,
    }
}

/// An address in one of the ranges that must never be reached: loopback,
/// link-local, private use, unique local, multicast or unspecified.
pub open spec fn host_in_blocked_range(h: Host) -> bool {
    match h {
        Host::Ipv4(o) => v4_loopback(o) || v4_link_local(o) || v4_private(o) || v4_multicast(o)
            || v4_this_network(o),
        Host::Ipv6(s) => v6_loopback(s) || v6_link_local(s) || v6_unique_local(s) || v6_multicast(
            s,
        ) || v6_unspecified(s),
        Host::Domain(_) => false,
    }
}

/// A URL whose host is a literal address in a blocked range is denied,
/// whatever its scheme.
pub proof fn lemma_blocked_literal_denied(url: TargetUrl)
    requires
        url.host matches Some(h) && host_in_blocked_range(h),
    ensures
        !url_allowed(url),
{
}

/// An `http` or `https` URL whose host is a literal public unicast address,
/// one outside every special-purpose range of `ip` (the blocked ranges, and
/// also shared, reserved, documentation, benchmarking, translation and
/// protocol-assignment ranges), is allowed.
pub proof fn lemma_public_literal_allowed(url: TargetUrl, a: IpAddress)
    requires
        url.scheme@ == http_scheme() || url.scheme@ == https_scheme(),
        addr_is_global(a),
        url.host == Some(
            match a {
                IpAddress::V4(o) => Host::Ipv4(o),
                IpAddress::V6(s) => Host::Ipv6(s),
            },
        ),
    ensures
        url_allowed(url),
{
}

/// A URL whose scheme is neither `http` nor `https` is denied, whatever its host.
pub proof fn lemma_other_scheme_denied(url: TargetUrl)
    requires
        url.scheme@ != http_scheme(),
        url.scheme@ != https_scheme(),
    ensures
        !url_allowed(url),
{
}

} // verus!
