use eclipse_api::endpoints::download::{check_target, decoded_target, target_from_params, Params};
use eclipse_api::errors::{fetch_failure, ApiError};
use eclipse_api::util::{empty_string_as_none, is_global_ip_url, Host, TargetUrl};

fn url(scheme: &str, host: Option<Host>) -> TargetUrl {
    TargetUrl { scheme: scheme.to_string(), host }
}

#[test]
fn literal_private_hosts_are_denied() {
    let hosts = vec![
        Host::Ipv4([127, 0, 0, 1]),
        Host::Ipv4([169, 254, 1, 1]),
        Host::Ipv4([10, 1, 2, 3]),
        Host::Ipv4([224, 0, 0, 251]),
        Host::Ipv4([0, 0, 0, 0]),
        Host::Ipv6([0, 0, 0, 0, 0, 0, 0, 1]),
        Host::Ipv6([0xfe80, 0, 0, 0, 0, 0, 0, 1]),
        Host::Ipv6([0xfd00, 0, 0, 0, 0, 0, 0, 1]),
        Host::Ipv6([0xff02, 0, 0, 0, 0, 0, 0, 1]),
        Host::Ipv6([0, 0, 0, 0, 0, 0, 0, 0]),
    ];
    for h in hosts {
        assert!(!is_global_ip_url(&url("http", Some(h.clone()))), "{:?}", h);
        assert!(!is_global_ip_url(&url("https", Some(h))));
    }
}

#[test]
fn literal_public_hosts_are_allowed() {
    assert!(is_global_ip_url(&url("http", Some(Host::Ipv4([8, 8, 8, 8])))));
    assert!(is_global_ip_url(&url("https", Some(Host::Ipv4([1, 1, 1, 1])))));
    assert!(is_global_ip_url(&url(
        "https",
        Some(Host::Ipv6([0x2606, 0x4700, 0, 0, 0, 0, 0, 0x1111]))
    )));
}

#[test]
fn other_schemes_are_denied() {
    for scheme in ["ftp", "file", "gopher", "httpx", "HTTP", ""] {
        assert!(!is_global_ip_url(&url(scheme, Some(Host::Ipv4([8, 8, 8, 8])))));
        assert!(!is_global_ip_url(&url(scheme, Some(Host::Domain("example.com".to_string())))));
    }
}

#[test]
fn domains_are_allowed_but_localhost_and_missing_hosts() {
    assert!(is_global_ip_url(&url("https", Some(Host::Domain("example.com".to_string())))));
    assert!(!is_global_ip_url(&url("http", Some(Host::Domain("localhost".to_string())))));
    assert!(!is_global_ip_url(&url("http", None)));
}

#[test]
fn check_target_hides_which_check_refused() {
    let private = url("http", Some(Host::Ipv4([10, 0, 0, 1])));
    let scheme = url("ftp", Some(Host::Ipv4([8, 8, 8, 8])));
    assert_eq!(check_target(&private), Err(ApiError::BlockedTarget));
    assert_eq!(check_target(&scheme), Err(ApiError::BlockedTarget));
    assert_eq!(check_target(&url("https", Some(Host::Ipv4([8, 8, 8, 8])))), Ok(()));
}

#[test]
fn missing_url_param_is_a_bad_request() {
    let r = target_from_params(&Params { url: None });
    assert_eq!(r, Err(ApiError::MissingQuery("missing url param")));
    let (status, message) = r.unwrap_err().into_response();
    assert_eq!(status, 400);
    assert_eq!(message, "missing url param");
}

#[test]
fn url_param_is_percent_decoded_once() {
    let p = Params { url: Some("https%3A%2F%2Fexample.com%2Fa%2520b".to_string()) };
    assert_eq!(target_from_params(&p), Ok("https://example.com/a%20b".to_string()));
    let plain = Params { url: Some("https://example.com/".to_string()) };
    assert_eq!(target_from_params(&plain), Ok("https://example.com/".to_string()));
}

#[test]
fn undecodable_url_param_is_an_error() {
    let p = Params { url: Some("https://example.com/%FF".to_string()) };
    assert_eq!(target_from_params(&p), Err(ApiError::InvalidUrl));
    assert_eq!(decoded_target(None), Err(ApiError::InvalidUrl));
    assert_eq!(decoded_target(Some("x".to_string())), Ok("x".to_string()));
}

#[test]
fn empty_params_count_as_absent() {
    assert_eq!(empty_string_as_none(None), None);
    assert_eq!(empty_string_as_none(Some(String::new())), None);
    assert_eq!(empty_string_as_none(Some("a".to_string())), Some("a".to_string()));
}

#[test]
fn each_error_has_its_status_and_message() {
    assert_eq!(ApiError::InvalidUrl.into_response(), (400, "invalid url".to_string()));
    assert_eq!(ApiError::BlockedTarget.into_response(), (400, "invalid url".to_string()));
    assert_eq!(
        ApiError::Upstream("connection refused (os error 111)".to_string()).into_response(),
        (502, "upstream fetch failed".to_string())
    );
    assert_eq!(
        ApiError::Relay("invalid header".to_string()).into_response(),
        (500, "unable to relay the response".to_string())
    );
    assert_eq!(
        ApiError::Sqlx("no such table: releases_fts".to_string()).into_response(),
        (500, "search failed".to_string())
    );
    assert_eq!(
        ApiError::MissingQuery("missing query param").into_response(),
        (400, "missing query param".to_string())
    );
}

#[test]
fn undecodable_and_blocked_urls_look_the_same() {
    let undecodable = target_from_params(&Params { url: Some("%FF".to_string()) }).unwrap_err();
    let blocked = check_target(&url("http", Some(Host::Ipv4([127, 0, 0, 1])))).unwrap_err();
    assert_eq!(undecodable.into_response(), blocked.into_response());
}

#[test]
fn failed_fetch_is_blocked_or_upstream() {
    assert_eq!(fetch_failure(true, "no globally routable address".to_string()), ApiError::BlockedTarget);
    assert_eq!(
        fetch_failure(false, "timed out".to_string()),
        ApiError::Upstream("timed out".to_string())
    );
}
