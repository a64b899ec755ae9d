use serwasm::address::{
    endpoint_from_resolution, endpoint_uri, redis_host_port, redis_url, redis_url_from_resolution,
    unresolved_message,
};

#[test]
fn host_port_strips_scheme_and_trailing_slash() {
    assert_eq!(redis_host_port("redis://redis-cart:6379/"), "redis-cart:6379");
}

#[test]
fn host_port_without_scheme_is_kept() {
    assert_eq!(redis_host_port("redis-cart:6379"), "redis-cart:6379");
}

#[test]
fn host_port_trims_every_trailing_slash() {
    assert_eq!(redis_host_port("redis://10.0.0.7:6379///"), "10.0.0.7:6379");
    assert_eq!(redis_host_port("cache:6379//"), "cache:6379");
}

#[test]
fn host_port_strips_the_scheme_once_only() {
    assert_eq!(redis_host_port("redis://redis://x:1/"), "redis://x:1");
}

#[test]
fn host_port_of_other_scheme_is_not_stripped() {
    assert_eq!(redis_host_port("rediss://x:1"), "rediss://x:1");
    assert_eq!(redis_host_port("redis:/x"), "redis:/x");
}

#[test]
fn host_port_edge_cases() {
    assert_eq!(redis_host_port(""), "");
    assert_eq!(redis_host_port("redis://"), "");
    assert_eq!(redis_host_port("///"), "");
    assert_eq!(redis_host_port("rédis:6379/"), "rédis:6379");
}

#[test]
fn redis_url_wraps_socket_address() {
    assert_eq!(redis_url("10.96.0.12:6379"), "redis://10.96.0.12:6379/");
    assert_eq!(redis_url("[::1]:6379"), "redis://[::1]:6379/");
}

#[test]
fn redis_url_round_trips_through_host_port() {
    let url = redis_url("10.96.0.12:6379");
    assert_eq!(redis_host_port(&url), "10.96.0.12:6379");
}

#[test]
fn endpoint_uri_prefixes_http() {
    assert_eq!(endpoint_uri("10.96.3.4:3550"), "http://10.96.3.4:3550");
}

#[test]
fn host_port_is_idempotent_on_trimmed_text() {
    let once = redis_host_port("cache:6379///");
    assert_eq!(redis_host_port(once), once);
}

#[test]
fn unresolved_address_message_quotes_the_configured_address() {
    assert_eq!(unresolved_message("redis://127.0.0.1/"), "cannot resolve redis://127.0.0.1/");
    assert_eq!(
        redis_url_from_resolution("redis://127.0.0.1/", None),
        Err("cannot resolve redis://127.0.0.1/".to_string())
    );
}

#[test]
fn resolved_address_gives_url_and_endpoint() {
    assert_eq!(
        redis_url_from_resolution("redis-cart:6379", Some("10.0.0.3:6379")),
        Ok("redis://10.0.0.3:6379/".to_string())
    );
    assert_eq!(
        endpoint_from_resolution("localhost:3550", Some("127.0.0.1:3550")),
        Ok("http://127.0.0.1:3550".to_string())
    );
    assert_eq!(
        endpoint_from_resolution("nowhere:1", None),
        Err("cannot resolve nowhere:1".to_string())
    );
}

#[test]
fn built_url_is_a_fixed_point() {
    let url = redis_url("10.0.0.3:6379");
    assert_eq!(redis_url(redis_host_port(&url)), url);
}
