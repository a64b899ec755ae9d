use redis::{ErrorKind, RedisError};
use serwasm::connection::{ConnectStep, ConnectionCache};

fn io_failure(kind: std::io::ErrorKind, text: &str) -> RedisError {
    RedisError::from(std::io::Error::new(kind, text.to_string()))
}

fn ready(conn: u32) -> ConnectionCache<u32> {
    let mut cache: ConnectionCache<u32> = ConnectionCache::new();
    assert!(matches!(cache.next_step(), ConnectStep::Dial));
    assert_eq!(cache.accept_dialed(Ok(conn)), Ok(conn));
    cache
}

#[test]
fn empty_cache_asks_to_dial() {
    let mut cache: ConnectionCache<u32> = ConnectionCache::new();
    assert!(!cache.is_connected());
    assert!(matches!(cache.next_step(), ConnectStep::Dial));
}

#[test]
fn second_caller_waits_while_dialling() {
    let mut cache: ConnectionCache<u32> = ConnectionCache::new();
    assert!(matches!(cache.next_step(), ConnectStep::Dial));
    assert!(matches!(cache.next_step(), ConnectStep::Wait));
    assert!(matches!(cache.next_step(), ConnectStep::Wait));
    assert_eq!(cache.accept_dialed(Ok(4)), Ok(4));
    assert!(matches!(cache.next_step(), ConnectStep::Reuse(4)));
}

#[test]
fn dialed_connection_is_cached_and_reused() {
    let mut cache = ready(7);
    assert!(cache.is_connected());
    assert!(matches!(cache.next_step(), ConnectStep::Reuse(7)));
    assert!(matches!(cache.next_step(), ConnectStep::Reuse(7)));
}

#[test]
fn failed_dial_empties_cache_for_a_new_dial() {
    let mut cache: ConnectionCache<u32> = ConnectionCache::new();
    assert!(matches!(cache.next_step(), ConnectStep::Dial));
    assert_eq!(cache.accept_dialed(Err("refused".to_string())), Err("refused".to_string()));
    assert!(matches!(cache.next_step(), ConnectStep::Dial));
}

#[test]
fn abandoned_dial_lets_the_next_caller_dial() {
    let mut cache: ConnectionCache<u32> = ConnectionCache::new();
    assert!(matches!(cache.next_step(), ConnectStep::Dial));
    cache.abandon_dial();
    assert!(matches!(cache.next_step(), ConnectStep::Dial));
}

#[test]
fn late_dial_keeps_the_cached_connection() {
    let mut cache = ready(1);
    assert_eq!(cache.accept_dialed(Ok(2)), Ok(1));
    assert_eq!(cache.accept_dialed(Err("late".to_string())), Ok(1));
    cache.abandon_dial();
    assert!(matches!(cache.next_step(), ConnectStep::Reuse(1)));
}

#[test]
fn invalidate_if_clears_only_on_broken_connection() {
    let mut cache = ready(3);
    assert!(!cache.invalidate_if(false, false));
    assert!(cache.is_connected());
    assert!(cache.invalidate_if(true, false));
    assert!(!cache.is_connected());
    let mut cache = ready(4);
    assert!(cache.invalidate_if(false, true));
    assert!(!cache.is_connected());
    let mut cache = ready(5);
    assert!(cache.invalidate_if(true, true));
    assert!(!cache.is_connected());
    assert!(!cache.invalidate_if(true, true));
}

#[test]
fn failure_during_a_dial_keeps_the_dial() {
    let mut cache: ConnectionCache<u32> = ConnectionCache::new();
    assert!(matches!(cache.next_step(), ConnectStep::Dial));
    assert!(!cache.invalidate_if(true, true));
    assert!(matches!(cache.next_step(), ConnectStep::Wait));
}

#[test]
fn io_failure_drops_connection_and_returns_text() {
    let mut cache = ready(9);
    let text = cache.record_failure(io_failure(std::io::ErrorKind::ConnectionReset, "peer reset"));
    assert_eq!(text, "peer reset");
    assert!(matches!(cache.next_step(), ConnectStep::Dial));
}

#[test]
fn other_io_failure_also_drops_connection() {
    let mut cache = ready(9);
    let text = cache.record_failure(io_failure(std::io::ErrorKind::Other, "disk"));
    assert_eq!(text, "disk");
    assert!(!cache.is_connected());
}

#[test]
fn type_error_keeps_connection() {
    let mut cache = ready(9);
    let err = RedisError::from((ErrorKind::UnexpectedReturnType, "bad value"));
    let expected = err.to_string();
    let text = cache.record_failure(err);
    assert_eq!(text, expected);
    assert!(text.contains("bad value"));
    assert!(matches!(cache.next_step(), ConnectStep::Reuse(9)));
}

#[test]
fn general_io_kind_drops_connection() {
    let mut cache = ready(9);
    let text = cache.record_failure(RedisError::from((ErrorKind::Io, "closed")));
    assert!(text.contains("closed"));
    assert!(!cache.is_connected());
}

#[test]
fn dialed_connection_survives_non_breaking_failures() {
    let mut cache = ready(11);
    for _ in 0..3 {
        cache.record_failure(RedisError::from((ErrorKind::Client, "bad request")));
        assert!(matches!(cache.next_step(), ConnectStep::Reuse(11)));
    }
    cache.record_failure(io_failure(std::io::ErrorKind::BrokenPipe, "pipe"));
    assert!(matches!(cache.next_step(), ConnectStep::Dial));
    cache.record_failure(RedisError::from((ErrorKind::Client, "bad request")));
    assert!(matches!(cache.next_step(), ConnectStep::Wait));
}
