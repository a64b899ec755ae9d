use serwasm::settings::{
    default_catalog_addr, default_redis_addr, setting_or, CART_PORT, RECOMMENDATION_PORT,
    SYNTHETIC_PORT,
};

#[test]
fn service_default_ports() {
    assert_eq!(CART_PORT, 7070);
    assert_eq!(RECOMMENDATION_PORT, 8080);
    assert_eq!(SYNTHETIC_PORT, 50055);
}

#[test]
fn default_addresses() {
    assert_eq!(default_redis_addr(), "redis-cart:6379");
    assert_eq!(default_catalog_addr(), "localhost:3550");
}

#[test]
fn given_setting_wins_over_default() {
    assert_eq!(setting_or(Some("redis:6380".to_string()), "redis-cart:6379"), "redis:6380");
    assert_eq!(setting_or(Some(String::new()), "x"), "");
}

#[test]
fn absent_setting_takes_default() {
    assert_eq!(setting_or(None, "localhost:3550"), "localhost:3550");
}
