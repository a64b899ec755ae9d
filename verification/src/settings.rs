use vstd::prelude::*;

verus! {

/// The port the cart service listens on when `PORT` is not set.
pub const CART_PORT: u16 = 7070;

/// The port the recommendation service listens on when `PORT` is not set.
pub const RECOMMENDATION_PORT: u16 = 8080;

/// The port the synthetic-workload service listens on when `PORT` is not set.
pub const SYNTHETIC_PORT: u16 = 50055;

/// The Redis address used when `REDIS_ADDR` is not set.
pub fn default_redis_addr() -> (addr: &'static str)
    ensures
        addr@ == "redis-cart:6379"@,
{
    "redis-cart:6379"
}

/// The product-catalog address used when `PRODUCT_CATALOG_SERVICE_ADDR` is
/// not set.
pub fn default_catalog_addr() -> (addr: &'static str)
    ensures
        addr@ == "localhost:3550"@,
{
    "localhost:3550"
}

/// The value of a setting: the given one where present, else the default.
pub fn setting_or(value: Option<String>, default: &str) -> (s: String)
    ensures
        s@ == match value {
            Some(v) => v@,
            None => default@,
        },
{
    match value {
        Some(v) => v,
        None => default.to_owned(),
    }
}

} // verus!
