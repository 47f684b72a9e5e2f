//! The configuration policy: the listen address falls back to a default
//! when none is configured, and the connection pool is bounded with a fixed
//! acquisition timeout. The process environment itself is read by the
//! server shell, which hands the values here as plain options.

use vstd::prelude::*;

verus! {

/// The configured listen address, or the default when none is set.
pub fn server_address_or_default(configured: Option<String>) -> (r: String)
    ensures
        match configured {
            Option::Some(a) => r@ == a@,
            Option::None => r@ == "127.0.0.1:3000"@,
        },
{
    match configured {
        Option::Some(a) => a,
        Option::None => "127.0.0.1:3000".to_owned(),
    }
}

/// The fixed upper bound on pooled database connections.
pub fn pool_max_connections() -> (r: u32)
    ensures
        r == 10,
{
    10
}

/// The fixed connection-acquisition timeout, in seconds; requests beyond
/// the pool's capacity wait this long for a connection before failing.
pub fn pool_acquire_timeout_secs() -> (r: u64)
    ensures
        r == 5,
{
    5
}

/// The plain-text answer of the root route.
pub fn root_message() -> (r: &'static str)
    ensures
        r@ == "Up and Running"@,
{
    "Up and Running"
}

} // verus!
