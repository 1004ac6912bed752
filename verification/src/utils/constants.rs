use vstd::prelude::*;

verus! {

/// The name of the cookie that carries the session token.
pub const JWT_COOKIE_NAME: &'static str = "jwt";

/// The host of the cache where none is configured.
pub const DEFAULT_REDIS_HOSTNAME: &'static str = "127.0.0.1";

/// How long a session token is good for, in seconds.
pub const TOKEN_TTL_SECONDS: u64 = 600;

} // verus!
