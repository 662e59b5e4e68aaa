//! Small utilities.

pub mod rate_limiter;

pub use rate_limiter::RateLimiter;
