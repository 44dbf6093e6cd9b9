//! Security controls: rate limiting, input sanitising and audio watermarking.

pub mod ratelimit;
pub mod sanitize;
pub mod watermark;

pub use ratelimit::RateLimiter;
pub use sanitize::sanitize_text;
