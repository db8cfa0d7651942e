pub mod rate_limit;
pub mod request_id;
pub mod security;

pub use rate_limit::RateLimiter;
pub use request_id::{RequestId, RequestIdMiddleware};
pub use security::configure_cors;
