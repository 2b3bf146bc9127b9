//! Rate limiting of requests: every request is classified by a key, and a
//! replenishing quota per key decides whether it is let through.
//!
//! A [`GovernorConfigBuilder`] validates a quota and makes a
//! [`GovernorConfig`]; a [`Governor`] puts a [`GovernorMiddleware`] in front
//! of a service, which routes each request past the limiter, to failure, or
//! to a check of its key.
//!
//! The arithmetic of the quota ([`gcra`]) is verified. The concurrent map
//! that keeps one arrival time per key ([`store`]) and the monotonic clock
//! ([`clock`]) are those of the governor crate.

pub mod clock;
pub mod config;
pub mod gcra;
pub mod key_extractor;
pub mod limiter;
pub mod method;
pub mod middleware;
pub mod quota;
pub mod service;
pub mod store;
pub mod time;

pub use config::GovernorConfig;
pub use config::GovernorConfigBuilder;
pub use key_extractor::GlobalKeyExtractor;
pub use key_extractor::KeyExtractor;
pub use key_extractor::PeerIpKeyExtractor;
pub use service::Governor;
pub use service::GovernorMiddleware;
