//! Two-phase graceful shutdown for servers that run many long-lived connections.
//!
//! A [`ConnectionManager`] hands every accepted connection a subscription to two
//! broadcast signals and a counting handle. Shutting down first asks every
//! connection to finish up, waits a bounded time for them to drain, then forces
//! the stragglers closed and reports how many connections left by each path.
//!
//! The signals and the counter are tokio channels. They are shared state that the
//! verifier cannot look into, so their bindings in [`signal`], [`tracker`] and
//! [`task`] are trusted; everything the library decides around them is verified,
//! [`protocol`] describes the protocol they add up to, and [`guarantees`] proves
//! what it promises.

pub mod connection;
pub mod guarantees;
pub mod manager;
pub mod protocol;
pub mod signal;
pub mod task;
pub mod tracker;

pub use connection::ConnectionState;
pub use connection::ForcefullyClosed;
pub use connection::GracefulConnection;
pub use manager::ConnectionManager;
pub use manager::GracefulShutdownResult;
pub use manager::Shutdown;
pub use manager::ShutdownProgress;
