//! Data structures and runtimes for timer management.
//!
//! The crate holds the error types and the `Pendulum` abstraction for timer
//! wheels, and the decision logic of the futures based timer runtime: the
//! bounded request channel and mapping pool shared by clients and the backing
//! thread, the per-sleep protocol, and the backing thread's scheduling rules.

pub mod error;
pub mod future;
mod pendulum;

pub use pendulum::{create_token, retrieve_token, Pendulum, PendulumBuilder, Token};
