//! Launch specifications for the Tailscale context server.
//!
//! A host editor asks, by identifier, how to start a context server. This
//! crate answers for the one identifier it knows and reports every other
//! identifier as unknown.

pub mod error;
pub mod launch;
pub mod resolver;

pub use error::UnknownServer;
pub use launch::{Command, CommandView, ContextServerId};
pub use resolver::TailscaleNetworkManagementExtension;
