//! Remote administration of a VPN daemon: a signed configuration text is
//! authenticated against one trusted ed25519 key, written to the daemon's
//! configuration file and applied by reloading the daemon.
//!
//! The modules hold the decisions of that service; reading the environment,
//! touching the file system, spawning the reload command and serving HTTP are
//! left to the program that links this library.

pub mod bind;
pub mod encoding;
pub mod persist;
pub mod pipeline;
pub mod reload;
pub mod reply;
pub mod signature;
