//! Decisions of a fixture that runs a regtest `bitcoind` for integration tests.
//!
//! The fixture creates a working directory, reserves ports, starts the node,
//! polls it until it answers, creates the default wallet, and in the end stops
//! or kills the node and removes the directory. This library decides what is
//! done, in which order, and what follows from each outcome; it touches
//! neither the file system nor the network. A driver carries out each
//! [`protocol::Request`] and hands back a [`protocol::Reply`].

pub mod addr;
pub mod cause;
pub mod config;
pub mod error;
pub mod handle;
pub mod launch;
pub mod protocol;
pub mod text;

pub use config::{Config, P2P};
pub use error::LaunchError;
pub use handle::BitcoinD;
pub use launch::{Launch, DEFAULT_ARGS};
