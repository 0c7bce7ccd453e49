//! The failures a launch or a stop can end in.

use vstd::prelude::*;

verus! {

/// All the possible errors of this crate.
#[derive(Debug)]
pub enum LaunchError {
    /// An operating-system call failed: creating the working directory,
    /// reserving a port, starting the process or waiting for its exit.
    Io(std::io::Error),
    /// An authenticated request to the node failed for good.
    Rpc(bitcoincore_rpc::Error),
    /// The node did not become ready within the polls that the caller allowed.
    Timeout,
    /// The fixture is not in a state in which the node may be spoken to: it is
    /// being stopped, was stopped, or was discarded.
    NotRunning,
}

impl From<std::io::Error> for LaunchError {
    fn from(e: std::io::Error) -> (r: LaunchError) {
        LaunchError::Io(e)
    }
}

impl vstd::std_specs::convert::FromSpecImpl<std::io::Error> for LaunchError {
    open spec fn obeys_from_spec() -> bool {
        true
    }

    open spec fn from_spec(e: std::io::Error) -> LaunchError {
        LaunchError::Io(e)
    }
}

impl From<bitcoincore_rpc::Error> for LaunchError {
    fn from(e: bitcoincore_rpc::Error) -> (r: LaunchError) {
        LaunchError::Rpc(e)
    }
}

impl vstd::std_specs::convert::FromSpecImpl<bitcoincore_rpc::Error> for LaunchError {
    open spec fn obeys_from_spec() -> bool {
        true
    }

    open spec fn from_spec(e: bitcoincore_rpc::Error) -> LaunchError {
        LaunchError::Rpc(e)
    }
}

} // verus!
