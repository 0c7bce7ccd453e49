//! The outside failure values that the library carries without reading them.

use vstd::prelude::*;

verus! {

/// `std::io::Error`, the cause of a failed operating-system call. Nothing is
/// claimed of what it holds: the library only hands it on.
#[verifier::external_type_specification]
#[verifier::external_body]
pub struct ExIoError(std::io::Error);

/// `bitcoincore_rpc::Error`, the cause of a failed request to the node.
/// Nothing is claimed of what it holds: the library only hands it on.
#[verifier::external_type_specification]
#[verifier::external_body]
pub struct ExRpcError(bitcoincore_rpc::Error);

} // verus!
