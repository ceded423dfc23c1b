//! Failures of an execution.

use vstd::prelude::*;

use crate::packet::ErrPacket;

verus! {

/// Why an execution failed.
#[derive(Clone, Debug)]
pub enum ExecuteError {
    /// A command was started while another was still outstanding on the
    /// connection: the wire sequence would be corrupted.
    CommandInProgress,
    /// A packet arrived that does not fit the phase of the response.
    UnexpectedPacket,
    /// The response ended before its last statement outcome.
    Incomplete,
    /// The server reported an error for one of the statements.
    Server(ErrPacket),
}

} // verus!
