//! Decoded protocol packets, as the packet channel hands them over.

use vstd::prelude::*;

verus! {

/// Server status bit: another statement outcome follows the current one.
pub const MORE_RESULTS_EXISTS: u16 = 0x0008;

/// The success summary of one statement (an OK packet, or the terminal
/// packet of a result set).
#[derive(Clone, Copy, Debug, PartialEq, Eq, Structural)]
pub struct OkPacket {
    pub affected_rows: u64,
    pub last_insert_id: u64,
    pub status: u16,
    pub warnings: u16,
}

/// An error reported by the server in place of a statement's success.
#[derive(Clone, Debug)]
pub struct ErrPacket {
    pub code: u16,
    pub message: String,
}

/// One packet of a query response, decoded as the phase of the response
/// asked for.
#[derive(Clone, Debug)]
pub enum Packet {
    /// A statement's success outcome.
    Success(OkPacket),
    /// A statement's failure outcome.
    Error(ErrPacket),
    /// Start of a result set that declares `columns` column definitions.
    ResultSetHeader { columns: u64 },
    /// One column definition of a result set; its content is not kept.
    Column,
    /// One data row of a result set; its content is not kept.
    Row,
}

/// Whether the server announced a further outcome after this one.
pub open spec fn more_results_spec(ok: OkPacket) -> bool {
    ok.status & MORE_RESULTS_EXISTS != 0
}

impl OkPacket {
    /// Tests the "more results exist" status bit.
    pub fn more_results(&self) -> (r: bool)
        ensures
            r == more_results_spec(*self),
    {
        self.status & MORE_RESULTS_EXISTS != 0
    }
}

} // verus!
