//! The aggregate of all statement outcomes of one execution.

use vstd::prelude::*;

use crate::packet::OkPacket;

verus! {

/// `a + b`, held at `u64::MAX` where it would not fit.
pub open spec fn sat_add_u64(a: int, b: int) -> u64 {
    if a + b > u64::MAX {
        u64::MAX
    } else {
        (a + b) as u64
    }
}

/// `a + b`, held at `u16::MAX` where it would not fit.
pub open spec fn sat_add_u16(a: int, b: int) -> u16 {
    if a + b > u16::MAX {
        u16::MAX
    } else {
        (a + b) as u16
    }
}

/// Summed affected rows and warnings, the last insert id observed, and
/// the union of all status bits. Counts saturate at their type's maximum.
#[derive(Clone, Copy, Debug, PartialEq, Eq, Structural)]
pub struct AggregatedResult {
    pub affected_rows: u64,
    pub last_insert_id: u64,
    pub status: u16,
    pub warnings: u16,
}

/// The aggregate before any outcome.
pub open spec fn empty_result() -> AggregatedResult {
    AggregatedResult { affected_rows: 0, last_insert_id: 0, status: 0, warnings: 0 }
}

/// `acc` with one more statement outcome folded in.
pub open spec fn folded(acc: AggregatedResult, ok: OkPacket) -> AggregatedResult {
    AggregatedResult {
        affected_rows: sat_add_u64(acc.affected_rows as int, ok.affected_rows as int),
        last_insert_id: ok.last_insert_id,
        status: acc.status | ok.status,
        warnings: sat_add_u16(acc.warnings as int, ok.warnings as int),
    }
}

/// `acc` with one more result-set row counted as affected.
pub open spec fn with_row(acc: AggregatedResult) -> AggregatedResult {
    AggregatedResult { affected_rows: sat_add_u64(acc.affected_rows as int, 1), ..acc }
}

/// `acc` with each outcome of `oks` folded in, in order.
pub open spec fn folded_all(acc: AggregatedResult, oks: Seq<OkPacket>) -> AggregatedResult
    decreases oks.len(),
{
    if oks.len() == 0 {
        acc
    } else {
        folded_all(folded(acc, oks[0]), oks.drop_first())
    }
}

/// The sum of the affected-row counts of `oks`.
pub open spec fn sum_affected(oks: Seq<OkPacket>) -> int
    decreases oks.len(),
{
    if oks.len() == 0 {
        0
    } else {
        oks[0].affected_rows + sum_affected(oks.drop_first())
    }
}

impl AggregatedResult {
    /// The aggregate before any outcome.
    pub fn new() -> (r: AggregatedResult)
        ensures
            r == empty_result(),
    {
        AggregatedResult { affected_rows: 0, last_insert_id: 0, status: 0, warnings: 0 }
    }

    /// Folds one statement outcome in: counts add, the last insert id is
    /// overwritten, status bits accumulate.
    pub fn fold(&mut self, ok: &OkPacket)
        ensures
            *final(self) == folded(*old(self), *ok),
    {
        self.affected_rows = self.affected_rows.saturating_add(ok.affected_rows);
        self.last_insert_id = ok.last_insert_id;
        self.status = self.status | ok.status;
        self.warnings = self.warnings.saturating_add(ok.warnings);
    }

    /// Counts one row of a result set as affected.
    pub fn count_row(&mut self)
        ensures
            *final(self) == with_row(*old(self)),
    {
        self.affected_rows = self.affected_rows.saturating_add(1);
    }
}

} // verus!
