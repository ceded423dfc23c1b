//! What holds of whole executions, proved over `run`, the meaning of
//! feeding a response to the executor packet by packet.

use vstd::prelude::*;

use crate::error::ExecuteError;
use crate::executor::{awaiting_first, run, Execution, Phase};
use crate::packet::{more_results_spec, ErrPacket, OkPacket, Packet};
use crate::result::{
    empty_result,
    folded,
    folded_all,
    sat_add_u64,
    sum_affected,
    AggregatedResult,
};

verus! {

/// The response packets that carry the outcomes `oks` directly.
pub open spec fn success_packets(oks: Seq<OkPacket>) -> Seq<Packet> {
    oks.map_values(|ok: OkPacket| Packet::Success(ok))
}

/// `n` packets of one kind.
pub open spec fn repeated(p: Packet, n: nat) -> Seq<Packet> {
    Seq::new(n, |i: int| p)
}

/// The machine waiting for a statement outcome, with `acc` so far.
pub open spec fn awaiting(acc: AggregatedResult) -> Execution {
    Execution { phase: Phase::AwaitingOutcome, result: acc }
}

/// Every outcome of `oks` but the last announces a further one, and the last
/// does not.
pub open spec fn is_batch(oks: Seq<OkPacket>) -> bool {
    &&& oks.len() > 0
    &&& forall|i: int| 0 <= i < oks.len() - 1 ==> more_results_spec(#[trigger] oks[i])
    &&& !more_results_spec(oks[oks.len() - 1])
}

proof fn lemma_sum_affected_nonneg(oks: Seq<OkPacket>)
    ensures
        sum_affected(oks) >= 0,
    decreases oks.len(),
{
    if oks.len() > 0 {
        lemma_sum_affected_nonneg(oks.drop_first());
    }
}

/// Folding a sequence in saturates the total of its affected rows, and
/// keeps the insert id of its last outcome.
proof fn lemma_folded_all(acc: AggregatedResult, oks: Seq<OkPacket>)
    ensures
        folded_all(acc, oks).affected_rows == sat_add_u64(
            acc.affected_rows as int,
            sum_affected(oks),
        ),
        oks.len() > 0 ==> folded_all(acc, oks).last_insert_id == oks[oks.len()
            - 1].last_insert_id,
    decreases oks.len(),
{
    if oks.len() > 0 {
        let rest = oks.drop_first();
        lemma_folded_all(folded(acc, oks[0]), rest);
        lemma_sum_affected_nonneg(rest);
        if rest.len() > 0 {
            assert(rest[rest.len() - 1] == oks[oks.len() - 1]);
        }
    }
}

proof fn lemma_folded_all_push(acc: AggregatedResult, oks: Seq<OkPacket>, ok: OkPacket)
    ensures
        folded_all(acc, oks.push(ok)) == folded(folded_all(acc, oks), ok),
    decreases oks.len(),
{
    if oks.len() > 0 {
        assert(oks.push(ok)[0] == oks[0]);
        assert(oks.push(ok).drop_first() =~= oks.drop_first().push(ok));
        lemma_folded_all_push(folded(acc, oks[0]), oks.drop_first(), ok);
    } else {
        assert(oks.push(ok).drop_first() =~= Seq::<OkPacket>::empty());
        assert(folded_all(folded(acc, ok), Seq::<OkPacket>::empty()) == folded(acc, ok));
    }
}

/// Outcomes that each announce a further one are folded in one packet each,
/// and the machine then waits for the next outcome.
proof fn lemma_run_through_outcomes(acc: AggregatedResult, oks: Seq<OkPacket>, tail: Seq<Packet>)
    requires
        forall|i: int| 0 <= i < oks.len() ==> more_results_spec(#[trigger] oks[i]),
    ensures
        run(awaiting(acc), success_packets(oks) + tail).0 == run(
            awaiting(folded_all(acc, oks)),
            tail,
        ).0,
        run(awaiting(acc), success_packets(oks) + tail).1 == run(
            awaiting(folded_all(acc, oks)),
            tail,
        ).1 + oks.len(),
    decreases oks.len(),
{
    let ps = success_packets(oks) + tail;
    if oks.len() > 0 {
        let rest = oks.drop_first();
        assert(ps[0] == Packet::Success(oks[0]));
        assert(ps.drop_first() =~= success_packets(rest) + tail);
        assert(more_results_spec(oks[0]));
        assert forall|i: int| 0 <= i < rest.len() implies more_results_spec(#[trigger] rest[i]) by {
            assert(rest[i] == oks[i + 1]);
        }
        lemma_run_through_outcomes(folded(acc, oks[0]), rest, tail);
    } else {
        assert(ps =~= tail);
    }
}

/// Draining `c` column definitions leaves the machine counting rows.
proof fn lemma_run_through_columns(acc: AggregatedResult, c: nat, tail: Seq<Packet>)
    requires
        1 <= c <= u64::MAX,
    ensures
        run(
            Execution { phase: Phase::Columns { remaining: c as u64 }, result: acc },
            repeated(Packet::Column, c) + tail,
        ).0 == run(Execution { phase: Phase::Rows, result: acc }, tail).0,
        run(
            Execution { phase: Phase::Columns { remaining: c as u64 }, result: acc },
            repeated(Packet::Column, c) + tail,
        ).1 == run(Execution { phase: Phase::Rows, result: acc }, tail).1 + c,
    decreases c,
{
    let ps = repeated(Packet::Column, c) + tail;
    assert(ps[0] == Packet::Column);
    assert(ps.drop_first() =~= repeated(Packet::Column, (c - 1) as nat) + tail);
    if c > 1 {
        lemma_run_through_columns(acc, (c - 1) as nat, tail);
    } else {
        assert(ps.drop_first() =~= tail);
    }
}

/// `k` rows are each counted as affected.
proof fn lemma_run_through_rows(acc: AggregatedResult, k: nat, tail: Seq<Packet>)
    ensures
        run(Execution { phase: Phase::Rows, result: acc }, repeated(Packet::Row, k) + tail).0
            == run(
            Execution {
                phase: Phase::Rows,
                result: AggregatedResult {
                    affected_rows: sat_add_u64(acc.affected_rows as int, k as int),
                    ..acc
                },
            },
            tail,
        ).0,
        run(Execution { phase: Phase::Rows, result: acc }, repeated(Packet::Row, k) + tail).1
            == run(
            Execution {
                phase: Phase::Rows,
                result: AggregatedResult {
                    affected_rows: sat_add_u64(acc.affected_rows as int, k as int),
                    ..acc
                },
            },
            tail,
        ).1 + k,
    decreases k,
{
    let ps = repeated(Packet::Row, k) + tail;
    if k > 0 {
        assert(ps[0] == Packet::Row);
        assert(ps.drop_first() =~= repeated(Packet::Row, (k - 1) as nat) + tail);
        let next = AggregatedResult {
            affected_rows: sat_add_u64(acc.affected_rows as int, 1),
            ..acc
        };
        lemma_run_through_rows(next, (k - 1) as nat, tail);
    } else {
        assert(ps =~= tail);
        assert(acc == AggregatedResult {
            affected_rows: sat_add_u64(acc.affected_rows as int, k as int),
            ..acc
        });
    }
}

proof fn lemma_batch_run(oks: Seq<OkPacket>, rest: Seq<Packet>)
    requires
        is_batch(oks),
    ensures
        run(awaiting_first(), success_packets(oks) + rest) == (
        Ok::<AggregatedResult, ExecuteError>(folded_all(empty_result(), oks)),
        oks.len(),
        ),
{
    let n = oks.len();
    let init = oks.subrange(0, n - 1);
    let last = oks[n - 1];
    let tail = seq![Packet::Success(last)] + rest;
    assert(oks =~= init.push(last));
    assert(success_packets(oks) + rest =~= success_packets(init) + tail);
    assert forall|i: int| 0 <= i < init.len() implies more_results_spec(#[trigger] init[i]) by {
        assert(init[i] == oks[i]);
    }
    lemma_run_through_outcomes(empty_result(), init, tail);
    lemma_folded_all_push(empty_result(), init, last);
    assert(tail[0] == Packet::Success(last));
}

/// A response of one outcome that announces no further one ends the
/// execution after that packet, with the server's affected-row count and
/// insert id.
pub proof fn lemma_single_outcome(ok: OkPacket, rest: Seq<Packet>)
    requires
        !more_results_spec(ok),
    ensures
        ({
            let out = run(awaiting_first(), seq![Packet::Success(ok)] + rest);
            &&& out.1 == 1
            &&& out.0 is Ok
            &&& out.0->Ok_0.affected_rows == ok.affected_rows
            &&& out.0->Ok_0.last_insert_id == ok.last_insert_id
        }),
{
    let ps = seq![Packet::Success(ok)] + rest;
    assert(ps[0] == Packet::Success(ok));
}

/// Rows of a result set are counted, not kept: after its header, its column
/// definitions and `k` rows, the terminal outcome ends the execution with
/// `k` rows affected on top of what that outcome reports.
pub proof fn lemma_result_set_rows_counted(
    columns: u64,
    k: nat,
    end: OkPacket,
    rest: Seq<Packet>,
)
    requires
        !more_results_spec(end),
    ensures
        ({
            let out = run(
                awaiting_first(),
                seq![Packet::ResultSetHeader { columns }] + repeated(Packet::Column, columns as nat)
                    + repeated(Packet::Row, k) + seq![Packet::Success(end)] + rest,
            );
            &&& out.1 == columns + k + 2
            &&& out.0 is Ok
            &&& out.0->Ok_0.affected_rows == sat_add_u64(k as int, end.affected_rows as int)
            &&& end.affected_rows == 0 && k <= u64::MAX ==> out.0->Ok_0.affected_rows == k
            &&& out.0->Ok_0.last_insert_id == end.last_insert_id
        }),
{
    let c = columns as nat;
    let after_rows = seq![Packet::Success(end)] + rest;
    let after_columns = repeated(Packet::Row, k) + after_rows;
    let ps = seq![Packet::ResultSetHeader { columns }] + repeated(Packet::Column, c)
        + repeated(Packet::Row, k) + seq![Packet::Success(end)] + rest;
    assert(ps[0] == Packet::ResultSetHeader { columns });
    assert(ps.drop_first() =~= repeated(Packet::Column, c) + after_columns);
    let acc = empty_result();
    if c > 0 {
        lemma_run_through_columns(acc, c, after_columns);
    } else {
        assert(repeated(Packet::Column, c) + after_columns =~= after_columns);
    }
    lemma_run_through_rows(acc, k, after_rows);
    assert(after_rows[0] == Packet::Success(end));
}

/// A batch of `n` outcomes, each but the last announcing a further one, is
/// folded in exactly `n` packets, one fold each; nothing after them is
/// read. The affected rows add up, saturating at `u64::MAX`.
pub proof fn lemma_batch_folds_each_outcome(oks: Seq<OkPacket>, rest: Seq<Packet>)
    requires
        is_batch(oks),
    ensures
        ({
            let out = run(awaiting_first(), success_packets(oks) + rest);
            &&& out.1 == oks.len()
            &&& out.0 == Ok::<AggregatedResult, ExecuteError>(folded_all(empty_result(), oks))
            &&& out.0->Ok_0.affected_rows == sat_add_u64(0, sum_affected(oks))
            &&& sum_affected(oks) <= u64::MAX ==> out.0->Ok_0.affected_rows == sum_affected(oks)
        }),
{
    lemma_batch_run(oks, rest);
    lemma_folded_all(empty_result(), oks);
    lemma_sum_affected_nonneg(oks);
}

/// A server error in the middle of a batch ends the execution with that
/// error, right after its packet: no later statement is read, and the
/// outcomes folded before it are not returned.
pub proof fn lemma_error_ends_batch(oks: Seq<OkPacket>, e: ErrPacket, rest: Seq<Packet>)
    requires
        forall|i: int| 0 <= i < oks.len() ==> more_results_spec(#[trigger] oks[i]),
    ensures
        run(awaiting_first(), success_packets(oks) + seq![Packet::Error(e)] + rest) == (
        Err::<AggregatedResult, ExecuteError>(ExecuteError::Server(e)),
        oks.len() + 1,
        ),
{
    let tail = seq![Packet::Error(e)] + rest;
    assert(success_packets(oks) + seq![Packet::Error(e)] + rest =~= success_packets(oks) + tail);
    lemma_run_through_outcomes(empty_result(), oks, tail);
    assert(tail[0] == Packet::Error(e));
}

/// For outcomes with the "more results" flag set on all but the last, the
/// aggregate's affected rows are the sum of theirs, and its insert id is
/// that of the last outcome (where the sum fits in a `u64`).
pub proof fn lemma_batch_sum_and_last_id(oks: Seq<OkPacket>)
    requires
        is_batch(oks),
        sum_affected(oks) <= u64::MAX,
    ensures
        ({
            let out = run(awaiting_first(), success_packets(oks));
            &&& out.0 is Ok
            &&& out.0->Ok_0.affected_rows == sum_affected(oks)
            &&& out.0->Ok_0.last_insert_id == oks[oks.len() - 1].last_insert_id
        }),
{
    let none = Seq::<Packet>::empty();
    assert(success_packets(oks) + none =~= success_packets(oks));
    lemma_batch_run(oks, none);
    lemma_folded_all(empty_result(), oks);
    lemma_sum_affected_nonneg(oks);
}

} // verus!
