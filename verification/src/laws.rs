//! What holds of every run of child completions against one context.
//!
//! A run is the context it starts from and what the fan-out logic writes
//! into the status while it lasts. Completions are counted from zero;
//! `writes[k]` is the status written just before completion `k` is recorded,
//! `None` where nothing is written then. Past the end of `writes` nothing is
//! written any more.

use vstd::prelude::*;

use crate::error::BioError;
use crate::io_status;
use crate::nio_ctx::{Completion, NioCtx};

verus! {

/// What is written into the status just before completion `k`.
pub open spec fn write_before(writes: Seq<Option<i32>>, k: int) -> Option<i32> {
    if 0 <= k < writes.len() {
        writes[k]
    } else {
        None
    }
}

/// The context as completion `k` of the run finds it.
pub open spec fn seen_by(ctx: NioCtx, writes: Seq<Option<i32>>, k: int) -> NioCtx
    decreases k,
{
    let reached = if k <= 0 {
        ctx
    } else {
        seen_by(ctx, writes, k - 1).spec_after_child()
    };
    match write_before(writes, k) {
        Some(status) => NioCtx { in_flight: reached.in_flight, status },
        None => reached,
    }
}

/// What recording completion `k` of the run decides.
pub open spec fn outcome(ctx: NioCtx, writes: Seq<Option<i32>>, k: int) -> Result<
    Option<Completion>,
    BioError,
> {
    seen_by(ctx, writes, k).spec_verdict()
}

/// Whether a write records a failure: it writes a status below pending.
pub open spec fn records_failure(write: Option<i32>) -> bool {
    match write {
        Some(status) => io_status::spec_is_failure(status),
        None => false,
    }
}

/// Whether a write leaves a recorded failure standing: it writes nothing, or
/// a status below pending again.
pub open spec fn keeps_failure(write: Option<i32>) -> bool {
    match write {
        Some(status) => io_status::spec_is_failure(status),
        None => true,
    }
}

/// The counter that completion `k` finds has gone down by one for each
/// completion before it, and has stopped at -1.
pub proof fn lemma_counter_seen(ctx: NioCtx, writes: Seq<Option<i32>>, k: int)
    requires
        0 <= ctx.in_flight,
        0 <= k,
    ensures
        seen_by(ctx, writes, k).in_flight == if k <= ctx.in_flight {
            ctx.in_flight - k
        } else {
            -1
        },
    decreases k,
{
    if k > 0 {
        lemma_counter_seen(ctx, writes, k - 1);
    }
}

/// Where nothing is written up to completion `k`, it finds the status the
/// run started with.
pub proof fn lemma_status_kept(ctx: NioCtx, writes: Seq<Option<i32>>, k: int)
    requires
        0 <= k,
        forall|i: int| 0 <= i <= k ==> (#[trigger] write_before(writes, i)) is None,
    ensures
        seen_by(ctx, writes, k).status == ctx.status,
    decreases k,
{
    if k > 0 {
        lemma_status_kept(ctx, writes, k - 1);
    }
}

/// A failure recorded before completion `j` is still found by completion
/// `k`, if every write between the two leaves it standing.
pub proof fn lemma_failure_kept(ctx: NioCtx, writes: Seq<Option<i32>>, j: int, k: int)
    requires
        0 <= j <= k,
        records_failure(write_before(writes, j)),
        forall|i: int| j < i <= k ==> keeps_failure(#[trigger] write_before(writes, i)),
    ensures
        io_status::spec_is_failure(seen_by(ctx, writes, k).status),
    decreases k,
{
    if k > j {
        lemma_failure_kept(ctx, writes, j, k - 1);
    }
}

/// A request is completed exactly once. Of a run against a context with
/// `n >= 1` children outstanding, completion `n - 1`, which brings the
/// counter to zero, issues the terminal completion; none before it issues
/// anything, and each one after it is reported as one too many. The terminal
/// completion is a failure if and only if the status is below pending at
/// that moment, and a success with nothing amiss otherwise.
pub proof fn law_completed_exactly_once(ctx: NioCtx, writes: Seq<Option<i32>>)
    requires
        1 <= ctx.in_flight,
    ensures
        forall|k: int|
            0 <= k < ctx.in_flight - 1 ==> #[trigger] outcome(ctx, writes, k) == Ok::<_, BioError>(
                None::<Completion>,
            ),
        outcome(ctx, writes, ctx.in_flight - 1) == if io_status::spec_is_failure(
            seen_by(ctx, writes, ctx.in_flight - 1).status,
        ) {
            Ok::<_, BioError>(Some(Completion::Failure))
        } else {
            Ok::<_, BioError>(Some(Completion::clean_success()))
        },
        forall|k: int|
            ctx.in_flight <= k ==> #[trigger] outcome(ctx, writes, k) == Err::<Option<Completion>, _>(
                BioError::DoubleCompletion,
            ),
{
    assert forall|k: int| 0 <= k implies #[trigger] seen_by(ctx, writes, k).in_flight == if k
        <= ctx.in_flight {
        ctx.in_flight - k
    } else {
        -1
    } by {
        lemma_counter_seen(ctx, writes, k);
    }
}

/// With `n >= 1` children outstanding, a status of success and nobody
/// writing the status, `n` completions issue exactly one completion: a
/// success with nothing amiss, on the last of them.
pub proof fn law_success_on_last_child(n: i8)
    requires
        1 <= n,
    ensures
        forall|k: int|
            0 <= k < n - 1 ==> #[trigger] outcome(
                NioCtx { in_flight: n, status: io_status::SUCCESS },
                Seq::empty(),
                k,
            ) == Ok::<_, BioError>(None::<Completion>),
        outcome(NioCtx { in_flight: n, status: io_status::SUCCESS }, Seq::empty(), n - 1) == Ok::<
            _,
            BioError,
        >(Some(Completion::clean_success())),
{
    let ctx = NioCtx { in_flight: n, status: io_status::SUCCESS };
    law_completed_exactly_once(ctx, Seq::empty());
    lemma_status_kept(ctx, Seq::empty(), n - 1);
}

/// Failure dominates. With `n >= 1` children outstanding, once a failure has
/// been recorded before some completion `j` of the first `n`, and every
/// later write leaves it standing, the `n` completions issue exactly one
/// completion: a failure, on the last of them. Neither `j` nor the status
/// the run started with matters.
pub proof fn law_failure_dominates(ctx: NioCtx, writes: Seq<Option<i32>>, j: int)
    requires
        1 <= ctx.in_flight,
        0 <= j < ctx.in_flight,
        records_failure(write_before(writes, j)),
        forall|k: int| j < k < ctx.in_flight ==> keeps_failure(#[trigger] write_before(writes, k)),
    ensures
        forall|k: int|
            0 <= k < ctx.in_flight - 1 ==> #[trigger] outcome(ctx, writes, k) == Ok::<_, BioError>(
                None::<Completion>,
            ),
        outcome(ctx, writes, ctx.in_flight - 1) == Ok::<_, BioError>(Some(Completion::Failure)),
{
    law_completed_exactly_once(ctx, writes);
    lemma_failure_kept(ctx, writes, j, ctx.in_flight - 1);
}

/// The counter has a floor. A context whose counter is at least -1 never
/// sees it go below, however many completions are recorded; and every
/// completion beyond those that were outstanding at the start is reported as
/// one too many.
pub proof fn law_counter_floor(ctx: NioCtx, writes: Seq<Option<i32>>, k: int)
    requires
        -1 <= ctx.in_flight,
        0 <= k,
    ensures
        -1 <= seen_by(ctx, writes, k).in_flight,
        -1 <= seen_by(ctx, writes, k).spec_after_child().in_flight,
        ctx.in_flight <= k ==> outcome(ctx, writes, k) == Err::<Option<Completion>, _>(
            BioError::DoubleCompletion,
        ),
    decreases k,
{
    if ctx.in_flight >= 0 {
        lemma_counter_seen(ctx, writes, k);
    } else if k > 0 {
        law_counter_floor(ctx, writes, k - 1);
    }
}

} // verus!
