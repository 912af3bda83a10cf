//! Per-item outcomes of dispatched batches.
use vstd::prelude::*;
use crate::rpc::{count_error_markers, marker_count};

verus! {

/// `a + b`, stopping at `u64::MAX`.
pub open spec fn sat_add(a: nat, b: nat) -> nat {
    if a + b <= u64::MAX {
        a + b
    } else {
        u64::MAX as nat
    }
}

/// `a - b`, stopping at zero.
pub open spec fn sat_sub(a: nat, b: nat) -> nat {
    if a >= b {
        (a - b) as nat
    } else {
        0
    }
}

/// What became of one POST of a batch.
pub enum BatchOutcome {
    /// The request did not reach the endpoint or got no response.
    TransportError,
    /// The endpoint answered with a status outside `200..=299`.
    BadStatus(u16),
    /// The status was a success but the body could not be read.
    BodyUnreadable,
    /// The status was a success and this is the body.
    Delivered(Vec<u8>),
}

/// Items of dispatched batches that succeeded and that failed.
pub struct NetworkStats {
    requests: u64,
    errors: u64,
}

impl NetworkStats {
    pub closed spec fn requests_spec(&self) -> nat {
        self.requests as nat
    }

    pub closed spec fn errors_spec(&self) -> nat {
        self.errors as nat
    }

    pub fn new() -> (r: NetworkStats)
        ensures
            r.requests_spec() == 0,
            r.errors_spec() == 0,
    {
        NetworkStats { requests: 0, errors: 0 }
    }

    pub fn requests(&self) -> (r: u64)
        ensures
            r == self.requests_spec(),
    {
        self.requests
    }

    pub fn errors(&self) -> (r: u64)
        ensures
            r == self.errors_spec(),
    {
        self.errors
    }

    /// Counts `count` successful items; the total stops at `u64::MAX`.
    pub fn inc_requests_by(&mut self, count: usize)
        ensures
            final(self).requests_spec() == sat_add(old(self).requests_spec(), count as nat),
            final(self).errors_spec() == old(self).errors_spec(),
    {
        self.requests = self.requests.saturating_add(count as u64);
    }

    /// Counts `count` failed items; the total stops at `u64::MAX`.
    pub fn inc_errors_by(&mut self, count: usize)
        ensures
            final(self).errors_spec() == sat_add(old(self).errors_spec(), count as nat),
            final(self).requests_spec() == old(self).requests_spec(),
    {
        self.errors = self.errors.saturating_add(count as u64);
    }

    /// Accounts for one batch of `batch_len` items. When the body came back,
    /// each `"error":` in it is a failed item and the rest of the batch
    /// succeeded; otherwise every item failed. Returns whether the dispatcher
    /// should pause before its next batch, which it should after a failure.
    pub fn record_batch(&mut self, batch_len: usize, outcome: &BatchOutcome) -> (pause: bool)
        ensures
            batch_recorded(*old(self), *final(self), batch_len as nat, *outcome),
            pause <==> !(outcome is Delivered),
    {
        match outcome {
            BatchOutcome::Delivered(body) => {
                let failed = count_error_markers(body.as_slice());
                if failed > 0 {
                    self.inc_errors_by(failed);
                }
                let succeeded = if failed <= batch_len {
                    batch_len - failed
                } else {
                    0
                };
                self.inc_requests_by(succeeded);
                false
            },
            _ => {
                self.inc_errors_by(batch_len);
                true
            },
        }
    }
}

/// The items of a batch of `batch_len` that failed: those marked in the
/// body when it came back, else all of them.
pub open spec fn failed_items(batch_len: nat, outcome: BatchOutcome) -> nat {
    match outcome {
        BatchOutcome::Delivered(body) => marker_count(body@),
        _ => batch_len,
    }
}

/// How recording one batch changes the counters: the failed items are added
/// to the errors and the rest of the batch to the requests, both stopping at
/// `u64::MAX`.
pub open spec fn batch_recorded(
    before: NetworkStats,
    after: NetworkStats,
    batch_len: nat,
    outcome: BatchOutcome,
) -> bool {
    &&& after.errors_spec() == sat_add(before.errors_spec(), failed_items(batch_len, outcome))
    &&& after.requests_spec() == sat_add(
        before.requests_spec(),
        sat_sub(batch_len, failed_items(batch_len, outcome)),
    )
}

/// Failed items over the first `n` batches.
pub open spec fn total_failed(lens: Seq<nat>, outs: Seq<BatchOutcome>, n: nat) -> nat
    decreases n,
{
    if n == 0 {
        0
    } else {
        total_failed(lens, outs, (n - 1) as nat) + failed_items(lens[n - 1], outs[n - 1])
    }
}

/// Succeeded items over the first `n` batches.
pub open spec fn total_succeeded(lens: Seq<nat>, outs: Seq<BatchOutcome>, n: nat) -> nat
    decreases n,
{
    if n == 0 {
        0
    } else {
        total_succeeded(lens, outs, (n - 1) as nat) + sat_sub(
            lens[n - 1],
            failed_items(lens[n - 1], outs[n - 1]),
        )
    }
}

/// Over a run of recorded batches, `states[i]` before the `i`-th and
/// `states[i + 1]` after it, the errors grow by exactly the failed items and
/// the requests by exactly the rest, as long as neither total reaches
/// `u64::MAX`. So a batch that failed in transport adds its whole length to
/// the errors, and one whose reply marks two items adds two errors and the
/// rest as requests.
pub proof fn lemma_batch_run_totals(
    states: Seq<NetworkStats>,
    lens: Seq<nat>,
    outs: Seq<BatchOutcome>,
)
    requires
        states.len() == outs.len() + 1,
        lens.len() == outs.len(),
        forall|i: int|
            0 <= i < outs.len() ==> batch_recorded(states[i], states[i + 1], lens[i], #[trigger] outs[i]),
        states[0].errors_spec() + total_failed(lens, outs, outs.len()) <= u64::MAX,
        states[0].requests_spec() + total_succeeded(lens, outs, outs.len()) <= u64::MAX,
    ensures
        states.last().errors_spec() == states[0].errors_spec() + total_failed(lens, outs, outs.len()),
        states.last().requests_spec() == states[0].requests_spec() + total_succeeded(
            lens,
            outs,
            outs.len(),
        ),
    decreases outs.len(),
{
    if outs.len() > 0 {
        let n = (outs.len() - 1) as nat;
        let fewer = states.drop_last();
        let shorter = outs.drop_last();
        let lens_shorter = lens.drop_last();
        assert forall|k: nat| k <= n implies total_failed(lens_shorter, shorter, k) == total_failed(
            lens,
            outs,
            k,
        ) && total_succeeded(lens_shorter, shorter, k) == total_succeeded(lens, outs, k) by {
            lemma_prefix_totals(lens, outs, n, k);
        }
        assert forall|i: int| 0 <= i < shorter.len() implies batch_recorded(
            fewer[i],
            fewer[i + 1],
            lens_shorter[i],
            #[trigger] shorter[i],
        ) by {
            assert(batch_recorded(states[i], states[i + 1], lens[i], outs[i]));
        }
        lemma_batch_run_totals(fewer, lens_shorter, shorter);
        assert(batch_recorded(states[n as int], states[(n + 1) as int], lens[n as int], outs[n as int]));
    }
}

/// The totals of the first `k` batches only look at those batches.
proof fn lemma_prefix_totals(lens: Seq<nat>, outs: Seq<BatchOutcome>, n: nat, k: nat)
    requires
        k <= n,
        n + 1 == outs.len(),
        lens.len() == outs.len(),
    ensures
        total_failed(lens.drop_last(), outs.drop_last(), k) == total_failed(lens, outs, k),
        total_succeeded(lens.drop_last(), outs.drop_last(), k) == total_succeeded(lens, outs, k),
    decreases k,
{
    if k > 0 {
        lemma_prefix_totals(lens, outs, n, (k - 1) as nat);
        assert(lens.drop_last()[k - 1] == lens[k - 1]);
        assert(outs.drop_last()[k - 1] == outs[k - 1]);
    }
}

/// Totals over the first `k` batches when every batch has `len` items of
/// which the reply marks `failed`, with `failed <= len` for delivered ones.
proof fn lemma_uniform_totals(lens: Seq<nat>, outs: Seq<BatchOutcome>, len: nat, failed: nat, k: nat)
    requires
        k <= outs.len(),
        lens.len() == outs.len(),
        failed <= len,
        forall|i: int| 0 <= i < outs.len() ==> #[trigger] lens[i] == len,
        forall|i: int| 0 <= i < outs.len() ==> failed_items(lens[i], #[trigger] outs[i]) == failed,
    ensures
        total_failed(lens, outs, k) == failed * k,
        total_succeeded(lens, outs, k) == ((len - failed) as nat) * k,
    decreases k,
{
    let rest = (len - failed) as nat;
    if k == 0 {
        assert(failed * 0 == 0) by (nonlinear_arith);
        assert(rest * 0 == 0) by (nonlinear_arith);
    } else {
        let j = (k - 1) as nat;
        lemma_uniform_totals(lens, outs, len, failed, j);
        assert(lens[j as int] == len);
        assert(failed_items(lens[j as int], outs[j as int]) == failed);
        assert(sat_sub(lens[j as int], failed_items(lens[j as int], outs[j as int])) == rest);
        assert(total_failed(lens, outs, k) == total_failed(lens, outs, j) + failed);
        assert(total_succeeded(lens, outs, k) == total_succeeded(lens, outs, j) + rest);
        assert(failed * j + failed == failed * k) by (nonlinear_arith)
            requires
                k == j + 1,
        ;
        assert(rest * j + rest == rest * k) by (nonlinear_arith)
            requires
                k == j + 1,
        ;
    }
}

/// Starting from zero, `n` batches of ten items, each answered with a reply
/// that marks exactly two items as failed, leave `2 * n` errors and `8 * n`
/// requests.
pub proof fn lemma_two_errors_per_ten(states: Seq<NetworkStats>, outs: Seq<BatchOutcome>)
    requires
        states.len() == outs.len() + 1,
        states[0].errors_spec() == 0,
        states[0].requests_spec() == 0,
        10 * outs.len() <= u64::MAX,
        forall|i: int|
            0 <= i < outs.len() ==> (#[trigger] outs[i] matches BatchOutcome::Delivered(body)
                && marker_count(body@) == 2),
        forall|i: int|
            0 <= i < outs.len() ==> batch_recorded(states[i], states[i + 1], 10, #[trigger] outs[i]),
    ensures
        states.last().errors_spec() == 2 * outs.len(),
        states.last().requests_spec() == 8 * outs.len(),
{
    let lens = Seq::new(outs.len(), |i: int| 10nat);
    assert forall|i: int| 0 <= i < outs.len() implies failed_items(lens[i], #[trigger] outs[i]) == 2 by {
        assert(outs[i] matches BatchOutcome::Delivered(body) && marker_count(body@) == 2);
    }
    lemma_uniform_totals(lens, outs, 10, 2, outs.len());
    assert forall|i: int| 0 <= i < outs.len() implies batch_recorded(
        states[i],
        states[i + 1],
        lens[i],
        #[trigger] outs[i],
    ) by {
        assert(batch_recorded(states[i], states[i + 1], 10, outs[i]));
    }
    lemma_batch_run_totals(states, lens, outs);
}

/// Batches of `batch_len` items that fail in transport, or otherwise never
/// deliver a body, each add exactly `batch_len` errors and no request.
pub proof fn lemma_failed_batches_count_whole(
    states: Seq<NetworkStats>,
    outs: Seq<BatchOutcome>,
    batch_len: nat,
)
    requires
        states.len() == outs.len() + 1,
        states[0].errors_spec() + batch_len * outs.len() <= u64::MAX,
        forall|i: int| 0 <= i < outs.len() ==> !(#[trigger] outs[i] is Delivered),
        forall|i: int|
            0 <= i < outs.len() ==> batch_recorded(
                states[i],
                states[i + 1],
                batch_len,
                #[trigger] outs[i],
            ),
    ensures
        states.last().errors_spec() == states[0].errors_spec() + batch_len * outs.len(),
        states.last().requests_spec() == states[0].requests_spec(),
{
    let lens = Seq::new(outs.len(), |i: int| batch_len);
    assert forall|i: int| 0 <= i < outs.len() implies failed_items(lens[i], #[trigger] outs[i])
        == batch_len by {
        assert(!(outs[i] is Delivered));
    }
    lemma_uniform_totals(lens, outs, batch_len, batch_len, outs.len());
    assert(((batch_len - batch_len) as nat) * outs.len() == 0) by (nonlinear_arith);
    assert forall|i: int| 0 <= i < outs.len() implies batch_recorded(
        states[i],
        states[i + 1],
        lens[i],
        #[trigger] outs[i],
    ) by {
        assert(batch_recorded(states[i], states[i + 1], batch_len, outs[i]));
    }
    lemma_network_counters_fit(states[0]);
    lemma_batch_run_totals(states, lens, outs);
}

/// The per-second rate of a counter that went from `last` to `current`
/// over `interval_secs` seconds.
pub fn per_second(current: u64, last: u64, interval_secs: u64) -> (r: u64)
    requires
        last <= current,
        interval_secs > 0,
    ensures
        r == (current - last) / (interval_secs as int),
{
    (current - last) / interval_secs
}

/// The counters of a `NetworkStats` are `u64` values.
pub proof fn lemma_network_counters_fit(s: NetworkStats)
    ensures
        s.requests_spec() <= u64::MAX,
        s.errors_spec() <= u64::MAX,
{
}

} // verus!
