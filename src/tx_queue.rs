//! The FIFO of signed payloads between producers and dispatchers, gated by a
//! token bucket whose rate follows a schedule of thresholds.
use vstd::prelude::*;
use std::collections::VecDeque;
use ratelimit::Ratelimiter;
use crate::config::RateLimitingConfig;
use crate::limiter::{
    available, available_of, build_limiter, max_tokens, max_tokens_of, refill_amount, refill_amount_of,
    refill_interval_nanos, refill_interval_of, set_available, set_max_tokens, set_refill_amount,
    try_take_token,
};

verus! {

/// The highest pop rate the bucket is set to; its arithmetic stays within
/// `u64` below it.
pub const MAX_RATE: u64 = 4_294_967_295;

/// The bucket is refilled once per this many seconds.
pub const REFILL_INTERVAL_SECS: u64 = 1;

/// `REFILL_INTERVAL_SECS` in nanoseconds.
pub const REFILL_INTERVAL_NANOS: u64 = 1_000_000_000;

/// The rate that the schedule gives once `popped` payloads have left the
/// queue: that of the last step whose threshold is at most `popped`, or
/// `initial` when there is none.
pub open spec fn rate_for(steps: Seq<(u32, u64)>, initial: u64, popped: u64) -> u64
    decreases steps.len(),
{
    if steps.len() == 0 {
        initial
    } else if steps.last().0 as u64 <= popped {
        steps.last().1
    } else {
        rate_for(steps.drop_last(), initial, popped)
    }
}

/// Every rate that `steps` or `initial` can select is at most `MAX_RATE`.
pub open spec fn rates_in_range(steps: Seq<(u32, u64)>, initial: u64) -> bool {
    &&& initial <= MAX_RATE
    &&& forall|i: int| 0 <= i < steps.len() ==> #[trigger] steps[i].1 <= MAX_RATE
}

/// The smaller of two naturals.
pub open spec fn min_nat(a: nat, b: nat) -> nat {
    if a <= b {
        a
    } else {
        b
    }
}

/// The schedule only ever selects `initial` or one of its own rates.
proof fn lemma_rate_for_in_range(steps: Seq<(u32, u64)>, initial: u64, popped: u64)
    requires
        rates_in_range(steps, initial),
    ensures
        rate_for(steps, initial, popped) <= MAX_RATE,
    decreases steps.len(),
{
    if steps.len() > 0 {
        lemma_rate_for_in_range(steps.drop_last(), initial, popped);
    }
}

/// With steps sorted by threshold, the rate in force is that of a highest
/// threshold reached by `popped`, and `initial` while none is reached.
pub proof fn lemma_rate_for_highest_reached(steps: Seq<(u32, u64)>, initial: u64, popped: u64)
    requires
        forall|i: int, j: int| 0 <= i < j < steps.len() ==> steps[i].0 <= steps[j].0,
    ensures
        (forall|i: int| 0 <= i < steps.len() ==> steps[i].0 as u64 > popped) ==> rate_for(
            steps,
            initial,
            popped,
        ) == initial,
        (exists|i: int| 0 <= i < steps.len() && steps[i].0 as u64 <= popped) ==> exists|i: int|
            {
                &&& 0 <= i < steps.len()
                &&& steps[i].0 as u64 <= popped
                &&& rate_for(steps, initial, popped) == steps[i].1
                &&& forall|j: int|
                    0 <= j < steps.len() && steps[j].0 as u64 <= popped ==> steps[j].0 <= steps[i].0
            },
    decreases steps.len(),
{
    if steps.len() > 0 {
        let head = steps.drop_last();
        let n = steps.len() - 1;
        lemma_rate_for_highest_reached(head, initial, popped);
        if steps.last().0 as u64 <= popped {
            assert(steps[n].0 as u64 <= popped);
        } else {
            if exists|i: int| 0 <= i < steps.len() && steps[i].0 as u64 <= popped {
                let k = choose|i: int| 0 <= i < steps.len() && steps[i].0 as u64 <= popped;
                assert(head[k].0 as u64 <= popped);
                let m = choose|i: int|
                    {
                        &&& 0 <= i < head.len()
                        &&& head[i].0 as u64 <= popped
                        &&& rate_for(head, initial, popped) == head[i].1
                        &&& forall|j: int|
                            0 <= j < head.len() && head[j].0 as u64 <= popped ==> head[j].0
                                <= head[i].0
                    };
                assert forall|j: int|
                    0 <= j < steps.len() && steps[j].0 as u64 <= popped implies steps[j].0
                    <= steps[m].0 by {
                    assert(j < n);
                    assert(head[j] == steps[j]);
                }
                assert(steps[m] == head[m]);
            } else {
                assert forall|i: int| 0 <= i < head.len() implies head[i].0 as u64 > popped by {
                    assert(head[i] == steps[i]);
                }
            }
        }
    }
}

/// The rate that `config`'s schedule gives once `total_popped` payloads have
/// left the queue.
pub fn select_rate_limit(config: &RateLimitingConfig, total_popped: u64) -> (r: u64)
    ensures
        r == rate_for(config.ratelimit_thresholds@, config.initial_ratelimit, total_popped),
{
    let steps = &config.ratelimit_thresholds;
    let ghost all = steps@;
    let ghost initial = config.initial_ratelimit;
    let mut i: usize = steps.len();
    assert(all.take(all.len() as int) == all);
    while i > 0
        invariant
            i <= all.len(),
            all == steps@,
            all == config.ratelimit_thresholds@,
            initial == config.initial_ratelimit,
            rate_for(all, initial, total_popped) == rate_for(all.take(i as int), initial, total_popped),
        decreases i,
    {
        let (threshold, rate) = steps[i - 1];
        assert(all.take(i as int).drop_last() == all.take(i - 1));
        assert(all.take(i as int).last() == all[i - 1]);
        assert((threshold, rate) == all[i - 1]);
        if threshold as u64 <= total_popped {
            assert(rate_for(all.take(i as int), initial, total_popped) == rate);
            return rate;
        }
        i = i - 1;
    }
    config.initial_ratelimit
}

/// The queue's counters as one reporter tick reads them.
#[derive(Clone, Copy, Debug)]
pub struct QueueSample {
    pub total_added: u64,
    pub total_popped: u64,
    pub queue_len: usize,
}

/// Per-second rates between two reporter ticks.
#[derive(Clone, Copy, Debug)]
pub struct QueueRates {
    pub added_per_second: u64,
    pub popped_per_second: u64,
    pub delta_per_second: i64,
}

/// `a / b` rounded toward zero.
pub open spec fn div_toward_zero(a: int, b: int) -> int {
    if a >= 0 {
        a / b
    } else {
        -((-a) / b)
    }
}

/// The rates between sample `last` and sample `current`, taken
/// `interval_secs` seconds apart: payloads added and popped per second, and
/// the change of the queue's length per second, rounded toward zero.
pub fn queue_rates(current: &QueueSample, last: &QueueSample, interval_secs: u64) -> (r: QueueRates)
    requires
        last.total_added <= current.total_added,
        last.total_popped <= current.total_popped,
        current.queue_len <= i64::MAX,
        last.queue_len <= i64::MAX,
        interval_secs > 0,
    ensures
        r.added_per_second == (current.total_added - last.total_added) / (interval_secs as int),
        r.popped_per_second == (current.total_popped - last.total_popped) / (interval_secs as int),
        r.delta_per_second == div_toward_zero(
            current.queue_len - last.queue_len,
            interval_secs as int,
        ),
{
    let added_per_second = (current.total_added - last.total_added) / interval_secs;
    let popped_per_second = (current.total_popped - last.total_popped) / interval_secs;
    let delta_per_second = if current.queue_len >= last.queue_len {
        (((current.queue_len - last.queue_len) as u64) / interval_secs) as i64
    } else {
        -((((last.queue_len - current.queue_len) as u64) / interval_secs) as i64)
    };
    QueueRates { added_per_second, popped_per_second, delta_per_second }
}

/// How one pop changes the queue, given what it returned: `None` leaves the
/// payloads and the popped total alone; `Some(v)` takes `v` from the head
/// and adds its length to the popped total.
pub open spec fn pop_step(before: TxQueue, after: TxQueue, r: Option<Vec<Vec<u8>>>) -> bool {
    &&& after.added() == before.added()
    &&& match r {
        None => after.pending() == before.pending() && after.popped() == before.popped(),
        Some(v) => {
            &&& v@.len() <= before.pending().len()
            &&& v@ == before.pending().take(v@.len() as int)
            &&& after.pending() == before.pending().skip(v@.len() as int)
            &&& after.popped() == before.popped() + v@.len()
        },
    }
}

/// The number of payloads in a list of pop results.
pub open spec fn returned_count(outs: Seq<Option<Vec<Vec<u8>>>>) -> nat
    decreases outs.len(),
{
    if outs.len() == 0 {
        0
    } else {
        returned_count(outs.drop_last()) + match outs.last() {
            Some(v) => v@.len(),
            None => 0,
        }
    }
}

/// The payloads of a list of pop results, in the order they were returned.
pub open spec fn returned_items(outs: Seq<Option<Vec<Vec<u8>>>>) -> Seq<Vec<u8>>
    decreases outs.len(),
{
    if outs.len() == 0 {
        Seq::empty()
    } else {
        returned_items(outs.drop_last()) + match outs.last() {
            Some(v) => v@,
            None => Seq::empty(),
        }
    }
}

/// The counters of a well-formed queue: no more payloads were popped than
/// added, and the difference is what waits in the queue.
pub proof fn lemma_popped_never_exceeds_added(q: TxQueue)
    requires
        q.wf(),
    ensures
        q.popped() <= q.added(),
        q.added() - q.popped() == q.pending().len(),
{
}

/// A well-formed queue's bucket holds at most as many tokens as it adds per
/// interval, which is one second.
pub proof fn lemma_bucket_bounded_by_rate(q: TxQueue)
    requires
        q.wf(),
    ensures
        q.burst() == q.rate(),
        q.tokens() <= q.rate(),
        q.rate() <= MAX_RATE,
        q.interval() == REFILL_INTERVAL_NANOS,
{
}

/// Over a run of pops, `states[i]` before the `i`-th and `states[i + 1]`
/// after it, the popped total grows by exactly the number of payloads the
/// pops returned, and nothing is added. The payloads come out in queue
/// order: what the pops returned, followed by what still waits, is what
/// waited at the start.
pub proof fn lemma_pops_account_for_popped_total(
    states: Seq<TxQueue>,
    outs: Seq<Option<Vec<Vec<u8>>>>,
)
    requires
        states.len() == outs.len() + 1,
        forall|i: int| 0 <= i < outs.len() ==> pop_step(states[i], states[i + 1], #[trigger] outs[i]),
    ensures
        states.last().popped() == states[0].popped() + returned_count(outs),
        states.last().added() == states[0].added(),
        states[0].pending() == returned_items(outs) + states.last().pending(),
    decreases outs.len(),
{
    if outs.len() > 0 {
        let n = outs.len() - 1;
        let fewer = states.drop_last();
        assert forall|i: int| 0 <= i < outs.drop_last().len() implies pop_step(
            fewer[i],
            fewer[i + 1],
            #[trigger] outs.drop_last()[i],
        ) by {
            assert(outs.drop_last()[i] == outs[i]);
            assert(pop_step(states[i], states[i + 1], outs[i]));
        }
        lemma_pops_account_for_popped_total(fewer, outs.drop_last());
        assert(pop_step(states[n], states[n + 1], outs[n]));
        let before = states[n].pending();
        match outs[n] {
            Some(v) => {
                assert(before =~= v@ + states[n + 1].pending());
            },
            None => {},
        }
        assert(outs.last() == outs[n]);
        assert(fewer.last() == states[n]);
        assert(states[0].pending() =~= returned_items(outs) + states.last().pending());
    }
}

/// Signed payloads in publication order, the running totals of payloads
/// added and popped, and the token bucket that gates pops.
pub struct TxQueue {
    queue: VecDeque<Vec<u8>>,
    total_added: u64,
    total_popped: u64,
    rate_limiter: Ratelimiter,
}

impl TxQueue {
    /// The payloads waiting, oldest first.
    pub closed spec fn pending(&self) -> Seq<Vec<u8>> {
        self.queue@
    }

    pub closed spec fn added(&self) -> nat {
        self.total_added as nat
    }

    pub closed spec fn popped(&self) -> nat {
        self.total_popped as nat
    }

    /// Tokens added to the bucket per interval.
    pub closed spec fn rate(&self) -> u64 {
        refill_amount_of(self.rate_limiter)
    }

    /// The most tokens the bucket holds.
    pub closed spec fn burst(&self) -> u64 {
        max_tokens_of(self.rate_limiter)
    }

    /// Tokens in the bucket now.
    pub closed spec fn tokens(&self) -> u64 {
        available_of(self.rate_limiter)
    }

    /// Nanoseconds between two refills of the bucket.
    pub closed spec fn interval(&self) -> u64 {
        refill_interval_of(self.rate_limiter)
    }

    pub closed spec fn wf(&self) -> bool {
        &&& self.total_popped <= self.total_added
        &&& self.total_added - self.total_popped == self.queue@.len()
        &&& self.rate() == self.burst()
        &&& self.rate() <= MAX_RATE
        &&& self.tokens() <= self.burst()
        &&& self.interval() == REFILL_INTERVAL_NANOS
    }

    /// An empty queue whose bucket adds `initial_ratelimit` tokens per second,
    /// holds at most as many, and starts empty.
    pub fn new(initial_ratelimit: u64) -> (r: TxQueue)
        requires
            initial_ratelimit <= MAX_RATE,
        ensures
            r.wf(),
            r.pending().len() == 0,
            r.added() == 0,
            r.popped() == 0,
            r.rate() == initial_ratelimit,
            r.burst() == initial_ratelimit,
            r.interval() == REFILL_INTERVAL_NANOS,
            r.tokens() == 0,
    {
        let limiter = build_limiter(initial_ratelimit, initial_ratelimit, REFILL_INTERVAL_SECS);
        TxQueue {
            queue: VecDeque::new(),
            total_added: 0,
            total_popped: 0,
            rate_limiter: limiter.unwrap(),
        }
    }

    pub fn total_added(&self) -> (r: u64)
        ensures
            r == self.added(),
    {
        self.total_added
    }

    pub fn total_popped(&self) -> (r: u64)
        ensures
            r == self.popped(),
    {
        self.total_popped
    }

    /// The number of payloads waiting.
    pub fn queue_len(&self) -> (r: usize)
        ensures
            r == self.pending().len(),
    {
        self.queue.len()
    }

    /// The tokens the bucket holds now, read from the limiter.
    pub fn available_tokens(&self) -> (r: u64)
        ensures
            r == self.tokens(),
    {
        available(&self.rate_limiter)
    }

    /// The most tokens the bucket holds, read from the limiter.
    pub fn burst_limit(&self) -> (r: u64)
        ensures
            r == self.burst(),
    {
        max_tokens(&self.rate_limiter)
    }

    /// Nanoseconds between two refills, read from the limiter.
    pub fn refill_interval_nanos(&self) -> (r: u64)
        ensures
            r == self.interval(),
    {
        refill_interval_nanos(&self.rate_limiter)
    }

    /// The counters a reporter tick reads.
    pub fn sample(&self) -> (r: QueueSample)
        ensures
            r.total_added == self.added(),
            r.total_popped == self.popped(),
            r.queue_len == self.pending().len(),
    {
        QueueSample {
            total_added: self.total_added,
            total_popped: self.total_popped,
            queue_len: self.queue.len(),
        }
    }

    /// The bucket's current refill amount, read from the limiter.
    pub fn rate_limit(&self) -> (r: u64)
        ensures
            r == self.rate(),
    {
        refill_amount(&self.rate_limiter)
    }

    /// Appends one payload at the tail.
    pub fn push_tx(&mut self, tx: Vec<u8>)
        requires
            old(self).wf(),
            old(self).added() < u64::MAX,
        ensures
            final(self).wf(),
            final(self).pending() == old(self).pending().push(tx),
            final(self).added() == old(self).added() + 1,
            final(self).popped() == old(self).popped(),
            final(self).rate() == old(self).rate(),
            final(self).burst() == old(self).burst(),
            final(self).tokens() == old(self).tokens(),
    {
        self.total_added = self.total_added + 1;
        self.queue.push_back(tx);
    }

    /// Appends a batch of payloads at the tail, keeping their order.
    pub fn push_txs(&mut self, txs: Vec<Vec<u8>>)
        requires
            old(self).wf(),
            old(self).added() + txs@.len() <= u64::MAX,
        ensures
            final(self).wf(),
            final(self).pending() == old(self).pending() + txs@,
            final(self).added() == old(self).added() + txs@.len(),
            final(self).popped() == old(self).popped(),
            final(self).rate() == old(self).rate(),
            final(self).burst() == old(self).burst(),
            final(self).tokens() == old(self).tokens(),
    {
        let ghost start = self.pending();
        let ghost n = txs@.len();
        for tx in it: txs
            invariant
                self.wf(),
                it.seq() == txs@,
                n == txs@.len(),
                self.added() == old(self).added() + it.index(),
                old(self).added() + n <= u64::MAX,
                self.pending() == start + txs@.take(it.index() as int),
                self.popped() == old(self).popped(),
                self.rate() == old(self).rate(),
                self.burst() == old(self).burst(),
                self.tokens() == old(self).tokens(),
        {
            assert(txs@.take(it.index() + 1) == txs@.take(it.index() as int).push(tx));
            self.push_tx(tx);
        }
        assert(txs@.take(n as int) == txs@);
    }

    /// Takes exactly `allowed` payloads from the head, oldest first, and
    /// counts them as popped; returns `None`, changing nothing, when
    /// `allowed` is zero.
    pub fn drain_front(&mut self, allowed: usize) -> (r: Option<Vec<Vec<u8>>>)
        requires
            old(self).wf(),
            allowed <= old(self).pending().len(),
        ensures
            final(self).wf(),
            allowed == 0 ==> r is None && *final(self) == *old(self),
            allowed > 0 ==> (r matches Some(v) && v@ == old(self).pending().take(allowed as int)),
            final(self).pending() == old(self).pending().skip(allowed as int),
            final(self).popped() == old(self).popped() + allowed,
            final(self).added() == old(self).added(),
            final(self).rate() == old(self).rate(),
            final(self).burst() == old(self).burst(),
            final(self).tokens() == old(self).tokens(),
    {
        if allowed == 0 {
            return None;
        }
        let ghost start = self.pending();
        let mut out: Vec<Vec<u8>> = Vec::new();
        let mut i: usize = 0;
        while i < allowed
            invariant
                i <= allowed,
                allowed <= start.len(),
                out@ == start.take(i as int),
                self.queue@ == start.skip(i as int),
                self.total_popped == old(self).total_popped,
                self.total_added == old(self).total_added,
                self.rate_limiter == old(self).rate_limiter,
            decreases allowed - i,
        {
            let tx = self.queue.pop_front().unwrap();
            assert(start.take(i + 1) == start.take(i as int).push(tx));
            assert(start.skip(i + 1) == start.skip(i as int).subrange(1, start.skip(i as int).len() as int));
            out.push(tx);
            i = i + 1;
        }
        self.total_popped = self.total_popped + allowed as u64;
        Some(out)
    }

    /// Takes tokens one at a time, stopping at the first refusal or after
    /// `wanted`; returns how many it took. While the bucket holds tokens it
    /// does not refuse, so it takes all `wanted` when it held as many.
    fn take_tokens(&mut self, wanted: usize) -> (r: usize)
        requires
            old(self).wf(),
        ensures
            final(self).wf(),
            r <= wanted,
            old(self).tokens() >= wanted ==> r == wanted,
            r < wanted ==> final(self).tokens() == 0,
            final(self).tokens() + r >= old(self).tokens(),
            final(self).pending() == old(self).pending(),
            final(self).added() == old(self).added(),
            final(self).popped() == old(self).popped(),
            final(self).rate() == old(self).rate(),
            final(self).burst() == old(self).burst(),
    {
        let mut taken: usize = 0;
        while taken < wanted
            invariant
                self.wf(),
                taken <= wanted,
                self.tokens() + taken >= old(self).tokens(),
                self.queue@ == old(self).queue@,
                self.total_added == old(self).total_added,
                self.total_popped == old(self).total_popped,
                self.rate() == old(self).rate(),
                self.burst() == old(self).burst(),
            ensures
                old(self).tokens() >= wanted ==> taken == wanted,
                taken < wanted ==> self.tokens() == 0,
            decreases wanted - taken,
        {
            if !try_take_token(&mut self.rate_limiter) {
                break;
            }
            taken = taken + 1;
        }
        taken
    }

    /// Pops up to `max_count` payloads from the head, as many as the bucket
    /// grants tokens for, one token each. With nothing to take (an empty
    /// queue or `max_count == 0`) it returns `None` and asks the bucket for
    /// nothing. When the bucket grants no token it returns `None` and leaves
    /// the payloads alone. When the bucket already holds a token for every
    /// payload it can take, it takes `min(len, max_count)` of them. Each
    /// payload taken costs one token, though tokens may be refilled on the
    /// way.
    pub fn pop_at_most(&mut self, max_count: usize) -> (r: Option<Vec<Vec<u8>>>)
        requires
            old(self).wf(),
        ensures
            final(self).wf(),
            min_nat(old(self).pending().len(), max_count as nat) == 0 ==> r is None && *final(self)
                == *old(self),
            final(self).added() == old(self).added(),
            final(self).rate() == old(self).rate(),
            final(self).burst() == old(self).burst(),
            pop_step(*old(self), *final(self), r),
            old(self).tokens() >= min_nat(old(self).pending().len(), max_count as nat) > 0 ==> (r matches Some(
                v,
            ) && v@.len() == min_nat(old(self).pending().len(), max_count as nat)),
            r matches Some(v) ==> final(self).tokens() + v@.len() >= old(self).tokens(),
            r is None && min_nat(old(self).pending().len(), max_count as nat) > 0
                ==> final(self).tokens() == 0,
            match r {
                None => {
                    &&& final(self).pending() == old(self).pending()
                    &&& final(self).popped() == old(self).popped()
                },
                Some(v) => {
                    &&& 1 <= v@.len() <= min_nat(old(self).pending().len(), max_count as nat)
                    &&& v@ == old(self).pending().take(v@.len() as int)
                    &&& final(self).pending() == old(self).pending().skip(v@.len() as int)
                    &&& final(self).popped() == old(self).popped() + v@.len()
                },
            },
    {
        let len = self.queue.len();
        let wanted = if len < max_count {
            len
        } else {
            max_count
        };
        if wanted == 0 {
            return None;
        }
        let allowed = self.take_tokens(wanted);
        self.drain_front(allowed)
    }
    /// Sets the bucket to `new_rate` tokens per interval, with a burst of as
    /// many, and empties it, unless that is already its rate; says whether
    /// it changed anything. The maximum is raised before the refill amount
    /// when the rate goes up, and lowered after it when the rate goes down,
    /// so that the refill amount never exceeds the maximum.
    pub fn apply_rate_limit(&mut self, new_rate: u64) -> (changed: bool)
        requires
            old(self).wf(),
            new_rate <= MAX_RATE,
        ensures
            final(self).wf(),
            changed <==> old(self).rate() != new_rate,
            final(self).rate() == new_rate,
            final(self).burst() == new_rate,
            changed ==> final(self).tokens() == 0,
            !changed ==> *final(self) == *old(self),
            final(self).pending() == old(self).pending(),
            final(self).added() == old(self).added(),
            final(self).popped() == old(self).popped(),
    {
        let current = refill_amount(&self.rate_limiter);
        if current == new_rate {
            return false;
        }
        if new_rate > current {
            let raised = set_max_tokens(&mut self.rate_limiter, new_rate);
            let refilled = set_refill_amount(&mut self.rate_limiter, new_rate);
        } else {
            let refilled = set_refill_amount(&mut self.rate_limiter, new_rate);
            let lowered = set_max_tokens(&mut self.rate_limiter, new_rate);
        }
        let emptied = set_available(&mut self.rate_limiter, 0);
        true
    }

    /// One tick of the rate controller: selects the schedule's rate for the
    /// current popped total and, when it differs from the bucket's, sets the
    /// bucket to it and empties the bucket.
    pub fn adjust_rate_limit(&mut self, config: &RateLimitingConfig) -> (changed: bool)
        requires
            old(self).wf(),
            rates_in_range(config.ratelimit_thresholds@, config.initial_ratelimit),
        ensures
            final(self).wf(),
            final(self).rate() == rate_for(
                config.ratelimit_thresholds@,
                config.initial_ratelimit,
                old(self).popped() as u64,
            ),
            final(self).burst() == final(self).rate(),
            changed <==> old(self).rate() != final(self).rate(),
            changed ==> final(self).tokens() == 0,
            !changed ==> *final(self) == *old(self),
            final(self).pending() == old(self).pending(),
            final(self).added() == old(self).added(),
            final(self).popped() == old(self).popped(),
    {
        let new_rate = select_rate_limit(config, self.total_popped);
        proof {
            lemma_rate_for_in_range(
                config.ratelimit_thresholds@,
                config.initial_ratelimit,
                self.total_popped,
            );
        }
        self.apply_rate_limit(new_rate)
    }
}

} // verus!
