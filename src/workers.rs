use vstd::prelude::*;

verus! {

/// The two classes of worker that share the machine's cores.
#[derive(Clone, Copy, Debug, PartialEq, Eq, Hash, Structural)]
pub enum WorkerType {
    TxGen,
    Network,
}

/// How many cores a worker class asks for: an exact count, or a share of
/// the cores left after exact requests, in parts per `PERCENTAGE_SCALE`.
#[derive(Clone, Copy, Debug)]
pub enum DesireType {
    Exact(u64),
    Percentage(u64),
}

/// The denominator of `DesireType::Percentage`: `PERCENTAGE_SCALE` stands for
/// all of the remaining cores.
pub const PERCENTAGE_SCALE: u64 = 10_000;

/// Cores still free, and the `(core, class)` pairs handed out so far.
pub type Plan = (Seq<usize>, Seq<(usize, WorkerType)>);

/// Number of entries of `s` assigned to class `w`.
pub open spec fn count_of(s: Seq<(usize, WorkerType)>, w: WorkerType) -> nat
    decreases s.len(),
{
    if s.len() == 0 {
        0
    } else {
        count_of(s.drop_last(), w) + if s.last().1 == w {
            1nat
        } else {
            0nat
        }
    }
}

/// Takes up to `n` cores from the back of the free list, giving each to `w`.
pub open spec fn pop_assign(st: Plan, n: nat, w: WorkerType) -> Plan
    decreases n,
{
    if n == 0 || st.0.len() == 0 {
        st
    } else {
        pop_assign((st.0.drop_last(), st.1.push((st.0.last(), w))), (n - 1) as nat, w)
    }
}

/// First pass: every `Exact(n)` request takes up to `n` cores, in request order.
pub open spec fn exact_pass(a: Seq<(WorkerType, DesireType)>, st: Plan) -> Plan
    decreases a.len(),
{
    if a.len() == 0 {
        st
    } else {
        let prev = exact_pass(a.drop_last(), st);
        match a.last().1 {
            DesireType::Exact(n) => pop_assign(prev, n as nat, a.last().0),
            DesireType::Percentage(_) => prev,
        }
    }
}

/// Second pass: every `Percentage` class that holds no core yet takes one,
/// while cores remain.
pub open spec fn seed_pass(a: Seq<(WorkerType, DesireType)>, st: Plan) -> Plan
    decreases a.len(),
{
    if a.len() == 0 {
        st
    } else {
        let prev = seed_pass(a.drop_last(), st);
        let w = a.last().0;
        match a.last().1 {
            DesireType::Exact(_) => prev,
            DesireType::Percentage(_) => if prev.0.len() > 0 && count_of(prev.1, w) == 0 {
                pop_assign(prev, 1, w)
            } else {
                prev
            },
        }
    }
}

/// Third pass: `Percentage(p)` takes `floor(base * p / PERCENTAGE_SCALE)` cores,
/// where `base` is the number of cores free when the pass starts.
pub open spec fn share_pass(a: Seq<(WorkerType, DesireType)>, st: Plan, base: nat) -> Plan
    decreases a.len(),
{
    if a.len() == 0 {
        st
    } else {
        let prev = share_pass(a.drop_last(), st, base);
        match a.last().1 {
            DesireType::Exact(_) => prev,
            DesireType::Percentage(p) => pop_assign(
                prev,
                base * (p as nat) / (PERCENTAGE_SCALE as nat),
                a.last().0,
            ),
        }
    }
}

/// The three passes of the planner, run on `cores` with nothing handed out.
pub open spec fn plan(cores: Seq<usize>, a: Seq<(WorkerType, DesireType)>) -> Plan {
    let first = exact_pass(a, (cores, Seq::empty()));
    let second = seed_pass(a, first);
    share_pass(a, second, second.0.len())
}

/// `st` is what popping from the back of `c0` leaves: the free cores are a
/// prefix of `c0`, and the `i`-th handed-out core is `c0`'s `i`-th from the end.
pub open spec fn popped_from(c0: Seq<usize>, st: Plan) -> bool {
    &&& st.0 == c0.take(st.0.len() as int)
    &&& st.0.len() + st.1.len() == c0.len()
    &&& forall|i: int| 0 <= i < st.1.len() ==> #[trigger] st.1[i].0 == c0[c0.len() - 1 - i]
}

/// Taking at least as many cores as are free takes all of them, keeps what
/// was handed out before, and gives every newly taken core to `w`.
proof fn lemma_pop_assign_takes_all(st: Plan, n: nat, w: WorkerType)
    requires
        n >= st.0.len(),
    ensures
        pop_assign(st, n, w).0.len() == 0,
        pop_assign(st, n, w).1.len() == st.1.len() + st.0.len(),
        forall|j: int| 0 <= j < st.1.len() ==> #[trigger] pop_assign(st, n, w).1[j] == st.1[j],
        forall|j: int|
            st.1.len() <= j < pop_assign(st, n, w).1.len() ==> #[trigger] pop_assign(
                st,
                n,
                w,
            ).1[j].1 == w,
    decreases n,
{
    if n > 0 && st.0.len() > 0 {
        let next: Plan = (st.0.drop_last(), st.1.push((st.0.last(), w)));
        lemma_pop_assign_takes_all(next, (n - 1) as nat, w);
        assert forall|j: int| 0 <= j < st.1.len() implies #[trigger] pop_assign(st, n, w).1[j]
            == st.1[j] by {
            assert(next.1[j] == st.1[j]);
        }
    }
}

/// With one class asking for exactly no cores and another asking for the
/// whole remainder, the second class receives every core.
pub proof fn lemma_full_share_takes_every_core(cores: Seq<usize>, a: WorkerType, b: WorkerType)
    ensures
        ({
            let p = plan(
                cores,
                seq![(a, DesireType::Exact(0)), (b, DesireType::Percentage(PERCENTAGE_SCALE))],
            );
            &&& p.1.len() == cores.len()
            &&& forall|i: int| 0 <= i < p.1.len() ==> #[trigger] p.1[i].1 == b
        }),
{
    let req = seq![(a, DesireType::Exact(0)), (b, DesireType::Percentage(PERCENTAGE_SCALE))];
    let empty: Seq<(usize, WorkerType)> = Seq::empty();
    let st0: Plan = (cores, empty);
    let head = req.drop_last();
    assert(head == seq![(a, DesireType::Exact(0))]);
    assert(head.drop_last() == Seq::<(WorkerType, DesireType)>::empty());
    assert(head.last() == (a, DesireType::Exact(0)));
    assert(req.last() == (b, DesireType::Percentage(PERCENTAGE_SCALE)));
    assert(pop_assign(st0, 0, a) == st0);
    assert(exact_pass(head.drop_last(), st0) == st0);
    assert(exact_pass(head, st0) == st0);
    let first = exact_pass(req, st0);
    assert(first == st0);
    assert(seed_pass(head.drop_last(), first) == first);
    assert(seed_pass(head, first) == first);
    let second = seed_pass(req, first);
    if cores.len() > 0 {
        assert(count_of(empty, b) == 0);
        lemma_pop_assign_takes_all(first, cores.len() as nat, b);
        assert(second == pop_assign(first, 1, b));
        let next: Plan = (first.0.drop_last(), first.1.push((first.0.last(), b)));
        assert(pop_assign(next, 0, b) == next);
        assert(second == next);
    } else {
        assert(second == first);
    }
    let base = second.0.len();
    assert(base * (PERCENTAGE_SCALE as nat) / (PERCENTAGE_SCALE as nat) == base) by (nonlinear_arith);
    assert(share_pass(head.drop_last(), second, base) == second);
    assert(share_pass(head, second, base) == second);
    let last = share_pass(req, second, base);
    assert(last == pop_assign(second, base, b));
    lemma_pop_assign_takes_all(second, base, b);
    assert forall|i: int| 0 <= i < last.1.len() implies #[trigger] last.1[i].1 == b by {
        if i < second.1.len() {
            assert(last.1[i] == second.1[i]);
        }
    }
}

/// How many cores each worker class received.
pub struct WorkerCounts {
    tx_gen: u64,
    network: u64,
}

impl WorkerCounts {
    pub closed spec fn count(&self, w: WorkerType) -> nat {
        match w {
            WorkerType::TxGen => self.tx_gen as nat,
            WorkerType::Network => self.network as nat,
        }
    }

    /// The number of cores assigned to `w`.
    pub fn get(&self, w: WorkerType) -> (r: u64)
        ensures
            r == self.count(w),
    {
        match w {
            WorkerType::TxGen => self.tx_gen,
            WorkerType::Network => self.network,
        }
    }
}

proof fn lemma_count_of_bounded(s: Seq<(usize, WorkerType)>, w: WorkerType)
    ensures
        count_of(s, w) <= s.len(),
    decreases s.len(),
{
    if s.len() > 0 {
        lemma_count_of_bounded(s.drop_last(), w);
    }
}

/// Moves up to `n` cores from the back of `cores` to `result`, for class `w`.
fn pop_into(
    cores: &mut Vec<usize>,
    result: &mut Vec<(usize, WorkerType)>,
    counts: &mut WorkerCounts,
    n: u128,
    w: WorkerType,
    Ghost(c0): Ghost<Seq<usize>>,
)
    requires
        popped_from(c0, (old(cores)@, old(result)@)),
        forall|v: WorkerType| old(counts).count(v) == count_of(old(result)@, v),
    ensures
        (final(cores)@, final(result)@) == pop_assign((old(cores)@, old(result)@), n as nat, w),
        popped_from(c0, (final(cores)@, final(result)@)),
        forall|v: WorkerType| final(counts).count(v) == count_of(final(result)@, v),
{
    let ghost target = pop_assign((cores@, result@), n as nat, w);
    let mut i: u128 = 0;
    while i < n && cores.len() > 0
        invariant
            i <= n,
            pop_assign((cores@, result@), (n - i) as nat, w) == target,
            popped_from(c0, (cores@, result@)),
            forall|v: WorkerType| counts.count(v) == count_of(result@, v),
        decreases n - i,
    {
        let ghost before = (cores@, result@);
        let c = cores.pop().unwrap();
        result.push((c, w));
        let len = result.len();
        assert(result@.drop_last() == before.1);
        assert forall|v: WorkerType| #[trigger] count_of(result@, v) == count_of(before.1, v) + if v
            == w {
            1nat
        } else {
            0nat
        } by {}
        proof {
            lemma_count_of_bounded(result@, w);
        }
        assert(counts.count(w) == count_of(before.1, w));
        assert(counts.count(w) + 1 <= len);
        let ghost counted = *counts;
        match w {
            WorkerType::TxGen => counts.tx_gen = counts.tx_gen + 1,
            WorkerType::Network => counts.network = counts.network + 1,
        }
        assert forall|v: WorkerType| counts.count(v) == count_of(result@, v) by {
            assert(counted.count(v) == count_of(before.1, v));
        }
        i = i + 1;
        assert(cores@ == c0.take(cores@.len() as int));
        assert forall|k: int| 0 <= k < result@.len() implies #[trigger] result@[k].0 == c0[c0.len()
            - 1 - k] by {
            if k < before.1.len() {
                assert(result@[k] == before.1[k]);
            }
        }
    }
}

/// Splits `core_ids` between worker classes. Exact requests are served
/// first; then each percentage class gets one core if it has none; then each
/// percentage class takes its share of the cores left at that point. Cores
/// are always taken from the back of `core_ids`.
pub fn assign_workers(core_ids: Vec<usize>, assignments: Vec<(WorkerType, DesireType)>) -> (r: (
    Vec<(usize, WorkerType)>,
    WorkerCounts,
))
    ensures
        r.0@ == plan(core_ids@, assignments@).1,
        forall|w: WorkerType| r.1.count(w) == count_of(r.0@, w),
        r.0@.len() <= core_ids@.len(),
        forall|i: int|
            0 <= i < r.0@.len() ==> #[trigger] r.0@[i].0 == core_ids@[core_ids@.len() - 1 - i],
{
    let ghost c0 = core_ids@;
    let ghost a = assignments@;
    let mut cores = core_ids;
    let mut result: Vec<(usize, WorkerType)> = Vec::new();
    let mut counts = WorkerCounts { tx_gen: 0, network: 0 };
    assert(cores@ == c0.take(cores@.len() as int));

    let mut i: usize = 0;
    while i < assignments.len()
        invariant
            i <= assignments@.len(),
            a == assignments@,
            (cores@, result@) == exact_pass(a.take(i as int), (c0, Seq::empty())),
            popped_from(c0, (cores@, result@)),
            forall|v: WorkerType| counts.count(v) == count_of(result@, v),
        decreases assignments@.len() - i,
    {
        let (w, desire) = assignments[i];
        assert(a.take(i + 1).drop_last() == a.take(i as int));
        match desire {
            DesireType::Exact(n) => {
                pop_into(&mut cores, &mut result, &mut counts, n as u128, w, Ghost(c0));
            },
            DesireType::Percentage(_) => {},
        }
        i = i + 1;
    }
    assert(a.take(a.len() as int) == a);
    let ghost first = (cores@, result@);

    let mut i: usize = 0;
    while i < assignments.len()
        invariant
            i <= assignments@.len(),
            a == assignments@,
            (cores@, result@) == seed_pass(a.take(i as int), first),
            popped_from(c0, (cores@, result@)),
            forall|v: WorkerType| counts.count(v) == count_of(result@, v),
        decreases assignments@.len() - i,
    {
        let (w, desire) = assignments[i];
        assert(a.take(i + 1).drop_last() == a.take(i as int));
        match desire {
            DesireType::Exact(_) => {},
            DesireType::Percentage(_) => {
                if cores.len() > 0 && counts.get(w) == 0 {
                    pop_into(&mut cores, &mut result, &mut counts, 1, w, Ghost(c0));
                }
            },
        }
        i = i + 1;
    }
    let ghost second = (cores@, result@);
    let base = cores.len();

    let mut i: usize = 0;
    while i < assignments.len()
        invariant
            i <= assignments@.len(),
            a == assignments@,
            base == second.0.len(),
            (cores@, result@) == share_pass(a.take(i as int), second, base as nat),
            popped_from(c0, (cores@, result@)),
            forall|v: WorkerType| counts.count(v) == count_of(result@, v),
        decreases assignments@.len() - i,
    {
        let (w, desire) = assignments[i];
        assert(a.take(i + 1).drop_last() == a.take(i as int));
        match desire {
            DesireType::Exact(_) => {},
            DesireType::Percentage(p) => {
                assert((base as u128) * (p as u128) <= u64::MAX as u128 * u64::MAX as u128)
                    by (nonlinear_arith);
                let share = (base as u128) * (p as u128) / (PERCENTAGE_SCALE as u128);
                pop_into(&mut cores, &mut result, &mut counts, share, w, Ghost(c0));
            },
        }
        i = i + 1;
    }
    (result, counts)
}

} // verus!
