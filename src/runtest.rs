use vstd::prelude::*;

verus! {

/// The largest number of idle clocks asked of the cable in one call.
pub const RUN_TEST_BATCH: u32 = 100;

/// The idle clocks of a run test of `n` cycles, cut into calls of at most
/// [`RUN_TEST_BATCH`] cycles: full batches while more than a batch remains,
/// then what remains.
pub open spec fn idle_batches(n: u32) -> Seq<u32>
    decreases n,
{
    if n == 0 {
        seq![]
    } else if n > RUN_TEST_BATCH {
        seq![RUN_TEST_BATCH] + idle_batches((n - RUN_TEST_BATCH) as u32)
    } else {
        seq![n]
    }
}

/// The sum of a sequence of cycle counts.
pub open spec fn total_cycles(s: Seq<u32>) -> int
    decreases s.len(),
{
    if s.len() == 0 {
        0
    } else {
        s[0] + total_cycles(s.drop_first())
    }
}

/// Cuts `run_count` idle clocks into batches.
pub fn batch_idle_cycles(run_count: u32) -> (r: Vec<u32>)
    ensures
        r@ == idle_batches(run_count),
{
    let mut out: Vec<u32> = Vec::new();
    let mut remaining: u32 = run_count;
    while remaining > 0
        invariant
            out@ + idle_batches(remaining) == idle_batches(run_count),
        decreases remaining,
    {
        if remaining > RUN_TEST_BATCH {
            out.push(RUN_TEST_BATCH);
            remaining = remaining - RUN_TEST_BATCH;
            assert(out@ + idle_batches(remaining) =~= idle_batches(run_count));
        } else {
            out.push(remaining);
            assert(out@ =~= idle_batches(run_count));
            return out;
        }
    }
    assert(out@ =~= idle_batches(run_count));
    out
}

/// The batches of a run test add up to its cycle count, and each asks for at
/// least one and at most [`RUN_TEST_BATCH`] cycles.
pub proof fn lemma_idle_batches(n: u32)
    ensures
        total_cycles(idle_batches(n)) == n,
        forall|i: int| 0 <= i < idle_batches(n).len() ==> 1 <= #[trigger] idle_batches(n)[i] <= RUN_TEST_BATCH,
    decreases n,
{
    if n > RUN_TEST_BATCH {
        let m = (n - RUN_TEST_BATCH) as u32;
        lemma_idle_batches(m);
        assert(idle_batches(n).drop_first() =~= idle_batches(m));
        assert forall|i: int| 0 <= i < idle_batches(n).len() implies 1 <= #[trigger] idle_batches(n)[i] <= RUN_TEST_BATCH by {
            if i > 0 {
                assert(idle_batches(n)[i] == idle_batches(m)[i - 1]);
            }
        }
    } else if n > 0 {
        assert(idle_batches(n).drop_first() =~= Seq::<u32>::empty());
        assert(total_cycles(idle_batches(n).drop_first()) == 0);
    }
}

} // verus!
