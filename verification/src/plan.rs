//! The fixed crank batching plan.
//!
//! The verification work is partitioned into invocation-sized batches that
//! respect the externally imposed compute budget: five batches of sixteen
//! operations decompress the first ten inputs and build their lookup
//! tables; one batch of twenty-two finishes the last input together with
//! the eleven scalar copies and the three accumulator initializations; two
//! groups of sixty-four multiplication steps run as five batches of eleven
//! plus one of nine each; and eight batches of eight close with the final
//! combination steps.  The totals are asserted at setup time: a mismatch is
//! a structural bug, rejected before any buffer is created.

use vstd::prelude::*;

use crate::dsl::DSL_INSTRUCTION_COUNT;
use crate::errors::StealthError;

verus! {

/// The fixed number of crank invocations of the plan.
pub const CRANK_INVOCATION_COUNT: usize = 26;

/// One scheduled batch: how many operations one invocation executes, and
/// the compute budget requested for it.
#[derive(Clone, Copy, PartialEq, Eq, Structural)]
pub struct CrankBatch {
    pub count: usize,
    pub budget: u64,
}

/// The fixed batch sizes of the plan, in issue order.
pub open spec fn spec_plan_counts() -> Seq<int> {
    seq![
        16, 16, 16, 16, 16,
        22,
        11, 11, 11, 11, 11, 9,
        11, 11, 11, 11, 11, 9,
        8, 8, 8, 8, 8, 8, 8, 8,
    ]
}

/// The sum of a sequence of integers.
pub open spec fn spec_sum(s: Seq<int>) -> int
    decreases s.len(),
{
    if s.len() == 0 {
        0
    } else {
        spec_sum(s.drop_last()) + s.last()
    }
}

/// The batch sizes of a concrete plan.
pub open spec fn plan_counts(s: Seq<CrankBatch>) -> Seq<int> {
    s.map_values(|b: CrankBatch| b.count as int)
}

/// The operation index at which a batch of the fixed plan starts.
pub open spec fn spec_plan_start(i: int) -> int {
    spec_sum(spec_plan_counts().take(i))
}

/// The crank plan partitions the declared operation count exactly, with
/// zero remainder, into 5×16 + 1×22 + 2×(5×11 + 9) + 8×8 operations over
/// exactly twenty-six invocations.
pub proof fn lemma_plan_partitions_op_count()
    ensures
        spec_plan_counts().len() == CRANK_INVOCATION_COUNT,
        spec_sum(spec_plan_counts()) == DSL_INSTRUCTION_COUNT,
{
    reveal_with_fuel(spec_sum, 27);
    assert(spec_sum(spec_plan_counts()) == DSL_INSTRUCTION_COUNT);
}

/// Adding one element extends the sum of a prefix.
pub proof fn lemma_sum_take_step(s: Seq<int>, i: int)
    requires
        0 <= i < s.len(),
    ensures
        spec_sum(s.take(i + 1)) == spec_sum(s.take(i)) + s[i],
{
    assert(s.take(i + 1).drop_last() =~= s.take(i));
    assert(s.take(i + 1).last() == s[i]);
}

/// Over non-negative entries, every prefix sum is bounded by the total.
pub proof fn lemma_sum_prefix_bound(s: Seq<int>, i: int)
    requires
        0 <= i <= s.len(),
        forall|j: int| 0 <= j < s.len() ==> s[j] >= 0,
    ensures
        spec_sum(s.take(i)) <= spec_sum(s),
    decreases s.len() - i,
{
    if i == s.len() {
        assert(s.take(i) =~= s);
    } else {
        lemma_sum_take_step(s, i);
        lemma_sum_prefix_bound(s, i + 1);
    }
}

/// Builds the fixed plan, every batch carrying the injected per-invocation
/// compute budget.
pub fn build_crank_plan(invocation_budget: u64) -> (r: Vec<CrankBatch>)
    ensures
        r@.len() == CRANK_INVOCATION_COUNT,
        plan_counts(r@) == spec_plan_counts(),
        forall|i: int| 0 <= i < r@.len() ==> (#[trigger] r@[i]).budget == invocation_budget,
{
    let mut plan: Vec<CrankBatch> = Vec::new();
    let mut g: usize = 0;
    while g < 5
        invariant
            g <= 5,
            plan@.len() == g,
            plan_counts(plan@) == spec_plan_counts().take(g as int),
            forall|i: int| 0 <= i < plan@.len() ==> (#[trigger] plan@[i]).budget
                == invocation_budget,
        decreases 5 - g,
    {
        plan.push(CrankBatch { count: 16, budget: invocation_budget });
        assert(plan_counts(plan@) =~= spec_plan_counts().take(g + 1));
        g = g + 1;
    }
    plan.push(CrankBatch { count: 22, budget: invocation_budget });
    assert(plan_counts(plan@) =~= spec_plan_counts().take(6));
    let mut h: usize = 0;
    while h < 2
        invariant
            h <= 2,
            plan@.len() == 6 + 6 * h,
            plan_counts(plan@) == spec_plan_counts().take(6 + 6 * h as int),
            forall|i: int| 0 <= i < plan@.len() ==> (#[trigger] plan@[i]).budget
                == invocation_budget,
        decreases 2 - h,
    {
        let mut f: usize = 0;
        while f < 5
            invariant
                h < 2,
                f <= 5,
                plan@.len() == 6 + 6 * h + f,
                plan_counts(plan@) == spec_plan_counts().take(6 + 6 * h + f as int),
                forall|i: int| 0 <= i < plan@.len() ==> (#[trigger] plan@[i]).budget
                    == invocation_budget,
            decreases 5 - f,
        {
            plan.push(CrankBatch { count: 11, budget: invocation_budget });
            assert(plan_counts(plan@) =~= spec_plan_counts().take(6 + 6 * h + f + 1));
            f = f + 1;
        }
        plan.push(CrankBatch { count: 9, budget: invocation_budget });
        assert(plan_counts(plan@) =~= spec_plan_counts().take(6 + 6 * (h + 1) as int));
        h = h + 1;
    }
    let mut k: usize = 0;
    while k < 8
        invariant
            k <= 8,
            plan@.len() == 18 + k,
            plan_counts(plan@) == spec_plan_counts().take(18 + k as int),
            forall|i: int| 0 <= i < plan@.len() ==> (#[trigger] plan@[i]).budget
                == invocation_budget,
        decreases 8 - k,
    {
        plan.push(CrankBatch { count: 8, budget: invocation_budget });
        assert(plan_counts(plan@) =~= spec_plan_counts().take(18 + k + 1));
        k = k + 1;
    }
    assert(plan_counts(plan@) =~= spec_plan_counts());
    plan
}

/// Asserts at setup time that a plan's scheduled operations partition a
/// declared total exactly; a disagreement is rejected before any buffer is
/// created.
pub fn validate_plan(plan: &Vec<CrankBatch>, declared_total: usize) -> (r: Result<
    (),
    StealthError,
>)
    ensures
        r is Ok <==> spec_sum(plan_counts(plan@)) == declared_total,
        r is Err ==> r == Err::<(), StealthError>(StealthError::StepCountMismatch),
{
    let ghost counts = plan_counts(plan@);
    let n = plan.len();
    let mut acc: usize = 0;
    let mut i: usize = 0;
    while i < n
        invariant
            i <= n == plan@.len(),
            counts == plan_counts(plan@),
            acc == spec_sum(counts.take(i as int)),
        decreases n - i,
    {
        proof {
            lemma_sum_take_step(counts, i as int);
        }
        acc = match acc.checked_add(plan[i].count) {
            Some(v) => v,
            None => {
                proof {
                    assert(forall|j: int| 0 <= j < counts.len() ==> counts[j] >= 0);
                    lemma_sum_prefix_bound(counts, i + 1);
                }
                return Err(StealthError::StepCountMismatch);
            },
        };
        i = i + 1;
    }
    assert(counts.take(n as int) =~= counts);
    if acc == declared_total {
        Ok(())
    } else {
        Err(StealthError::StepCountMismatch)
    }
}

} // verus!
