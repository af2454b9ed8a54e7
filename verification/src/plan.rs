//! Transfer-plan validation for fan-out payments: the per-recipient amounts
//! must be as many as the recipients and must sum, without overflow, to the
//! caller's claimed total; an empty plan is rejected by policy.

use vstd::prelude::*;

use crate::error::ValidationError;

verus! {

/// The mathematical sum of a sequence of amounts.
pub open spec fn sum(amounts: Seq<u64>) -> int
    decreases amounts.len(),
{
    if amounts.len() == 0 {
        0
    } else {
        sum(amounts.drop_last()) + amounts.last()
    }
}

/// Summing one more element adds exactly that element.
pub proof fn lemma_sum_take_step(amounts: Seq<u64>, i: int)
    requires
        0 <= i < amounts.len(),
    ensures
        sum(amounts.take(i + 1)) == sum(amounts.take(i)) + amounts[i],
{
    assert(amounts.take(i + 1).drop_last() =~= amounts.take(i));
}

/// Every amount is non-negative, so a prefix never sums to more than the whole.
pub proof fn lemma_sum_take_bound(amounts: Seq<u64>, i: int)
    requires
        0 <= i <= amounts.len(),
    ensures
        sum(amounts.take(i)) <= sum(amounts),
    decreases amounts.len() - i,
{
    if i < amounts.len() {
        lemma_sum_take_step(amounts, i);
        lemma_sum_take_bound(amounts, i + 1);
    } else {
        assert(amounts.take(i) =~= amounts);
    }
}

/// The outcome the plan validator owes for given inputs: the first violated
/// rule, or nothing when the plan is acceptable.
pub open spec fn plan_violation(amounts: Seq<u64>, total: u64, recipient_count: int) -> Option<
    ValidationError,
> {
    if amounts.len() != recipient_count {
        Some(ValidationError::LengthMismatch)
    } else if amounts.len() == 0 {
        Some(ValidationError::EmptyPlan)
    } else if sum(amounts) > u64::MAX {
        Some(ValidationError::AmountOverflow)
    } else if sum(amounts) != total {
        Some(ValidationError::SumMismatch)
    } else {
        None
    }
}

/// Accepts exactly the plans whose amounts are as many as the recipients and
/// sum — within the integer range — to `total`; otherwise reports the first
/// violated rule. Purely advisory: moves no value.
pub fn validate_plan(amounts: &Vec<u64>, total: u64, recipient_count: usize) -> (r: Result<
    (),
    ValidationError,
>)
    ensures
        r is Ok <==> plan_violation(amounts@, total, recipient_count as int) is None,
        r matches Err(e) ==> plan_violation(amounts@, total, recipient_count as int) == Some(e),
        r is Ok <==> amounts@.len() == recipient_count && amounts@.len() > 0 && sum(amounts@)
            == total,
{
    if amounts.len() != recipient_count {
        return Err(ValidationError::LengthMismatch);
    }
    if amounts.len() == 0 {
        return Err(ValidationError::EmptyPlan);
    }
    let mut acc: u64 = 0;
    let mut i: usize = 0;
    while i < amounts.len()
        invariant
            i <= amounts@.len(),
            acc == sum(amounts@.take(i as int)),
            amounts@.len() == recipient_count,
            amounts@.len() > 0,
        decreases amounts@.len() - i,
    {
        let a = amounts[i];
        proof {
            lemma_sum_take_step(amounts@, i as int);
        }
        if a > u64::MAX - acc {
            proof {
                lemma_sum_take_bound(amounts@, i + 1);
            }
            return Err(ValidationError::AmountOverflow);
        }
        acc = acc + a;
        i += 1;
    }
    proof {
        assert(amounts@.take(amounts@.len() as int) =~= amounts@);
    }
    if acc != total {
        return Err(ValidationError::SumMismatch);
    }
    Ok(())
}

} // verus!
