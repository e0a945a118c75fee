use crate::math::{lemma_ratio_floor_le, lemma_ratio_floor_monotone, multiply_ratio, ratio_floor};
use crate::msg::LaunchConfig;
use crate::state::DepositInfo;
use vstd::arithmetic::div_mod::*;
use vstd::arithmetic::mul::*;
use vstd::prelude::*;

verus! {

/// The phase-2 slot that `now` falls in, counted down towards the end of phase 2.
pub open spec fn current_slot(lc: LaunchConfig, now: u64) -> int {
    (lc.phase2_end - now) / (lc.phase2_slot_period as int)
}

/// The number of whole slots in phase 2.
pub open spec fn total_slots(lc: LaunchConfig) -> int {
    (lc.phase2_end - lc.phase2_start) / (lc.phase2_slot_period as int)
}

/// `min(current_slot + 1, total_slots)`: the slots of phase 2 that are still
/// open at `now`, the current one included.
pub open spec fn slots_left(lc: LaunchConfig, now: u64) -> int {
    let n = current_slot(lc, now) + 1;
    if n < total_slots(lc) {
        n
    } else {
        total_slots(lc)
    }
}

/// `floor(amount * min(1, (current_slot + 1) / total_slots))`, the ratio kept
/// exact and truncated once: the phase-2 withdrawal ceiling of a deposit.
pub open spec fn decayed_amount(lc: LaunchConfig, amount: int, now: u64) -> int {
    ratio_floor(amount, slots_left(lc, now), total_slots(lc))
}

/// The most that a withdrawal at `now` may take: the whole deposit up to the
/// start of phase 2, the decayed share after it.
pub open spec fn withdraw_ceiling(lc: LaunchConfig, amount: int, now: u64) -> int {
    if now > lc.phase2_start {
        decayed_amount(lc, amount, now)
    } else {
        amount
    }
}

/// What a depositor could withdraw at `now`, as a query reports it: nothing
/// once phase 2 is over or its one phase-2 withdrawal is spent.
pub open spec fn withdrawable_now(lc: LaunchConfig, rec: DepositInfo, now: u64) -> int {
    if now > lc.phase2_start && rec.amount != 0 {
        if rec.withdrew_phase2 || now >= lc.phase2_end {
            0
        } else {
            decayed_amount(lc, rec.amount as int, now)
        }
    } else {
        rec.amount as int
    }
}

proof fn lemma_slots_bounds(lc: LaunchConfig, now: u64)
    requires
        lc.wf(),
        lc.phase2_start < now < lc.phase2_end,
    ensures
        0 <= current_slot(lc, now) <= total_slots(lc),
        total_slots(lc) >= 1,
        current_slot(lc, now) < u64::MAX,
{
    let period = lc.phase2_slot_period as int;
    lemma_div_is_ordered(lc.phase2_end - now, lc.phase2_end - lc.phase2_start, period);
    lemma_div_is_ordered(period, lc.phase2_end - lc.phase2_start, period);
    lemma_div_by_self(period);
    lemma_div_pos_is_pos(lc.phase2_end - now, period);
    lemma_div_is_ordered_by_denominator(lc.phase2_end - now, 1, period);
}

/// The phase-2 withdrawal ceiling of a deposit of `amount` at `now`.
pub fn decayed_withdrawable(lc: &LaunchConfig, amount: u128, now: u64) -> (r: u128)
    requires
        lc.wf(),
        lc.phase2_start < now < lc.phase2_end,
    ensures
        r == decayed_amount(*lc, amount as int, now),
        r <= amount,
{
    proof {
        lemma_slots_bounds(*lc, now);
    }
    let current_slot = (lc.phase2_end - now) / lc.phase2_slot_period;
    let total_slots = (lc.phase2_end - lc.phase2_start) / lc.phase2_slot_period;
    let slots_left = if current_slot + 1 < total_slots {
        current_slot + 1
    } else {
        total_slots
    };
    proof {
        lemma_ratio_floor_le(amount as int, slots_left as int, total_slots as int);
    }
    multiply_ratio(amount, slots_left as u128, total_slots as u128)
}

proof fn lemma_slots_left_non_increasing(lc: LaunchConfig, t1: u64, t2: u64)
    requires
        lc.wf(),
        lc.phase2_start < t1 <= t2 < lc.phase2_end,
    ensures
        1 <= slots_left(lc, t2) <= slots_left(lc, t1) <= total_slots(lc),
{
    lemma_slots_bounds(lc, t1);
    lemma_slots_bounds(lc, t2);
    lemma_div_is_ordered(
        lc.phase2_end - t2,
        lc.phase2_end - t1,
        lc.phase2_slot_period as int,
    );
}

/// Within phase 2 the amount that a depositor who has not yet withdrawn in
/// phase 2 may withdraw never grows as time passes; in the final slot it is
/// `floor(amount / total_slots)`, the least that phase 2 offers, and not zero
/// when the deposit holds at least one unit per slot; from the end of phase 2
/// on it is zero.
pub proof fn lemma_withdrawable_decays(lc: LaunchConfig, rec: DepositInfo, t1: u64, t2: u64)
    requires
        lc.wf(),
        !rec.withdrew_phase2,
        lc.phase2_start < t1 <= t2,
    ensures
        withdrawable_now(lc, rec, t2) <= withdrawable_now(lc, rec, t1),
        t2 >= lc.phase2_end ==> withdrawable_now(lc, rec, t2) == 0,
        t2 < lc.phase2_end && lc.phase2_end - t2 < lc.phase2_slot_period ==> {
            &&& withdrawable_now(lc, rec, t2) == rec.amount as int / total_slots(lc)
            &&& rec.amount >= total_slots(lc) ==> withdrawable_now(lc, rec, t2) > 0
        },
{
    if rec.amount != 0 && t1 < lc.phase2_end {
        lemma_slots_left_non_increasing(lc, t1, t1);
        lemma_ratio_floor_le(rec.amount as int, slots_left(lc, t1), total_slots(lc));
        if t2 < lc.phase2_end {
            lemma_slots_left_non_increasing(lc, t1, t2);
            lemma_ratio_floor_monotone(
                rec.amount as int,
                slots_left(lc, t2),
                slots_left(lc, t1),
                total_slots(lc),
            );
        }
    }
    if t2 < lc.phase2_end && lc.phase2_end - t2 < lc.phase2_slot_period {
        lemma_slots_bounds(lc, t2);
        lemma_basic_div(lc.phase2_end - t2, lc.phase2_slot_period as int);
        assert(slots_left(lc, t2) == 1);
        assert(rec.amount * 1 == rec.amount);
        if rec.amount == 0 {
            lemma_div_basics(total_slots(lc));
        }
        if rec.amount >= total_slots(lc) {
            lemma_div_is_ordered(total_slots(lc), rec.amount as int, total_slots(lc));
            lemma_div_by_self(total_slots(lc));
        }
    }
}

} // verus!
