use crate::contract::{
    claimed_record, ledger_step, release_rejection, released_config, withdraw_rejection,
    withdraw_tokens_rejection, withdrawn_record,
};
use crate::error::ErrorView;
use crate::state::{
    empty_deposit, lemma_amount_le_sum, lemma_sum_update, sum_amounts, Config, DepositInfo,
};
use vstd::prelude::*;

verus! {

/// The total deposit stays the sum of the recorded amounts of all
/// depositors: a call that moves one depositor's record and the total by the
/// same amount (as `deposit` and `withdraw` do; no other call moves either)
/// keeps the two equal, and leaves every record within the total.
pub proof fn total_deposit_tracks_ledger(
    ledger: Seq<DepositInfo>,
    i: int,
    total: int,
    rec: DepositInfo,
    new_total: int,
)
    requires
        0 <= i < ledger.len(),
        total == sum_amounts(ledger),
        ledger_step(ledger[i], total, rec, new_total),
    ensures
        new_total == sum_amounts(ledger.update(i, rec)),
        forall|j: int|
            0 <= j < ledger.len() ==> #[trigger] ledger.update(i, rec)[j].amount <= new_total,
{
    lemma_sum_update(ledger, i, rec);
    assert forall|j: int| 0 <= j < ledger.len() implies #[trigger] ledger.update(i, rec)[j].amount
        <= new_total by {
        lemma_amount_le_sum(ledger.update(i, rec), j);
    }
}

/// A depositor without a record reads as the empty record, which adds
/// nothing to the sum of the ledger.
pub proof fn new_depositor_adds_nothing(ledger: Seq<DepositInfo>)
    ensures
        sum_amounts(ledger.push(empty_deposit())) == sum_amounts(ledger),
{
    assert(ledger.push(empty_deposit()).drop_last() =~= ledger);
}

/// Once released, the tokens cannot be released again: a later release by
/// the operator fails as already released.
pub proof fn release_only_once(config: Config, now: u64, sender: Seq<char>, later: u64)
    requires
        config.launch_config is Some,
        release_rejection(config, now, sender) is None,
        now <= later,
    ensures
        release_rejection(released_config(config), later, config.operator@) == Some(
            ErrorView::InvalidReleaseTokens("tokens are already released"@),
        ),
{
}

/// A depositor claims at most once: after a successful claim, a later claim
/// fails as already claimed.
pub proof fn claim_only_once(config: Config, rec: DepositInfo, total: u128, now: u64, later: u64)
    requires
        config.launch_config is Some,
        withdraw_tokens_rejection(config, Some(rec), total, now) is None,
        now <= later,
    ensures
        withdraw_tokens_rejection(config, Some(claimed_record(rec)), total, later) == Some(
            ErrorView::InvalidWithdrawTokens("tokens were already claimed"@),
        ),
{
}

/// A successful phase-2 withdrawal spends the depositor's phase-2 right
/// whatever amount it asked for; while funds remain, a later withdrawal in
/// phase 2 fails as already executed.
pub proof fn phase2_withdraw_only_once(
    config: Config,
    rec: DepositInfo,
    now: u64,
    amount: Option<u128>,
    later: u64,
    again: Option<u128>,
)
    requires
        config.wf(),
        config.launch_config is Some,
        withdraw_rejection(config, rec, now, amount) is None,
        config.launch_config->Some_0.phase2_start < now <= later,
        later < config.launch_config->Some_0.phase2_end,
        withdrawn_record(config.launch_config->Some_0, rec, now, amount).amount != 0,
    ensures
        withdrawn_record(config.launch_config->Some_0, rec, now, amount).withdrew_phase2,
        withdraw_rejection(
            config,
            withdrawn_record(config.launch_config->Some_0, rec, now, amount),
            later,
            again,
        ) == Some(ErrorView::InvalidWithdraw("a withdraw was already executed on phase 2"@)),
{
}

} // verus!
