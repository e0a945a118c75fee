use crate::math::{Decimal, DECIMAL_FRACTIONAL};
use crate::msg::{ConfigResponse, LaunchConfig};
use vstd::prelude::*;

verus! {

/// The singleton configuration of an instance.
#[derive(Clone, Debug, PartialEq)]
pub struct Config {
    pub operator: String,
    pub receiver: String,
    pub token: String,
    pub launch_config: Option<LaunchConfig>,
    pub base_denom: String,
    pub tokens_released: bool,
    pub host_portion: Decimal,
    pub host_portion_receiver: String,
}

impl Config {
    /// The host portion is a fraction below one, and a schedule, once set, is well formed.
    pub open spec fn wf(&self) -> bool {
        &&& self.host_portion.atomics < DECIMAL_FRACTIONAL
        &&& self.launch_config matches Some(lc) ==> lc.wf()
    }

    pub fn as_res(&self) -> (r: ConfigResponse)
        ensures
            r.operator@ == self.operator@,
            r.receiver@ == self.receiver@,
            r.token@ == self.token@,
            r.launch_config == self.launch_config,
            r.base_denom@ == self.base_denom@,
            r.tokens_released == self.tokens_released,
            r.host_portion == self.host_portion,
            r.host_portion_receiver@ == self.host_portion_receiver@,
    {
        ConfigResponse {
            operator: self.operator.clone(),
            receiver: self.receiver.clone(),
            token: self.token.clone(),
            launch_config: self.launch_config,
            base_denom: self.base_denom.clone(),
            tokens_released: self.tokens_released,
            host_portion: self.host_portion,
            host_portion_receiver: self.host_portion_receiver.clone(),
        }
    }
}

/// A new instance: its configuration, and a total deposit of zero over a
/// ledger in which no depositor has a record yet.
#[derive(Clone, Debug, PartialEq)]
pub struct Instance {
    pub config: Config,
    pub total_deposit: u128,
}

/// One depositor's record; a depositor without one reads as the default record.
#[derive(Clone, Copy, Debug, PartialEq, Eq, Structural)]
pub struct DepositInfo {
    pub amount: u128,
    pub withdrew_phase2: bool,
    pub tokens_claimed: bool,
}

impl Default for DepositInfo {
    fn default() -> (r: DepositInfo)
        ensures
            r == empty_deposit(),
    {
        DepositInfo { amount: 0, withdrew_phase2: false, tokens_claimed: false }
    }
}

pub open spec fn empty_deposit() -> DepositInfo {
    DepositInfo { amount: 0, withdrew_phase2: false, tokens_claimed: false }
}

/// The sum of the recorded amounts of a ledger of depositors.
pub open spec fn sum_amounts(ledger: Seq<DepositInfo>) -> int
    decreases ledger.len(),
{
    if ledger.len() == 0 {
        0
    } else {
        sum_amounts(ledger.drop_last()) + ledger.last().amount
    }
}

/// Replacing one record changes the sum by exactly the change of that record.
pub proof fn lemma_sum_update(ledger: Seq<DepositInfo>, i: int, rec: DepositInfo)
    requires
        0 <= i < ledger.len(),
    ensures
        sum_amounts(ledger.update(i, rec)) == sum_amounts(ledger) - ledger[i].amount + rec.amount,
    decreases ledger.len(),
{
    let updated = ledger.update(i, rec);
    if i == ledger.len() - 1 {
        assert(updated.drop_last() =~= ledger.drop_last());
    } else {
        lemma_sum_update(ledger.drop_last(), i, rec);
        assert(updated.drop_last() =~= ledger.drop_last().update(i, rec));
    }
}

/// Each recorded amount is at most the sum of the ledger.
pub proof fn lemma_amount_le_sum(ledger: Seq<DepositInfo>, i: int)
    requires
        0 <= i < ledger.len(),
    ensures
        0 <= ledger[i].amount <= sum_amounts(ledger),
    decreases ledger.len(),
{
    lemma_sum_nonnegative(ledger.drop_last());
    if i < ledger.len() - 1 {
        lemma_amount_le_sum(ledger.drop_last(), i);
    }
}

pub proof fn lemma_sum_nonnegative(ledger: Seq<DepositInfo>)
    ensures
        sum_amounts(ledger) >= 0,
    decreases ledger.len(),
{
    if ledger.len() > 0 {
        lemma_sum_nonnegative(ledger.drop_last());
    }
}

} // verus!
