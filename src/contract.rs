use crate::error::{ContractError, ErrorView};
use crate::math::{
    decimal_digits, decimal_mul_floor, decimal_text, lemma_ratio_floor_le, multiply_ratio,
    ratio_floor, DECIMAL_FRACTIONAL,
};
use crate::msg::{
    ConfigResponse, DepositResponse, Env, InstantiateMsg, LaunchConfig, MessageInfo, Response,
    TransferMsg,
};
use crate::state::{sum_amounts, Config, DepositInfo, Instance};
use crate::withdrawal::{decayed_withdrawable, withdraw_ceiling, withdrawable_now};
use vstd::prelude::*;
use vstd::string::*;

verus! {

/// A call that moves a depositor's record and the total deposit by the same amount.
pub open spec fn ledger_step(
    old_rec: DepositInfo,
    old_total: int,
    new_rec: DepositInfo,
    new_total: int,
) -> bool {
    new_total - old_total == new_rec.amount - old_rec.amount
}

/// The configuration that setup makes of its message, when it accepts it.
pub open spec fn config_of(msg: InstantiateMsg, c: Config) -> bool {
    &&& c.operator@ == msg.operator@
    &&& c.receiver@ == msg.receiver@
    &&& c.token@ == msg.token@
    &&& c.launch_config is None
    &&& c.base_denom@ == msg.base_denom@
    &&& !c.tokens_released
    &&& c.host_portion == msg.host_portion
    &&& c.host_portion_receiver@ == msg.host_portion_receiver@
}

/// Sets up an instance: its configuration, with no schedule yet and nothing
/// released, and a total deposit of zero, the sum over the empty ledger.
pub fn instantiate(msg: InstantiateMsg) -> (r: Result<Instance, ContractError>)
    ensures
        r is Ok <==> msg.host_portion.atomics < DECIMAL_FRACTIONAL,
        r is Err ==> r->Err_0@ == ErrorView::InvalidHostPortion,
        r is Ok ==> {
            &&& config_of(msg, r->Ok_0.config)
            &&& r->Ok_0.config.wf()
            &&& r->Ok_0.total_deposit == 0
            &&& r->Ok_0.total_deposit == sum_amounts(Seq::<DepositInfo>::empty())
        },
{
    if msg.host_portion.atomics >= DECIMAL_FRACTIONAL {
        return Err(ContractError::InvalidHostPortion {  });
    }
    let config = Config {
        operator: msg.operator,
        receiver: msg.receiver,
        token: msg.token,
        launch_config: None,
        base_denom: msg.base_denom,
        tokens_released: false,
        host_portion: msg.host_portion,
        host_portion_receiver: msg.host_portion_receiver,
    };
    Ok(Instance { config, total_deposit: 0 })
}

pub open spec fn post_initialize_rejection(
    config: Config,
    now: u64,
    sender: Seq<char>,
    lc: LaunchConfig,
) -> Option<ErrorView> {
    if sender != config.operator@ {
        Some(ErrorView::Unauthorized)
    } else if config.launch_config is Some {
        Some(ErrorView::DuplicatePostInit)
    } else if now > lc.phase1_start || !lc.wf() {
        Some(ErrorView::InvalidLaunchConfig)
    } else {
        None
    }
}

/// The operator sets the schedule, once, before phase 1 starts; the full
/// distributed amount is then pulled from the operator into the instance.
pub fn post_initialize(
    config: &mut Config,
    env: &Env,
    info: &MessageInfo,
    launch_config: LaunchConfig,
) -> (r: Result<Response, ContractError>)
    requires
        old(config).wf(),
    ensures
        final(config).wf(),
        match post_initialize_rejection(*old(config), env.time, info.sender@, launch_config) {
            Some(e) => r is Err && r->Err_0@ == e && *final(config) == *old(config),
            None => {
                &&& r is Ok
                &&& *final(config) == (Config {
                    launch_config: Some(launch_config),
                    ..*old(config)
                })
                &&& r->Ok_0.messages@.len() == 1
                &&& r->Ok_0.messages@[0].is_token_from(
                    old(config).token@,
                    info.sender@,
                    env.contract_address@,
                    launch_config.amount,
                )
                &&& r->Ok_0.attributes@.len() == 0
            },
        },
{
    if !(info.sender == config.operator) {
        return Err(ContractError::Unauthorized {  });
    }
    if config.launch_config.is_some() {
        return Err(ContractError::DuplicatePostInit {  });
    }
    if env.time > launch_config.phase1_start || !launch_config.is_well_formed() {
        return Err(ContractError::InvalidLaunchConfig {  });
    }
    config.launch_config = Some(launch_config);
    let mut res = Response::new();
    res.add_message(
        TransferMsg::TokenFrom {
            token: config.token.clone(),
            owner: info.sender.clone(),
            recipient: env.contract_address.clone(),
            amount: launch_config.amount,
        },
    );
    Ok(res)
}

pub open spec fn deposit_rejection(
    config: Config,
    total: u128,
    now: u64,
    info: MessageInfo,
) -> Option<ErrorView> {
    let lc = config.launch_config->Some_0;
    let funds = info.funds@;
    if now < lc.phase1_start {
        Some(ErrorView::InvalidDeposit("deposit period did not start yet"@))
    } else if now >= lc.phase2_start {
        Some(ErrorView::InvalidDeposit("deposit period is over"@))
    } else if funds.len() != 1 {
        Some(ErrorView::InvalidDeposit("requires 1 coin deposited"@))
    } else if funds[0].denom@ != config.base_denom@ || funds[0].amount == 0 {
        Some(
            ErrorView::InvalidDeposit("requires "@ + config.base_denom@ + " and positive amount"@),
        )
    } else if total + funds[0].amount > u128::MAX {
        Some(ErrorView::Overflow)
    } else {
        None
    }
}

/// Adds the single coin of base asset sent with the call to the sender's
/// record and to the total, during phase 1.
pub fn deposit(
    config: &Config,
    record: &mut DepositInfo,
    total_deposit: &mut u128,
    env: &Env,
    info: &MessageInfo,
) -> (r: Result<Response, ContractError>)
    requires
        config.launch_config is Some,
        old(record).amount <= *old(total_deposit),
    ensures
        ledger_step(*old(record), *old(total_deposit) as int, *final(record), *final(total_deposit) as int),
        final(record).amount <= *final(total_deposit),
        match deposit_rejection(*config, *old(total_deposit), env.time, *info) {
            Some(e) => {
                &&& r is Err && r->Err_0@ == e
                &&& *final(record) == *old(record)
                &&& *final(total_deposit) == *old(total_deposit)
            },
            None => {
                &&& r is Ok
                &&& final(record).amount == old(record).amount + info.funds@[0].amount
                &&& final(record).withdrew_phase2 == old(record).withdrew_phase2
                &&& final(record).tokens_claimed == old(record).tokens_claimed
                &&& *final(total_deposit) == *old(total_deposit) + info.funds@[0].amount
                &&& r->Ok_0.messages@.len() == 0
                &&& r->Ok_0.attribute_pairs() == seq![("action"@, "deposit"@)]
            },
        },
{
    let lc = config.launch_config.unwrap();
    if env.time < lc.phase1_start {
        return Err(
            ContractError::InvalidDeposit {
                reason: String::from_str("deposit period did not start yet"),
            },
        );
    }
    if env.time >= lc.phase2_start {
        return Err(
            ContractError::InvalidDeposit { reason: String::from_str("deposit period is over") },
        );
    }
    if info.funds.len() != 1 {
        return Err(
            ContractError::InvalidDeposit { reason: String::from_str("requires 1 coin deposited") },
        );
    }
    let coin = &info.funds[0];
    if !(coin.denom == config.base_denom) || coin.amount == 0 {
        let mut reason = String::from_str("requires ");
        reason.append(config.base_denom.as_str());
        reason.append(" and positive amount");
        return Err(ContractError::InvalidDeposit { reason });
    }
    if coin.amount > u128::MAX - *total_deposit {
        return Err(ContractError::Overflow {  });
    }
    record.amount = record.amount + coin.amount;
    *total_deposit = *total_deposit + coin.amount;
    let mut res = Response::new();
    res.add_attribute("action", String::from_str("deposit"));
    Ok(res)
}

/// The amount a withdrawal takes: the whole ceiling unless an amount is asked for.
pub open spec fn withdraw_amount(lc: LaunchConfig, rec: DepositInfo, now: u64, amount: Option<u128>) -> int {
    match amount {
        None => withdraw_ceiling(lc, rec.amount as int, now),
        Some(a) => a as int,
    }
}

pub open spec fn withdraw_rejection(
    config: Config,
    rec: DepositInfo,
    now: u64,
    amount: Option<u128>,
) -> Option<ErrorView> {
    let lc = config.launch_config->Some_0;
    let ceiling = withdraw_ceiling(lc, rec.amount as int, now);
    if now >= lc.phase2_end {
        Some(ErrorView::InvalidWithdraw("withdraw period is over"@))
    } else if rec.amount == 0 {
        Some(ErrorView::InvalidWithdraw("no funds available to withdraw"@))
    } else if now > lc.phase2_start && rec.withdrew_phase2 {
        Some(ErrorView::InvalidWithdraw("a withdraw was already executed on phase 2"@))
    } else {
        match amount {
            None => None,
            Some(a) => if a > ceiling {
                Some(
                    ErrorView::InvalidWithdraw(
                        "can not withdraw more than current withdrawable amount ("@
                            + decimal_digits(ceiling as nat) + ")"@,
                    ),
                )
            } else if a == 0 {
                Some(ErrorView::InvalidWithdraw("withdraw amount must be bigger than 0"@))
            } else {
                None
            },
        }
    }
}

/// The sender's record after a successful withdrawal: the amount taken is
/// gone and, in phase 2, the one phase-2 withdrawal is spent whatever was asked.
pub open spec fn withdrawn_record(
    lc: LaunchConfig,
    rec: DepositInfo,
    now: u64,
    amount: Option<u128>,
) -> DepositInfo {
    DepositInfo {
        amount: (rec.amount - withdraw_amount(lc, rec, now, amount)) as u128,
        withdrew_phase2: rec.withdrew_phase2 || now > lc.phase2_start,
        tokens_claimed: rec.tokens_claimed,
    }
}

/// Takes base asset back out of the sender's deposit: any part of it up to
/// the start of phase 2, then once only and at most the decayed share.
pub fn withdraw(
    config: &Config,
    record: &mut DepositInfo,
    total_deposit: &mut u128,
    env: &Env,
    info: &MessageInfo,
    amount: Option<u128>,
) -> (r: Result<Response, ContractError>)
    requires
        config.wf(),
        config.launch_config is Some,
        old(record).amount <= *old(total_deposit),
    ensures
        ledger_step(*old(record), *old(total_deposit) as int, *final(record), *final(total_deposit) as int),
        final(record).amount <= *final(total_deposit),
        match withdraw_rejection(*config, *old(record), env.time, amount) {
            Some(e) => {
                &&& r is Err && r->Err_0@ == e
                &&& *final(record) == *old(record)
                &&& *final(total_deposit) == *old(total_deposit)
            },
            None => {
                let lc = config.launch_config->Some_0;
                let taken = withdraw_amount(lc, *old(record), env.time, amount);
                &&& r is Ok
                &&& 0 <= taken <= old(record).amount
                &&& *final(record) == withdrawn_record(lc, *old(record), env.time, amount)
                &&& *final(total_deposit) == *old(total_deposit) - taken
                &&& r->Ok_0.messages@.len() == 1
                &&& r->Ok_0.messages@[0].is_native(
                    info.sender@,
                    config.base_denom@,
                    taken as u128,
                )
                &&& r->Ok_0.attribute_pairs() == seq![
                    ("action"@, "withdraw"@),
                    ("withdraw_amount"@, decimal_digits(taken as nat)),
                ]
            },
        },
{
    let lc = config.launch_config.unwrap();
    let now = env.time;
    if now >= lc.phase2_end {
        return Err(
            ContractError::InvalidWithdraw { reason: String::from_str("withdraw period is over") },
        );
    }
    if record.amount == 0 {
        return Err(
            ContractError::InvalidWithdraw {
                reason: String::from_str("no funds available to withdraw"),
            },
        );
    }
    let in_phase2 = now > lc.phase2_start;
    let withdrawable_amount = if in_phase2 {
        if record.withdrew_phase2 {
            return Err(
                ContractError::InvalidWithdraw {
                    reason: String::from_str("a withdraw was already executed on phase 2"),
                },
            );
        }
        decayed_withdrawable(&lc, record.amount, now)
    } else {
        record.amount
    };
    let withdraw_amount = match amount {
        None => withdrawable_amount,
        Some(requested_amount) => {
            if requested_amount > withdrawable_amount {
                let mut reason = String::from_str(
                    "can not withdraw more than current withdrawable amount (",
                );
                let digits = decimal_text(withdrawable_amount);
                reason.append(digits.as_str());
                reason.append(")");
                return Err(ContractError::InvalidWithdraw { reason });
            }
            if requested_amount == 0 {
                return Err(
                    ContractError::InvalidWithdraw {
                        reason: String::from_str("withdraw amount must be bigger than 0"),
                    },
                );
            }
            requested_amount
        },
    };
    record.amount = record.amount - withdraw_amount;
    if in_phase2 {
        record.withdrew_phase2 = true;
    }
    *total_deposit = *total_deposit - withdraw_amount;
    let mut res = Response::new();
    res.add_message(
        TransferMsg::Native {
            to_address: info.sender.clone(),
            denom: config.base_denom.clone(),
            amount: withdraw_amount,
        },
    );
    res.add_attribute("action", String::from_str("withdraw"));
    res.add_attribute("withdraw_amount", decimal_text(withdraw_amount));
    Ok(res)
}

/// The distributed-asset share of a recorded amount: `floor(launch_amount * amount / total)`,
/// nothing while the total is zero.
pub open spec fn claim_amount(lc: LaunchConfig, amount: u128, total: u128) -> int {
    if total == 0 {
        0
    } else {
        ratio_floor(lc.amount as int, amount as int, total as int)
    }
}

fn tokens_for(lc: &LaunchConfig, amount: u128, total: u128) -> (r: u128)
    requires
        amount <= total,
    ensures
        r == claim_amount(*lc, amount, total),
{
    if total == 0 {
        0
    } else {
        proof {
            lemma_ratio_floor_le(lc.amount as int, amount as int, total as int);
        }
        multiply_ratio(lc.amount, amount, total)
    }
}

pub open spec fn withdraw_tokens_rejection(
    config: Config,
    rec: Option<DepositInfo>,
    total: u128,
    now: u64,
) -> Option<ErrorView> {
    let lc = config.launch_config->Some_0;
    if now < lc.phase2_end || !config.tokens_released {
        Some(ErrorView::InvalidWithdrawTokens("cannot withdraw tokens yet"@))
    } else if rec is None {
        Some(ErrorView::InvalidWithdrawTokens("deposit information not found"@))
    } else if rec->Some_0.tokens_claimed {
        Some(ErrorView::InvalidWithdrawTokens("tokens were already claimed"@))
    } else if claim_amount(lc, rec->Some_0.amount, total) == 0 {
        Some(ErrorView::InvalidWithdrawTokens("no tokens available for withdraw"@))
    } else {
        None
    }
}

pub open spec fn claimed_record(rec: DepositInfo) -> DepositInfo {
    DepositInfo { tokens_claimed: true, ..rec }
}

/// After phase 2 and the release, a depositor claims, once, its pro-rata
/// share of the distributed asset; the record is kept as the claim's trace.
pub fn withdraw_tokens(
    config: &Config,
    record: &mut Option<DepositInfo>,
    total_deposit: u128,
    env: &Env,
    info: &MessageInfo,
) -> (r: Result<Response, ContractError>)
    requires
        config.launch_config is Some,
        match *old(record) {
            Some(d) => d.amount <= total_deposit,
            None => true,
        },
    ensures
        match withdraw_tokens_rejection(*config, *old(record), total_deposit, env.time) {
            Some(e) => r is Err && r->Err_0@ == e && *final(record) == *old(record),
            None => {
                let rec = old(record)->Some_0;
                let amount = claim_amount(config.launch_config->Some_0, rec.amount, total_deposit);
                &&& r is Ok
                &&& *final(record) == Some(claimed_record(rec))
                &&& r->Ok_0.messages@.len() == 1
                &&& r->Ok_0.messages@[0].is_token(config.token@, info.sender@, amount as u128)
                &&& r->Ok_0.attribute_pairs() == seq![
                    ("action"@, "withdraw_tokens"@),
                    ("withdraw_amount"@, decimal_digits(amount as nat)),
                ]
            },
        },
{
    let lc = config.launch_config.unwrap();
    if env.time < lc.phase2_end || !config.tokens_released {
        return Err(
            ContractError::InvalidWithdrawTokens {
                reason: String::from_str("cannot withdraw tokens yet"),
            },
        );
    }
    let rec = match *record {
        Some(d) => d,
        None => {
            return Err(
                ContractError::InvalidWithdrawTokens {
                    reason: String::from_str("deposit information not found"),
                },
            );
        },
    };
    if rec.tokens_claimed {
        return Err(
            ContractError::InvalidWithdrawTokens {
                reason: String::from_str("tokens were already claimed"),
            },
        );
    }
    let amount = tokens_for(&lc, rec.amount, total_deposit);
    if amount == 0 {
        return Err(
            ContractError::InvalidWithdrawTokens {
                reason: String::from_str("no tokens available for withdraw"),
            },
        );
    }
    *record = Some(DepositInfo { tokens_claimed: true, ..rec });
    let mut res = Response::new();
    res.add_message(
        TransferMsg::Token {
            token: config.token.clone(),
            recipient: info.sender.clone(),
            amount,
        },
    );
    res.add_attribute("action", String::from_str("withdraw_tokens"));
    res.add_attribute("withdraw_amount", decimal_text(amount));
    Ok(res)
}

pub open spec fn release_rejection(config: Config, now: u64, sender: Seq<char>) -> Option<
    ErrorView,
> {
    if sender != config.operator@ {
        Some(ErrorView::Unauthorized)
    } else if now < config.launch_config->Some_0.phase2_end {
        Some(ErrorView::InvalidReleaseTokens("cannot release tokens yet"@))
    } else if config.tokens_released {
        Some(ErrorView::InvalidReleaseTokens("tokens are already released"@))
    } else {
        None
    }
}

pub open spec fn released_config(config: Config) -> Config {
    Config { tokens_released: true, ..config }
}

/// The operator opens the claims, once, after phase 2.
pub fn release_tokens(config: &mut Config, env: &Env, info: &MessageInfo) -> (r: Result<
    Response,
    ContractError,
>)
    requires
        old(config).wf(),
        old(config).launch_config is Some,
    ensures
        final(config).wf(),
        match release_rejection(*old(config), env.time, info.sender@) {
            Some(e) => r is Err && r->Err_0@ == e && *final(config) == *old(config),
            None => {
                &&& r is Ok
                &&& *final(config) == released_config(*old(config))
                &&& r->Ok_0.messages@.len() == 0
                &&& r->Ok_0.attribute_pairs() == seq![("action"@, "release_tokens"@)]
            },
        },
{
    let lc = config.launch_config.unwrap();
    if !(info.sender == config.operator) {
        return Err(ContractError::Unauthorized {  });
    }
    if env.time < lc.phase2_end {
        return Err(
            ContractError::InvalidReleaseTokens {
                reason: String::from_str("cannot release tokens yet"),
            },
        );
    }
    if config.tokens_released {
        return Err(
            ContractError::InvalidReleaseTokens {
                reason: String::from_str("tokens are already released"),
            },
        );
    }
    config.tokens_released = true;
    let mut res = Response::new();
    res.add_attribute("action", String::from_str("release_tokens"));
    Ok(res)
}

pub open spec fn admin_withdraw_rejection(config: Config, now: u64, sender: Seq<char>) -> Option<
    ErrorView,
> {
    if sender != config.operator@ {
        Some(ErrorView::Unauthorized)
    } else if now < config.launch_config->Some_0.phase2_end {
        Some(ErrorView::InvalidAdminWithdraw("cannot withdraw funds yet"@))
    } else {
        None
    }
}

/// The host's part of a sweep of `balance`: `floor(balance * host_portion)`.
pub open spec fn host_amount(config: Config, balance: u128) -> int {
    decimal_mul_floor(balance as int, config.host_portion.atomics as int)
}

/// After phase 2 the operator sweeps the instance's base-asset `balance`
/// (as the host reports it): the host portion to the host's beneficiary when
/// it is not zero, the rest, even zero, to the receiver.
pub fn admin_withdraw(config: &Config, env: &Env, info: &MessageInfo, balance: u128) -> (r: Result<
    Response,
    ContractError,
>)
    requires
        config.wf(),
        config.launch_config is Some,
    ensures
        match admin_withdraw_rejection(*config, env.time, info.sender@) {
            Some(e) => r is Err && r->Err_0@ == e,
            None => {
                let host = host_amount(*config, balance);
                let rest = balance - host;
                let msgs = r->Ok_0.messages@;
                &&& r is Ok
                &&& 0 <= host <= balance
                &&& host != 0 ==> {
                    &&& msgs.len() == 2
                    &&& msgs[0].is_native(
                        config.host_portion_receiver@,
                        config.base_denom@,
                        host as u128,
                    )
                    &&& msgs[1].is_native(config.receiver@, config.base_denom@, rest as u128)
                }
                &&& host == 0 ==> {
                    &&& msgs.len() == 1
                    &&& msgs[0].is_native(config.receiver@, config.base_denom@, rest as u128)
                }
                &&& r->Ok_0.attribute_pairs() == seq![
                    ("action"@, "admin_withdraw"@),
                    ("total_withdraw_amount"@, decimal_digits(balance as nat)),
                    ("host_amount"@, decimal_digits(host as nat)),
                    ("remaining_amount"@, decimal_digits(rest as nat)),
                ]
            },
        },
{
    let lc = config.launch_config.unwrap();
    if !(info.sender == config.operator) {
        return Err(ContractError::Unauthorized {  });
    }
    if env.time < lc.phase2_end {
        return Err(
            ContractError::InvalidAdminWithdraw {
                reason: String::from_str("cannot withdraw funds yet"),
            },
        );
    }
    let host = config.host_portion.mul_floor(balance);
    let rest = balance - host;
    let mut res = Response::new();
    if host != 0 {
        res.add_message(
            TransferMsg::Native {
                to_address: config.host_portion_receiver.clone(),
                denom: config.base_denom.clone(),
                amount: host,
            },
        );
    }
    res.add_message(
        TransferMsg::Native {
            to_address: config.receiver.clone(),
            denom: config.base_denom.clone(),
            amount: rest,
        },
    );
    res.add_attribute("action", String::from_str("admin_withdraw"));
    res.add_attribute("total_withdraw_amount", decimal_text(balance));
    res.add_attribute("host_amount", decimal_text(host));
    res.add_attribute("remaining_amount", decimal_text(rest));
    Ok(res)
}

pub fn query_config(config: &Config) -> (r: ConfigResponse)
    ensures
        r.operator@ == config.operator@,
        r.receiver@ == config.receiver@,
        r.token@ == config.token@,
        r.launch_config == config.launch_config,
        r.base_denom@ == config.base_denom@,
        r.tokens_released == config.tokens_released,
        r.host_portion == config.host_portion,
        r.host_portion_receiver@ == config.host_portion_receiver@,
{
    config.as_res()
}

/// A depositor's snapshot at `env.time`: the recorded amount, the total,
/// what could be withdrawn now, the claim it holds and whether it can be made.
pub fn query_deposit_info(
    config: &Config,
    record: &DepositInfo,
    total_deposit: u128,
    env: &Env,
) -> (r: DepositResponse)
    requires
        config.wf(),
        config.launch_config is Some,
        record.amount <= total_deposit,
    ensures
        ({
            let lc = config.launch_config->Some_0;
            let tokens = claim_amount(lc, record.amount, total_deposit);
            r == DepositResponse {
                deposit: record.amount,
                total_deposit,
                withdrawable_amount: withdrawable_now(lc, *record, env.time) as u128,
                tokens_to_claim: tokens as u128,
                can_claim: env.time >= lc.phase2_end && tokens != 0 && config.tokens_released
                    && !record.tokens_claimed,
            }
        }),
{
    let lc = config.launch_config.unwrap();
    let now = env.time;
    let withdrawable_amount = if now > lc.phase2_start && record.amount != 0 {
        if record.withdrew_phase2 || now >= lc.phase2_end {
            0
        } else {
            decayed_withdrawable(&lc, record.amount, now)
        }
    } else {
        record.amount
    };
    let tokens_to_claim = tokens_for(&lc, record.amount, total_deposit);
    DepositResponse {
        deposit: record.amount,
        total_deposit,
        withdrawable_amount,
        tokens_to_claim,
        can_claim: now >= lc.phase2_end && tokens_to_claim != 0 && config.tokens_released
            && !record.tokens_claimed,
    }
}

} // verus!
