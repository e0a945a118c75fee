use crate::math::Decimal;
use vstd::prelude::*;
use vstd::string::*;

verus! {

/// The one-time schedule of a launch and the amount of the distributed asset.
#[derive(Clone, Copy, Debug, PartialEq, Eq, Structural)]
pub struct LaunchConfig {
    pub amount: u128,
    /// phase 1: deposits and full withdrawals
    pub phase1_start: u64,
    /// phase 2: a single withdrawal per depositor, capped by a decaying portion
    pub phase2_start: u64,
    pub phase2_end: u64,
    /// length in seconds of each phase-2 slot
    pub phase2_slot_period: u64,
}

impl LaunchConfig {
    /// The phases are ordered and phase 2 holds at least one whole slot.
    pub open spec fn wf(self) -> bool {
        &&& self.phase1_start <= self.phase2_start
        &&& self.phase2_start <= self.phase2_end
        &&& self.phase2_slot_period > 0
        &&& self.phase2_end - self.phase2_start >= self.phase2_slot_period
    }

    pub fn is_well_formed(&self) -> (r: bool)
        ensures
            r == self.wf(),
    {
        self.phase1_start <= self.phase2_start && self.phase2_start <= self.phase2_end
            && self.phase2_slot_period > 0 && self.phase2_end - self.phase2_start
            >= self.phase2_slot_period
    }
}

#[derive(Clone, Debug, PartialEq)]
pub struct InstantiateMsg {
    pub operator: String,
    pub receiver: String,
    pub token: String,
    pub base_denom: String,
    pub host_portion: Decimal,
    pub host_portion_receiver: String,
}

#[derive(Clone, Debug, PartialEq)]
pub enum ExecuteMsg {
    Deposit {},
    Withdraw { amount: Option<u128> },
    WithdrawTokens {},
    PostInitialize { launch_config: LaunchConfig },
    AdminWithdraw {},
    ReleaseTokens {},
}

#[derive(Clone, Debug, PartialEq)]
pub enum QueryMsg {
    Config {},
    DepositInfo { address: String },
}

#[derive(Clone, Debug, PartialEq)]
pub struct ConfigResponse {
    pub operator: String,
    pub receiver: String,
    pub token: String,
    pub launch_config: Option<LaunchConfig>,
    pub base_denom: String,
    pub tokens_released: bool,
    pub host_portion: Decimal,
    pub host_portion_receiver: String,
}

#[derive(Clone, Copy, Debug, PartialEq, Eq, Structural)]
pub struct DepositResponse {
    pub deposit: u128,
    pub total_deposit: u128,
    pub withdrawable_amount: u128,
    pub tokens_to_claim: u128,
    pub can_claim: bool,
}

/// What the host tells each call about the moment and the instance.
#[derive(Clone, Debug, PartialEq)]
pub struct Env {
    /// block time, in seconds
    pub time: u64,
    pub contract_address: String,
}

#[derive(Clone, Debug, PartialEq)]
pub struct Coin {
    pub denom: String,
    pub amount: u128,
}

/// Who calls, and the funds that arrive with the call.
#[derive(Clone, Debug, PartialEq)]
pub struct MessageInfo {
    pub sender: String,
    pub funds: Vec<Coin>,
}

/// A transfer that the host is asked to carry out after the call.
#[derive(Clone, Debug, PartialEq)]
pub enum TransferMsg {
    /// send `amount` of the native asset `denom` to `to_address`
    Native { to_address: String, denom: String, amount: u128 },
    /// move `amount` of the token contract `token` from this instance to `recipient`
    Token { token: String, recipient: String, amount: u128 },
    /// pull `amount` of the token contract `token` from `owner` to `recipient`
    TokenFrom { token: String, owner: String, recipient: String, amount: u128 },
}

impl TransferMsg {
    pub open spec fn is_native(self, to: Seq<char>, denom: Seq<char>, amount: u128) -> bool {
        match self {
            TransferMsg::Native { to_address, denom: d, amount: a } => to_address@ == to && d@
                == denom && a == amount,
            _ => false,
        }
    }

    pub open spec fn is_token(self, token: Seq<char>, recipient: Seq<char>, amount: u128) -> bool {
        match self {
            TransferMsg::Token { token: t, recipient: r, amount: a } => t@ == token && r@
                == recipient && a == amount,
            _ => false,
        }
    }

    pub open spec fn is_token_from(
        self,
        token: Seq<char>,
        owner: Seq<char>,
        recipient: Seq<char>,
        amount: u128,
    ) -> bool {
        match self {
            TransferMsg::TokenFrom { token: t, owner: o, recipient: r, amount: a } => t@ == token
                && o@ == owner && r@ == recipient && a == amount,
            _ => false,
        }
    }
}

#[derive(Clone, Debug, PartialEq)]
pub struct Attribute {
    pub key: String,
    pub value: String,
}

impl Attribute {
    pub open spec fn pair(self) -> (Seq<char>, Seq<char>) {
        (self.key@, self.value@)
    }
}

/// The outcome of a successful call: transfer intents and observability attributes.
#[derive(Clone, Debug, PartialEq)]
pub struct Response {
    pub messages: Vec<TransferMsg>,
    pub attributes: Vec<Attribute>,
}

impl Response {
    pub open spec fn attribute_pairs(self) -> Seq<(Seq<char>, Seq<char>)> {
        self.attributes@.map_values(|a: Attribute| a.pair())
    }

    pub fn new() -> (r: Response)
        ensures
            r.messages@.len() == 0,
            r.attributes@.len() == 0,
    {
        Response { messages: Vec::new(), attributes: Vec::new() }
    }

    pub fn add_message(&mut self, msg: TransferMsg)
        ensures
            final(self).messages@ == old(self).messages@.push(msg),
            final(self).attributes@ == old(self).attributes@,
    {
        self.messages.push(msg);
    }

    pub fn add_attribute(&mut self, key: &str, value: String)
        ensures
            final(self).messages@ == old(self).messages@,
            final(self).attribute_pairs() == old(self).attribute_pairs().push((key@, value@)),
    {
        let attr = Attribute { key: String::from_str(key), value };
        self.attributes.push(attr);
        assert(self.attribute_pairs() =~= old(self).attribute_pairs().push((key@, value@)));
    }
}

} // verus!
