use vstd::prelude::*;

verus! {

#[derive(Clone, Debug, PartialEq)]
pub enum ContractError {
    Unauthorized {},
    DuplicatePostInit {},
    InvalidLaunchConfig {},
    InvalidHostPortion {},
    InvalidDeposit { reason: String },
    InvalidWithdraw { reason: String },
    InvalidWithdrawTokens { reason: String },
    InvalidAdminWithdraw { reason: String },
    InvalidReleaseTokens { reason: String },
    InvalidFee {},
    /// a sum left the range of the ledger's integers
    Overflow {},
}

/// An error as a mathematical value: its kind and, where it has one, its reason.
pub enum ErrorView {
    Unauthorized,
    DuplicatePostInit,
    InvalidLaunchConfig,
    InvalidHostPortion,
    InvalidDeposit(Seq<char>),
    InvalidWithdraw(Seq<char>),
    InvalidWithdrawTokens(Seq<char>),
    InvalidAdminWithdraw(Seq<char>),
    InvalidReleaseTokens(Seq<char>),
    InvalidFee,
    Overflow,
}

impl ContractError {
    pub open spec fn view(&self) -> ErrorView {
        match self {
            ContractError::Unauthorized {  } => ErrorView::Unauthorized,
            ContractError::DuplicatePostInit {  } => ErrorView::DuplicatePostInit,
            ContractError::InvalidLaunchConfig {  } => ErrorView::InvalidLaunchConfig,
            ContractError::InvalidHostPortion {  } => ErrorView::InvalidHostPortion,
            ContractError::InvalidDeposit { reason } => ErrorView::InvalidDeposit(reason@),
            ContractError::InvalidWithdraw { reason } => ErrorView::InvalidWithdraw(reason@),
            ContractError::InvalidWithdrawTokens { reason } => ErrorView::InvalidWithdrawTokens(
                reason@,
            ),
            ContractError::InvalidAdminWithdraw { reason } => ErrorView::InvalidAdminWithdraw(
                reason@,
            ),
            ContractError::InvalidReleaseTokens { reason } => ErrorView::InvalidReleaseTokens(
                reason@,
            ),
            ContractError::InvalidFee {  } => ErrorView::InvalidFee,
            ContractError::Overflow {  } => ErrorView::Overflow,
        }
    }
}

} // verus!
