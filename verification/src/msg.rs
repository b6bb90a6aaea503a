//! The messages that the sale contract accepts and answers.
use vstd::prelude::*;

verus! {

/// What the creator of the contract supplies.
#[derive(Debug)]
pub struct InstantiateMsg {
    pub token_address: String,
    pub oracle_address: String,
}

/// A call that may change balances.
#[derive(Clone, Copy, Debug, PartialEq, Eq, Structural)]
#[allow(inconsistent_fields)]
pub enum ExecuteMsg {
    /// Buy tokens with the attached funds.
    Buy,
    /// Start a withdrawal of `amount` to the owner.
    Withdraw { amount: u64 },
    /// Second stage of a withdrawal: swap the claimed rewards.
    WithdrawStep2ConvertRewardsToLuna { amount: u64 },
    /// Third stage of a withdrawal: pay `amount` out.
    WithdrawStep3SendLuna { amount: u64 },
    /// Undelegate `amount` from the validator.
    StartUndelegation { amount: u128 },
}

/// A read-only call.
#[derive(Debug)]
pub enum QueryMsg {
    /// Which ledger's tokens are sold.
    QueryTokenAddress,
    /// The oracle's current price.
    QueryPrice,
    /// The balance of `address`.
    Balance { address: String },
}

/// What a [`QueryMsg`] stands for in contracts.
pub ghost enum QueryMsgView {
    QueryTokenAddress,
    QueryPrice,
    Balance { address: Seq<char> },
}

impl View for QueryMsg {
    type V = QueryMsgView;

    open spec fn view(&self) -> QueryMsgView {
        match *self {
            QueryMsg::QueryTokenAddress => QueryMsgView::QueryTokenAddress,
            QueryMsg::QueryPrice => QueryMsgView::QueryPrice,
            QueryMsg::Balance { address } => QueryMsgView::Balance { address: address@ },
        }
    }
}

/// The oracle's answer: the price of one token in the settlement
/// denomination.
#[derive(Clone, Copy, Debug, PartialEq, Eq, Structural)]
pub struct PriceResponse {
    pub price: u64,
}

/// The answer to `QueryMsg::QueryTokenAddress`.
#[derive(Debug)]
pub struct QueryTokenAddressResponse {
    pub token_address: String,
}

} // verus!
