//! The configuration record of the sale contract.
use vstd::prelude::*;

verus! {

/// The configuration that is stored once, when the contract is created, and
/// read by every operation. No operation of this crate changes it.
#[derive(Debug)]
pub struct State {
    /// The only address that may withdraw.
    pub owner: String,
    /// The fungible-token ledger whose tokens are sold.
    pub token_address: String,
    /// The oracle that is asked for the price.
    pub oracle_address: String,
}

/// What a [`State`] stands for in contracts.
pub ghost struct StateView {
    pub owner: Seq<char>,
    pub token_address: Seq<char>,
    pub oracle_address: Seq<char>,
}

impl View for State {
    type V = StateView;

    open spec fn view(&self) -> StateView {
        StateView {
            owner: self.owner@,
            token_address: self.token_address@,
            oracle_address: self.oracle_address@,
        }
    }
}

impl Clone for State {
    fn clone(&self) -> (r: State)
        ensures
            r@ == self@,
    {
        State {
            owner: self.owner.clone(),
            token_address: self.token_address.clone(),
            oracle_address: self.oracle_address.clone(),
        }
    }
}

impl State {
    /// Whether `sender` is the stored owner.
    pub fn is_owner(&self, sender: &String) -> (b: bool)
        ensures
            b == (sender@ == self@.owner),
    {
        *sender == self.owner
    }
}

} // verus!
