//! The price oracle: it stores one price, hands it out, and takes a new one.
use vstd::prelude::*;
use vstd::string::*;
use crate::host::MessageInfo;
use crate::purchase::attribute;
use crate::error::std_error_text;
use crate::response::{AttributeView, CommandView, Response};
use crate::text::{decimal, decimal_string};

verus! {

/// What the oracle stores.
#[derive(Debug)]
pub struct State {
    pub owner: String,
    pub price: u64,
}

/// What the creator of the oracle supplies.
#[derive(Clone, Copy, Debug, PartialEq, Eq, Structural)]
pub struct InstantiateMsg {
    pub price: u64,
}

/// A call that changes the oracle.
#[derive(Clone, Copy, Debug, PartialEq, Eq, Structural)]
pub enum ExecuteMsg {
    UpdatePrice { price: u64 },
}

/// A read-only call.
#[derive(Clone, Copy, Debug, PartialEq, Eq, Structural)]
pub enum QueryMsg {
    QueryPrice,
}

/// A failed call of the oracle.
#[derive(Debug)]
pub enum ContractError {
    /// An error of the host's standard library.
    Std(cosmwasm_std::StdError),
    Unauthorized,
    PriceInstantiationError,
    PriceUpdateError,
}

impl ContractError {
    /// The message shown to a user. For `Std` it is the text of the carried
    /// error, of which nothing is stated.
    pub fn to_string(&self) -> (s: String)
        ensures
            self is Unauthorized ==> s@ == "Unauthorized"@,
            self is PriceInstantiationError ==> s@ == "Price has to be positive."@,
            self is PriceUpdateError ==> s@ == "Price cannot be updated."@,
    {
        match self {
            ContractError::Std(e) => std_error_text(e),
            ContractError::Unauthorized => String::from_str("Unauthorized"),
            ContractError::PriceInstantiationError => String::from_str("Price has to be positive."),
            ContractError::PriceUpdateError => String::from_str("Price cannot be updated."),
        }
    }
}

/// What a new oracle stores, and the response to its creator: the sender
/// becomes the owner and the price is the one supplied.
pub fn instantiate(info: &MessageInfo, msg: InstantiateMsg) -> (r: (State, Response))
    ensures
        r.0.owner@ == info@.sender,
        r.0.price == msg.price,
        r.1@.messages == Seq::<CommandView>::empty(),
        r.1@.attributes == seq![
            attribute("owner"@, info@.sender),
            attribute("price"@, decimal(msg.price as nat)),
        ],
{
    let state = State { owner: info.sender.clone(), price: msg.price };
    let response = Response::new().add_attribute("owner", state.owner.clone()).add_attribute(
        "price",
        decimal_string(state.price as u128),
    );
    assert(response@.attributes =~= seq![
        attribute("owner"@, info@.sender),
        attribute("price"@, decimal(msg.price as nat)),
    ]);
    (state, response)
}

/// Takes a new price from any caller: the stored price becomes the one
/// supplied, the owner stays, and the response is empty.
pub fn execute(state: State, msg: ExecuteMsg) -> (r: (State, Response))
    ensures
        r.0.owner@ == state.owner@,
        r.0.price == msg->price,
        r.1@.messages == Seq::<CommandView>::empty(),
        r.1@.attributes == Seq::<AttributeView>::empty(),
{
    match msg {
        ExecuteMsg::UpdatePrice { price } => (State { price, owner: state.owner }, Response::new()),
    }
}

/// The stored price.
pub fn query(state: &State, msg: QueryMsg) -> (price: u64)
    ensures
        price == state.price,
{
    match msg {
        QueryMsg::QueryPrice => state.price,
    }
}

} // verus!
