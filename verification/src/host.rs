//! The values that pass between the contract and its host: who calls, what
//! the contract must ask of its collaborators, and what they answer.
//!
//! An operation never talks to a collaborator itself. It is a function from
//! the call and the answers received so far to the next step: either a
//! question for the host to put, or the outcome of the call.
use vstd::prelude::*;
use crate::coin::{coins_view, Coin, CoinView};
use crate::conversion::{rates_view, strings_view, ExchangeRateItemView, ExchangeRatesResponse};
use crate::error::{ContractError, ErrorKind};
use crate::msg::{PriceResponse, QueryTokenAddressResponse};
use crate::response::{Response, ResponseView};
use crate::state::State;

verus! {

/// Where the contract runs.
#[derive(Debug)]
pub struct Env {
    /// The contract's own address.
    pub contract_address: String,
}

/// Who calls, and with which funds.
#[derive(Debug)]
pub struct MessageInfo {
    pub sender: String,
    pub funds: Vec<Coin>,
}

/// What a [`MessageInfo`] stands for in contracts.
pub ghost struct MessageInfoView {
    pub sender: Seq<char>,
    pub funds: Seq<CoinView>,
}

impl View for MessageInfo {
    type V = MessageInfoView;

    open spec fn view(&self) -> MessageInfoView {
        MessageInfoView { sender: self.sender@, funds: coins_view(self.funds@) }
    }
}

/// A question for one of the collaborators.
#[derive(Debug)]
pub enum Query {
    /// The current price, of the oracle at `oracle`.
    Price { oracle: String },
    /// The balance of `holder` on the token ledger at `token`.
    TokenBalance { token: String, holder: String },
    /// The balances of `holder` in every denomination that it holds.
    AllBalances { holder: String },
    /// The rates of `base_denom` against each of `quote_denoms`.
    ExchangeRates { base_denom: String, quote_denoms: Vec<String> },
    /// The balance of `holder` in `denom`.
    Balance { holder: String, denom: String },
}

/// What a [`Query`] stands for in contracts.
pub ghost enum QueryView {
    Price { oracle: Seq<char> },
    TokenBalance { token: Seq<char>, holder: Seq<char> },
    AllBalances { holder: Seq<char> },
    ExchangeRates { base_denom: Seq<char>, quote_denoms: Seq<Seq<char>> },
    Balance { holder: Seq<char>, denom: Seq<char> },
}

impl View for Query {
    type V = QueryView;

    open spec fn view(&self) -> QueryView {
        match *self {
            Query::Price { oracle } => QueryView::Price { oracle: oracle@ },
            Query::TokenBalance { token, holder } => QueryView::TokenBalance {
                token: token@,
                holder: holder@,
            },
            Query::AllBalances { holder } => QueryView::AllBalances { holder: holder@ },
            Query::ExchangeRates { base_denom, quote_denoms } => QueryView::ExchangeRates {
                base_denom: base_denom@,
                quote_denoms: strings_view(quote_denoms@),
            },
            Query::Balance { holder, denom } => QueryView::Balance { holder: holder@, denom: denom@ },
        }
    }
}

/// The answer to a [`Query`], each variant to the query of the same name.
#[derive(Debug)]
pub enum Answer {
    Price(PriceResponse),
    TokenBalance(u128),
    AllBalances(Vec<Coin>),
    ExchangeRates(ExchangeRatesResponse),
    Balance(Coin),
}

/// What an [`Answer`] stands for in contracts.
pub ghost enum AnswerView {
    Price(PriceResponse),
    TokenBalance(u128),
    AllBalances(Seq<CoinView>),
    ExchangeRates(Seq<ExchangeRateItemView>),
    Balance(CoinView),
}

impl View for Answer {
    type V = AnswerView;

    open spec fn view(&self) -> AnswerView {
        match *self {
            Answer::Price(p) => AnswerView::Price(p),
            Answer::TokenBalance(b) => AnswerView::TokenBalance(b),
            Answer::AllBalances(coins) => AnswerView::AllBalances(coins_view(coins@)),
            Answer::ExchangeRates(r) => AnswerView::ExchangeRates(rates_view(r.exchange_rates@)),
            Answer::Balance(c) => AnswerView::Balance(c@),
        }
    }
}

/// The views of a list of answers, in order.
pub open spec fn answers_view(answers: Seq<Answer>) -> Seq<AnswerView> {
    answers.map_values(|a: Answer| a@)
}

/// What a call comes to, in contracts: the response, or which error.
pub open spec fn outcome(r: Result<Response, ContractError>) -> Result<ResponseView, ErrorKind> {
    match r {
        Ok(response) => Ok(response@),
        Err(e) => Err(e@),
    }
}

/// The next step of a call.
#[derive(Debug)]
pub enum Step {
    /// The host puts this question and calls again with the answer added to
    /// those given before.
    Ask(Query),
    /// The call is over.
    Done(Result<Response, ContractError>),
}

/// What a [`Step`] stands for in contracts.
pub ghost enum StepView {
    Ask(QueryView),
    Done(Result<ResponseView, ErrorKind>),
}

impl View for Step {
    type V = StepView;

    open spec fn view(&self) -> StepView {
        match *self {
            Step::Ask(q) => StepView::Ask(q@),
            Step::Done(r) => StepView::Done(outcome(r)),
        }
    }
}

/// The answer of the contract to a read-only call.
#[derive(Debug)]
pub enum QueryResponse {
    TokenAddress(QueryTokenAddressResponse),
    Price(PriceResponse),
    /// The address that was asked about, handed back as it came.
    Balance { address: String },
}

/// What a [`QueryResponse`] stands for in contracts.
pub ghost enum QueryResponseView {
    TokenAddress(Seq<char>),
    Price(PriceResponse),
    Balance { address: Seq<char> },
}

impl View for QueryResponse {
    type V = QueryResponseView;

    open spec fn view(&self) -> QueryResponseView {
        match *self {
            QueryResponse::TokenAddress(r) => QueryResponseView::TokenAddress(r.token_address@),
            QueryResponse::Price(p) => QueryResponseView::Price(p),
            QueryResponse::Balance { address } => QueryResponseView::Balance { address: address@ },
        }
    }
}

/// What a read-only call comes to, in contracts.
pub open spec fn query_outcome(r: Result<QueryResponse, ContractError>) -> Result<
    QueryResponseView,
    ErrorKind,
> {
    match r {
        Ok(response) => Ok(response@),
        Err(e) => Err(e@),
    }
}

/// The next step of a read-only call.
#[derive(Debug)]
pub enum QueryStep {
    /// The host puts this question and calls again with the answer added to
    /// those given before.
    Ask(Query),
    /// The call is over.
    Done(Result<QueryResponse, ContractError>),
}

/// What a [`QueryStep`] stands for in contracts.
pub ghost enum QueryStepView {
    Ask(QueryView),
    Done(Result<QueryResponseView, ErrorKind>),
}

impl View for QueryStep {
    type V = QueryStepView;

    open spec fn view(&self) -> QueryStepView {
        match *self {
            QueryStep::Ask(q) => QueryStepView::Ask(q@),
            QueryStep::Done(r) => QueryStepView::Done(query_outcome(r)),
        }
    }
}

/// The question that yields the price: to the stored oracle.
pub fn get_price(state: &State) -> (q: Query)
    ensures
        q@ == (QueryView::Price { oracle: state@.oracle_address }),
{
    Query::Price { oracle: state.oracle_address.clone() }
}

/// The question that yields the tokens of `address`: to the stored ledger.
pub fn get_balance_of_cw20(state: &State, address: &String) -> (q: Query)
    ensures
        q@ == (QueryView::TokenBalance { token: state@.token_address, holder: address@ }),
{
    Query::TokenBalance { token: state.token_address.clone(), holder: address.clone() }
}

} // verus!
