//! The plain sale contract: tokens are sold at the oracle's price, and the
//! owner withdraws what was received in one call.
use vstd::prelude::*;
use vstd::string::*;
use crate::coin::{coin, Coin, CoinView, LUNA};
use crate::error::{generic_err, ContractError, ErrorKind};
use crate::host::{
    answers_view, get_balance_of_cw20, get_price, outcome, Answer, AnswerView, Env, MessageInfo,
    MessageInfoView, Query, QueryResponse, QueryView, Step, StepView,
};
use crate::ledger::{encode_transfer, transfer_encoding};
use crate::msg::{ExecuteMsg, InstantiateMsg, QueryMsg};
use crate::purchase::{
    attribute, buy_ready, luna_coin, purchase_amount, purchase_attributes, purchase_audit,
    settlement_total, spec_purchase_amount, token_transfer, transfer_tokens, Purchase,
};
use crate::response::{AttributeView, Command, CommandView, Response, ResponseView};
use crate::state::{State, StateView};
use crate::text::{decimal, decimal_string};

verus! {

/// The configuration that a new contract stores, and the response to its
/// creator: the sender becomes the owner.
pub fn instantiate(info: &MessageInfo, msg: InstantiateMsg) -> (r: (State, Response))
    ensures
        r.0@ == (StateView {
            owner: info@.sender,
            token_address: msg.token_address@,
            oracle_address: msg.oracle_address@,
        }),
        r.1@.messages == Seq::<CommandView>::empty(),
        r.1@.attributes == seq![
            attribute("owner"@, info@.sender),
            attribute("token_address"@, msg.token_address@),
        ],
{
    let state = State {
        owner: info.sender.clone(),
        token_address: msg.token_address,
        oracle_address: msg.oracle_address,
    };
    let response = Response::new().add_attribute("owner", state.owner.clone()).add_attribute(
        "token_address",
        state.token_address.clone(),
    );
    assert(response@.attributes =~= seq![
        attribute("owner"@, info@.sender),
        attribute("token_address"@, msg.token_address@),
    ]);
    (state, response)
}

/// The response to a purchase: the tokens are paid to the buyer.
pub open spec fn spec_buy_response(
    state: StateView,
    sender: Seq<char>,
    price: u64,
    purchase: Purchase,
    payload: Seq<u8>,
) -> ResponseView {
    ResponseView {
        messages: seq![token_transfer(state, sender, purchase, payload)],
        attributes: purchase_attributes(price, purchase),
    }
}

/// Assembles the response to a purchase from the encoded ledger transfer.
pub fn buy_response(
    state: &State,
    sender: &String,
    price: u64,
    purchase: Purchase,
    payload: Vec<u8>,
) -> (r: Response)
    ensures
        r@ == spec_buy_response(state@, sender@, price, purchase, payload@),
{
    let transfer = transfer_tokens(state, sender, purchase, payload);
    let r = purchase_audit(price, purchase).add_message(transfer);
    assert(r@.messages =~= spec_buy_response(state@, sender@, price, purchase, payload@).messages);
    r
}

/// What a purchase comes to. Without funds it fails with `CoinMismatch`;
/// where the ledger holds fewer tokens than were bought, with
/// `InsufficientCoinsInContract`; where the transfer cannot be encoded, with
/// the encoder's error.
pub open spec fn spec_try_buy(
    state: StateView,
    info: MessageInfoView,
    price: u64,
    coins_in_contract: u128,
) -> Result<ResponseView, ErrorKind> {
    match spec_purchase_amount(info.funds, price) {
        None => Err(ErrorKind::CoinMismatch),
        Some(purchase) => if coins_in_contract < purchase.coins_to_be_sent {
            Err(ErrorKind::InsufficientCoinsInContract)
        } else {
            match transfer_encoding(info.sender, purchase.coins_to_be_sent) {
                None => Err(ErrorKind::Std),
                Some(payload) => Ok(spec_buy_response(state, info.sender, price, purchase, payload)),
            }
        },
    }
}

/// Buys tokens for the funds of `info` at `price`, where the ledger holds
/// `coins_in_contract` tokens for the contract.
pub fn try_buy(state: &State, info: &MessageInfo, price: u64, coins_in_contract: u128) -> (r: Result<
    Response,
    ContractError,
>)
    requires
        buy_ready(info@.funds, price),
    ensures
        outcome(r) == spec_try_buy(state@, info@, price, coins_in_contract),
        info@.funds.len() == 0 ==> outcome(r) == Err::<ResponseView, ErrorKind>(
            ErrorKind::CoinMismatch,
        ),
        info@.funds.len() > 0 && coins_in_contract < settlement_total(info@.funds) / (price as nat)
            ==> outcome(r) == Err::<ResponseView, ErrorKind>(
            ErrorKind::InsufficientCoinsInContract,
        ),
{
    assert(info@.funds.len() == info.funds.len());
    let purchase = match purchase_amount(&info.funds, price) {
        Ok(purchase) => purchase,
        Err(e) => {
            return Err(ContractError::CoinMismatch);
        },
    };
    if coins_in_contract < purchase.coins_to_be_sent {
        return Err(ContractError::InsufficientCoinsInContract);
    }
    match encode_transfer(&info.sender, purchase.coins_to_be_sent) {
        Ok(payload) => Ok(buy_response(state, &info.sender, price, purchase, payload)),
        Err(e) => Err(ContractError::Std(e)),
    }
}

/// What a withdrawal comes to: for any caller but the owner the error
/// `Unauthorized`; for the owner, where the balance is less than the amount,
/// `InvalidQuantity`; else one transfer of exactly the amount to the owner.
pub open spec fn spec_try_withdraw(
    state: StateView,
    sender: Seq<char>,
    luna_balance: CoinView,
    amount: u64,
) -> Result<ResponseView, ErrorKind> {
    if sender != state.owner {
        Err(ErrorKind::Unauthorized)
    } else if luna_balance.amount < amount {
        Err(ErrorKind::InvalidQuantity)
    } else {
        Ok(
            ResponseView {
                messages: seq![
                    CommandView::TransferNative {
                        recipient: state.owner,
                        amount: luna_coin(amount as u128),
                    },
                ],
                attributes: seq![
                    attribute("initial_luna_balance"@, luna_balance.text()),
                    attribute("amount"@, decimal(amount as nat)),
                ],
            },
        )
    }
}

/// Pays `amount` of the settlement denomination to the owner, where
/// `luna_balance` is what the contract holds of it. The amount is never
/// reduced to the balance.
pub fn try_withdraw(state: &State, info: &MessageInfo, luna_balance: &Coin, amount: u64) -> (r:
    Result<Response, ContractError>)
    ensures
        outcome(r) == spec_try_withdraw(state@, info@.sender, luna_balance@, amount),
        info@.sender != state@.owner ==> outcome(r) == Err::<ResponseView, ErrorKind>(
            ErrorKind::Unauthorized,
        ),
        info@.sender == state@.owner && amount > luna_balance.amount ==> outcome(r) == Err::<
            ResponseView,
            ErrorKind,
        >(ErrorKind::InvalidQuantity),
{
    if !state.is_owner(&info.sender) {
        return Err(ContractError::Unauthorized);
    }
    if luna_balance.amount < amount as u128 {
        return Err(ContractError::InvalidQuantity);
    }
    let send = Command::TransferNative {
        recipient: state.owner.clone(),
        amount: coin(amount as u128, LUNA),
    };
    let r = Response::new().add_attribute(
        "initial_luna_balance",
        luna_balance.to_string(),
    ).add_attribute("amount", decimal_string(amount as u128)).add_message(send);
    proof {
        let expected = spec_try_withdraw(state@, info@.sender, luna_balance@, amount)->Ok_0;
        assert(r@.messages =~= expected.messages);
        assert(r@.attributes =~= expected.attributes);
    }
    Ok(r)
}

/// The next step of a purchase: ask the price; without funds fail; ask the
/// contract's tokens; then settle.
pub open spec fn spec_buy_step(
    state: StateView,
    contract: Seq<char>,
    info: MessageInfoView,
    answers: Seq<AnswerView>,
) -> StepView {
    if answers.len() == 0 {
        StepView::Ask(QueryView::Price { oracle: state.oracle_address })
    } else if answers[0] is Price {
        if info.funds.len() == 0 {
            StepView::Done(Err(ErrorKind::CoinMismatch))
        } else if answers.len() == 1 {
            StepView::Ask(QueryView::TokenBalance { token: state.token_address, holder: contract })
        } else if answers[1] is TokenBalance {
            StepView::Done(spec_try_buy(state, info, answers[0]->Price_0.price, answers[1]->TokenBalance_0))
        } else {
            StepView::Done(Err(ErrorKind::UnknownError))
        }
    } else {
        StepView::Done(Err(ErrorKind::UnknownError))
    }
}

/// The next step of a withdrawal: any caller but the owner fails before
/// anything is asked; ask the contract's balance; then pay.
pub open spec fn spec_withdraw_step(
    state: StateView,
    contract: Seq<char>,
    info: MessageInfoView,
    amount: u64,
    answers: Seq<AnswerView>,
) -> StepView {
    if info.sender != state.owner {
        StepView::Done(Err(ErrorKind::Unauthorized))
    } else if answers.len() == 0 {
        StepView::Ask(QueryView::Balance { holder: contract, denom: LUNA@ })
    } else if answers[0] is Balance {
        StepView::Done(spec_try_withdraw(state, info.sender, answers[0]->Balance_0, amount))
    } else {
        StepView::Done(Err(ErrorKind::UnknownError))
    }
}

/// The next step of a call, by the message and the answers given so far.
/// This contract handles purchases and withdrawals; every other message ends
/// with `NotImplemented`. An answer of another kind than the question that
/// was asked at its place ends the call with `UnknownError`; answers beyond
/// those asked for are not read.
pub open spec fn spec_execute(
    state: StateView,
    contract: Seq<char>,
    info: MessageInfoView,
    msg: ExecuteMsg,
    answers: Seq<AnswerView>,
) -> StepView {
    match msg {
        ExecuteMsg::Buy => spec_buy_step(state, contract, info, answers),
        ExecuteMsg::Withdraw { amount } => spec_withdraw_step(state, contract, info, amount, answers),
        _ => StepView::Done(Err(ErrorKind::NotImplemented)),
    }
}

/// Whether the next step of a call can be computed: once a purchase has its
/// price, that price is positive and the settlement total of the funds fits
/// the machine's amounts.
pub open spec fn execute_ready(info: MessageInfoView, msg: ExecuteMsg, answers: Seq<AnswerView>) -> bool {
    msg is Buy && answers.len() > 0 && answers[0] is Price ==> buy_ready(
        info.funds,
        answers[0]->Price_0.price,
    )
}

/// The next step of a purchase.
fn buy_step(state: &State, env: &Env, info: &MessageInfo, answers: &Vec<Answer>) -> (step: Step)
    requires
        execute_ready(info@, ExecuteMsg::Buy, answers_view(answers@)),
    ensures
        step@ == spec_buy_step(state@, env.contract_address@, info@, answers_view(answers@)),
{
    assert(info@.funds.len() == info.funds.len());
    if answers.len() == 0 {
        return Step::Ask(get_price(state));
    }
    let price = match &answers[0] {
        Answer::Price(p) => p.price,
        _ => {
            return Step::Done(Err(ContractError::UnknownError));
        },
    };
    if info.funds.len() == 0 {
        return Step::Done(Err(ContractError::CoinMismatch));
    }
    if answers.len() == 1 {
        return Step::Ask(get_balance_of_cw20(state, &env.contract_address));
    }
    match &answers[1] {
        Answer::TokenBalance(coins_in_contract) => Step::Done(
            try_buy(state, info, price, *coins_in_contract),
        ),
        _ => Step::Done(Err(ContractError::UnknownError)),
    }
}

/// The next step of a withdrawal.
fn withdraw_step(state: &State, env: &Env, info: &MessageInfo, amount: u64, answers: &Vec<Answer>) -> (step:
    Step)
    ensures
        step@ == spec_withdraw_step(
            state@,
            env.contract_address@,
            info@,
            amount,
            answers_view(answers@),
        ),
{
    if !state.is_owner(&info.sender) {
        return Step::Done(Err(ContractError::Unauthorized));
    }
    if answers.len() == 0 {
        return Step::Ask(
            Query::Balance { holder: env.contract_address.clone(), denom: String::from_str(LUNA) },
        );
    }
    match &answers[0] {
        Answer::Balance(luna_balance) => Step::Done(try_withdraw(state, info, luna_balance, amount)),
        _ => Step::Done(Err(ContractError::UnknownError)),
    }
}

/// Computes the next step of the call `msg` from the answers that the host
/// has collected for it so far, starting with none: a question to put, whose
/// answer is added to the list for the next call, or the outcome.
pub fn execute(state: &State, env: &Env, info: &MessageInfo, msg: ExecuteMsg, answers: &Vec<Answer>) -> (step:
    Step)
    requires
        execute_ready(info@, msg, answers_view(answers@)),
    ensures
        step@ == spec_execute(state@, env.contract_address@, info@, msg, answers_view(answers@)),
{
    match msg {
        ExecuteMsg::Buy => buy_step(state, env, info, answers),
        ExecuteMsg::Withdraw { amount } => withdraw_step(state, env, info, amount, answers),
        _ => Step::Done(Err(ContractError::NotImplemented)),
    }
}

/// The response to a migration: nothing is done.
pub fn migrate() -> (r: Response)
    ensures
        r@.messages == Seq::<CommandView>::empty(),
        r@.attributes == Seq::<AttributeView>::empty(),
{
    Response::new()
}

/// Read-only calls are not handled by this contract: every one fails with an
/// error of the host's standard library that says so.
pub fn query(msg: QueryMsg) -> (r: Result<QueryResponse, ContractError>)
    ensures
        r is Err,
        r->Err_0@ == ErrorKind::Std,
{
    Err(ContractError::Std(generic_err("Not implemented")))
}

} // verus!
