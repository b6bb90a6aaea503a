//! The staking-aware sale contract: what is received for a purchase is
//! delegated to a validator, and the owner withdraws through a chain of three
//! calls (claim the rewards, convert them, send the payout).
use vstd::prelude::*;
use vstd::string::*;
use crate::coin::{coin, coins_view, Coin, CoinView, LUNA};
use crate::conversion::{
    has_rate, lemma_select_sound, quote_denoms, rates_view, select_convertible_balances,
    spec_quote_denoms, spec_select_convertible_balances, strings_view, ExchangeRateItem,
    ExchangeRateItemView,
};
use crate::error::{ContractError, ErrorKind};
use crate::host::{
    answers_view, get_balance_of_cw20, get_price, outcome, Answer, AnswerView, Env, MessageInfo,
    MessageInfoView, Query, QueryResponse, QueryResponseView, QueryStep, QueryStepView, QueryView,
    Step, StepView,
};
use crate::ledger::{encode_transfer, transfer_encoding};
use crate::msg::{ExecuteMsg, InstantiateMsg, QueryMsg, QueryMsgView, QueryTokenAddressResponse};
use crate::purchase::{
    attribute, buy_ready, luna_coin, purchase_amount, purchase_attributes, purchase_audit,
    settlement_total, spec_purchase_amount, token_transfer, transfer_tokens, Purchase,
};
use crate::response::{
    attr, Attribute, AttributeView, Command, CommandView, Response, ResponseView,
};
use crate::state::{State, StateView};
use crate::text::{decimal, decimal_string};

verus! {

/// The validator to which stake is delegated and from which rewards are
/// claimed.
pub const VALIDATOR: &'static str = "terravaloper1vk20anceu6h9s00d27pjlvslz3avetkvnwmr35";

/// The configuration that a new contract stores, and the response to its
/// creator: the sender becomes the owner.
pub fn instantiate(info: &MessageInfo, msg: InstantiateMsg) -> (r: (State, Response))
    ensures
        r.0@ == (StateView {
            owner: info@.sender,
            token_address: msg.token_address@,
            oracle_address: msg.oracle_address@,
        }),
        r.1@.messages == Seq::<CommandView>::empty(),
        r.1@.attributes == seq![
            attribute("owner"@, info@.sender),
            attribute("token_address"@, msg.token_address@),
        ],
{
    let state = State {
        owner: info.sender.clone(),
        token_address: msg.token_address,
        oracle_address: msg.oracle_address,
    };
    let response = Response::new().add_attribute("owner", state.owner.clone()).add_attribute(
        "token_address",
        state.token_address.clone(),
    );
    assert(response@.attributes =~= seq![
        attribute("owner"@, info@.sender),
        attribute("token_address"@, msg.token_address@),
    ]);
    (state, response)
}

/// The response to a purchase: the tokens are paid to the buyer first, then
/// what was received is delegated.
pub open spec fn spec_buy_response(
    state: StateView,
    sender: Seq<char>,
    price: u64,
    purchase: Purchase,
    payload: Seq<u8>,
) -> ResponseView {
    ResponseView {
        messages: seq![
            token_transfer(state, sender, purchase, payload),
            CommandView::DelegateStake {
                validator: VALIDATOR@,
                amount: luna_coin(purchase.received),
            },
        ],
        attributes: purchase_attributes(price, purchase),
    }
}

/// Assembles the response to a purchase from the encoded ledger transfer.
pub fn buy_response(
    state: &State,
    sender: &String,
    price: u64,
    purchase: Purchase,
    payload: Vec<u8>,
) -> (r: Response)
    ensures
        r@ == spec_buy_response(state@, sender@, price, purchase, payload@),
{
    let transfer = transfer_tokens(state, sender, purchase, payload);
    let delegate = Command::DelegateStake {
        validator: String::from_str(VALIDATOR),
        amount: coin(purchase.received, LUNA),
    };
    let r = purchase_audit(price, purchase).add_message(transfer).add_message(delegate);
    assert(r@.messages =~= spec_buy_response(state@, sender@, price, purchase, payload@).messages);
    r
}

/// What a purchase comes to. Without funds it fails with `CoinMismatch`;
/// where the ledger holds fewer tokens than were bought, with
/// `InsufficientCoinsInContract`; where the transfer cannot be encoded, with
/// the encoder's error.
pub open spec fn spec_try_buy(
    state: StateView,
    info: MessageInfoView,
    price: u64,
    coins_in_contract: u128,
) -> Result<ResponseView, ErrorKind> {
    match spec_purchase_amount(info.funds, price) {
        None => Err(ErrorKind::CoinMismatch),
        Some(purchase) => if coins_in_contract < purchase.coins_to_be_sent {
            Err(ErrorKind::InsufficientCoinsInContract)
        } else {
            match transfer_encoding(info.sender, purchase.coins_to_be_sent) {
                None => Err(ErrorKind::Std),
                Some(payload) => Ok(spec_buy_response(state, info.sender, price, purchase, payload)),
            }
        },
    }
}

/// Buys tokens for the funds of `info` at `price`, where the ledger holds
/// `coins_in_contract` tokens for the contract.
pub fn try_buy(state: &State, info: &MessageInfo, price: u64, coins_in_contract: u128) -> (r: Result<
    Response,
    ContractError,
>)
    requires
        buy_ready(info@.funds, price),
    ensures
        outcome(r) == spec_try_buy(state@, info@, price, coins_in_contract),
        info@.funds.len() == 0 ==> outcome(r) == Err::<ResponseView, ErrorKind>(
            ErrorKind::CoinMismatch,
        ),
        info@.funds.len() > 0 && coins_in_contract < settlement_total(info@.funds) / (price as nat)
            ==> outcome(r) == Err::<ResponseView, ErrorKind>(
            ErrorKind::InsufficientCoinsInContract,
        ),
{
    assert(info@.funds.len() == info.funds.len());
    let purchase = match purchase_amount(&info.funds, price) {
        Ok(purchase) => purchase,
        Err(e) => {
            return Err(ContractError::CoinMismatch);
        },
    };
    if coins_in_contract < purchase.coins_to_be_sent {
        return Err(ContractError::InsufficientCoinsInContract);
    }
    match encode_transfer(&info.sender, purchase.coins_to_be_sent) {
        Ok(payload) => Ok(buy_response(state, &info.sender, price, purchase, payload)),
        Err(e) => Err(ContractError::Std(e)),
    }
}

/// What the start of a withdrawal comes to: for any caller but the owner the
/// error `Unauthorized`; for the owner three commands in this order: claim
/// the rewards, call this contract to convert them, call this contract to
/// send the payout, both with the same amount.
pub open spec fn spec_try_start_withdraw(
    state: StateView,
    contract: Seq<char>,
    sender: Seq<char>,
    amount: u64,
) -> Result<ResponseView, ErrorKind> {
    if sender != state.owner {
        Err(ErrorKind::Unauthorized)
    } else {
        Ok(
            ResponseView {
                messages: seq![
                    CommandView::ClaimReward { validator: VALIDATOR@ },
                    CommandView::SelfInvoke {
                        contract,
                        payload: ExecuteMsg::WithdrawStep2ConvertRewardsToLuna { amount },
                    },
                    CommandView::SelfInvoke {
                        contract,
                        payload: ExecuteMsg::WithdrawStep3SendLuna { amount },
                    },
                ],
                attributes: seq![attribute("method"@, "try_withdraw"@)],
            },
        )
    }
}

/// Starts a withdrawal of `amount` to the owner.
pub fn try_start_withdraw(state: &State, env: &Env, info: &MessageInfo, amount: u64) -> (r: Result<
    Response,
    ContractError,
>)
    ensures
        outcome(r) == spec_try_start_withdraw(
            state@,
            env.contract_address@,
            info@.sender,
            amount,
        ),
        info@.sender != state@.owner ==> outcome(r) == Err::<ResponseView, ErrorKind>(
            ErrorKind::Unauthorized,
        ),
{
    if !state.is_owner(&info.sender) {
        return Err(ContractError::Unauthorized);
    }
    let claim = Command::ClaimReward { validator: String::from_str(VALIDATOR) };
    let convert = Command::SelfInvoke {
        contract: env.contract_address.clone(),
        payload: ExecuteMsg::WithdrawStep2ConvertRewardsToLuna { amount },
    };
    let send = Command::SelfInvoke {
        contract: env.contract_address.clone(),
        payload: ExecuteMsg::WithdrawStep3SendLuna { amount },
    };
    let r = Response::new().add_attribute("method", String::from_str("try_withdraw")).add_message(
        claim,
    ).add_message(convert).add_message(send);
    proof {
        let expected = spec_try_start_withdraw(
            state@,
            env.contract_address@,
            info@.sender,
            amount,
        )->Ok_0;
        assert(r@.messages =~= expected.messages);
        assert(r@.attributes =~= expected.attributes);
    }
    Ok(r)
}

/// The response of the conversion stage: one swap into the settlement
/// denomination for each convertible balance, in the order of the balances.
pub open spec fn spec_try_convert_rewards(
    balances: Seq<CoinView>,
    rates: Seq<ExchangeRateItemView>,
) -> ResponseView {
    ResponseView {
        messages: spec_select_convertible_balances(balances, rates, LUNA@),
        attributes: seq![attribute("method"@, "try_convert_rewards"@)],
    }
}

/// Converts the contract's balances into the settlement denomination.
/// `balances` is what the contract holds and `rates` what is quoted for the
/// settlement denomination against the denominations held. A balance of the
/// settlement denomination, or of one without a quoted rate, is skipped.
pub fn try_convert_rewards(balances: &Vec<Coin>, rates: &Vec<ExchangeRateItem>) -> (r: Response)
    ensures
        r@ == spec_try_convert_rewards(coins_view(balances@), rates_view(rates@)),
        r@.messages.len() <= balances.len(),
{
    let reward_denom = String::from_str(LUNA);
    let swaps = select_convertible_balances(balances, rates, &reward_denom);
    let mut attributes: Vec<Attribute> = Vec::new();
    attributes.push(attr("method", String::from_str("try_convert_rewards")));
    let r = Response { messages: swaps, attributes };
    assert(r@.attributes =~= seq![attribute("method"@, "try_convert_rewards"@)]);
    r
}

/// What the payout stage comes to: for any caller but the owner the error
/// `Unauthorized`; for the owner, where the balance is less than the amount,
/// `InvalidQuantity`; else one transfer of exactly the amount to the owner.
pub open spec fn spec_try_send_luna(
    state: StateView,
    sender: Seq<char>,
    luna_balance: CoinView,
    amount: u64,
) -> Result<ResponseView, ErrorKind> {
    if sender != state.owner {
        Err(ErrorKind::Unauthorized)
    } else if luna_balance.amount < amount {
        Err(ErrorKind::InvalidQuantity)
    } else {
        Ok(
            ResponseView {
                messages: seq![
                    CommandView::TransferNative {
                        recipient: state.owner,
                        amount: luna_coin(amount as u128),
                    },
                ],
                attributes: seq![
                    attribute("method"@, "try_send_luna"@),
                    attribute("initial_luna_balance"@, luna_balance.text()),
                    attribute("amount"@, decimal(amount as nat)),
                ],
            },
        )
    }
}

/// Pays `amount` of the settlement denomination to the owner, where
/// `luna_balance` is what the contract holds of it. The amount is never
/// reduced to the balance.
pub fn try_send_luna(state: &State, info: &MessageInfo, luna_balance: &Coin, amount: u64) -> (r:
    Result<Response, ContractError>)
    ensures
        outcome(r) == spec_try_send_luna(state@, info@.sender, luna_balance@, amount),
        info@.sender != state@.owner ==> outcome(r) == Err::<ResponseView, ErrorKind>(
            ErrorKind::Unauthorized,
        ),
        info@.sender == state@.owner && amount > luna_balance.amount ==> outcome(r) == Err::<
            ResponseView,
            ErrorKind,
        >(ErrorKind::InvalidQuantity),
{
    if !state.is_owner(&info.sender) {
        return Err(ContractError::Unauthorized);
    }
    if luna_balance.amount < amount as u128 {
        return Err(ContractError::InvalidQuantity);
    }
    let send = Command::TransferNative {
        recipient: state.owner.clone(),
        amount: coin(amount as u128, LUNA),
    };
    let r = Response::new().add_attribute("method", String::from_str("try_send_luna")).add_attribute(
        "initial_luna_balance",
        luna_balance.to_string(),
    ).add_attribute("amount", decimal_string(amount as u128)).add_message(send);
    proof {
        let expected = spec_try_send_luna(state@, info@.sender, luna_balance@, amount)->Ok_0;
        assert(r@.messages =~= expected.messages);
        assert(r@.attributes =~= expected.attributes);
    }
    Ok(r)
}

/// The response to an undelegation: one command that undelegates `amount` of
/// the settlement denomination from the validator.
pub open spec fn spec_try_start_undelegation(amount: u128) -> ResponseView {
    ResponseView {
        messages: seq![
            CommandView::UndelegateStake { validator: VALIDATOR@, amount: luna_coin(amount) },
        ],
        attributes: seq![
            attribute("method"@, "try_start_undelegation"@),
            attribute("amount"@, decimal(amount as nat)),
        ],
    }
}

/// Undelegates `amount` from the validator. Any caller may ask for this.
pub fn try_start_undelegation(amount: u128) -> (r: Response)
    ensures
        r@ == spec_try_start_undelegation(amount),
{
    let undelegate = Command::UndelegateStake {
        validator: String::from_str(VALIDATOR),
        amount: coin(amount, LUNA),
    };
    let r = Response::new().add_attribute(
        "method",
        String::from_str("try_start_undelegation"),
    ).add_attribute("amount", decimal_string(amount)).add_message(undelegate);
    assert(r@.messages =~= spec_try_start_undelegation(amount).messages);
    assert(r@.attributes =~= spec_try_start_undelegation(amount).attributes);
    r
}

/// The response to a migration: nothing is done.
pub fn migrate() -> (r: Response)
    ensures
        r@.messages == Seq::<CommandView>::empty(),
        r@.attributes == Seq::<AttributeView>::empty(),
{
    Response::new()
}

/// The question that yields the rates of `base_denom` against each of
/// `quote_denoms`.
pub fn query_exchange_rates(base_denom: String, quote_denoms: Vec<String>) -> (q: Query)
    ensures
        q@ == (QueryView::ExchangeRates {
            base_denom: base_denom@,
            quote_denoms: strings_view(quote_denoms@),
        }),
{
    Query::ExchangeRates { base_denom, quote_denoms }
}

/// The next step of a purchase: ask the price; without funds fail; ask the
/// contract's tokens; then settle.
pub open spec fn spec_buy_step(
    state: StateView,
    contract: Seq<char>,
    info: MessageInfoView,
    answers: Seq<AnswerView>,
) -> StepView {
    if answers.len() == 0 {
        StepView::Ask(QueryView::Price { oracle: state.oracle_address })
    } else if answers[0] is Price {
        if info.funds.len() == 0 {
            StepView::Done(Err(ErrorKind::CoinMismatch))
        } else if answers.len() == 1 {
            StepView::Ask(QueryView::TokenBalance { token: state.token_address, holder: contract })
        } else if answers[1] is TokenBalance {
            StepView::Done(spec_try_buy(state, info, answers[0]->Price_0.price, answers[1]->TokenBalance_0))
        } else {
            StepView::Done(Err(ErrorKind::UnknownError))
        }
    } else {
        StepView::Done(Err(ErrorKind::UnknownError))
    }
}

/// The next step of the conversion stage: ask what the contract holds; ask
/// the rates of the settlement denomination against every other denomination
/// held; then select the swaps.
pub open spec fn spec_convert_step(contract: Seq<char>, answers: Seq<AnswerView>) -> StepView {
    if answers.len() == 0 {
        StepView::Ask(QueryView::AllBalances { holder: contract })
    } else if answers[0] is AllBalances {
        if answers.len() == 1 {
            StepView::Ask(
                QueryView::ExchangeRates {
                    base_denom: LUNA@,
                    quote_denoms: spec_quote_denoms(answers[0]->AllBalances_0, LUNA@),
                },
            )
        } else if answers[1] is ExchangeRates {
            StepView::Done(
                Ok(spec_try_convert_rewards(answers[0]->AllBalances_0, answers[1]->ExchangeRates_0)),
            )
        } else {
            StepView::Done(Err(ErrorKind::UnknownError))
        }
    } else {
        StepView::Done(Err(ErrorKind::UnknownError))
    }
}

/// The next step of the payout stage: any caller but the owner fails before
/// anything is asked; ask the contract's balance; then pay.
pub open spec fn spec_send_step(
    state: StateView,
    contract: Seq<char>,
    info: MessageInfoView,
    amount: u64,
    answers: Seq<AnswerView>,
) -> StepView {
    if info.sender != state.owner {
        StepView::Done(Err(ErrorKind::Unauthorized))
    } else if answers.len() == 0 {
        StepView::Ask(QueryView::Balance { holder: contract, denom: LUNA@ })
    } else if answers[0] is Balance {
        StepView::Done(spec_try_send_luna(state, info.sender, answers[0]->Balance_0, amount))
    } else {
        StepView::Done(Err(ErrorKind::UnknownError))
    }
}

/// The next step of a call, by the message and the answers given so far. An
/// answer of another kind than the question that was asked at its place ends
/// the call with `UnknownError`; answers beyond those asked for are not
/// read.
pub open spec fn spec_execute(
    state: StateView,
    contract: Seq<char>,
    info: MessageInfoView,
    msg: ExecuteMsg,
    answers: Seq<AnswerView>,
) -> StepView {
    match msg {
        ExecuteMsg::Buy => spec_buy_step(state, contract, info, answers),
        ExecuteMsg::Withdraw { amount } => StepView::Done(
            spec_try_start_withdraw(state, contract, info.sender, amount),
        ),
        ExecuteMsg::WithdrawStep2ConvertRewardsToLuna { amount } => spec_convert_step(
            contract,
            answers,
        ),
        ExecuteMsg::WithdrawStep3SendLuna { amount } => spec_send_step(
            state,
            contract,
            info,
            amount,
            answers,
        ),
        ExecuteMsg::StartUndelegation { amount } => StepView::Done(
            Ok(spec_try_start_undelegation(amount)),
        ),
    }
}

/// Whether the next step of a call can be computed: once a purchase has its
/// price, that price is positive and the settlement total of the funds fits
/// the machine's amounts.
pub open spec fn execute_ready(info: MessageInfoView, msg: ExecuteMsg, answers: Seq<AnswerView>) -> bool {
    msg is Buy && answers.len() > 0 && answers[0] is Price ==> buy_ready(
        info.funds,
        answers[0]->Price_0.price,
    )
}

/// The next step of a purchase.
fn buy_step(state: &State, env: &Env, info: &MessageInfo, answers: &Vec<Answer>) -> (step: Step)
    requires
        execute_ready(info@, ExecuteMsg::Buy, answers_view(answers@)),
    ensures
        step@ == spec_buy_step(state@, env.contract_address@, info@, answers_view(answers@)),
{
    assert(info@.funds.len() == info.funds.len());
    if answers.len() == 0 {
        return Step::Ask(get_price(state));
    }
    let price = match &answers[0] {
        Answer::Price(p) => p.price,
        _ => {
            return Step::Done(Err(ContractError::UnknownError));
        },
    };
    if info.funds.len() == 0 {
        return Step::Done(Err(ContractError::CoinMismatch));
    }
    if answers.len() == 1 {
        return Step::Ask(get_balance_of_cw20(state, &env.contract_address));
    }
    match &answers[1] {
        Answer::TokenBalance(coins_in_contract) => Step::Done(
            try_buy(state, info, price, *coins_in_contract),
        ),
        _ => Step::Done(Err(ContractError::UnknownError)),
    }
}

/// The next step of the conversion stage.
fn convert_step(env: &Env, answers: &Vec<Answer>) -> (step: Step)
    ensures
        step@ == spec_convert_step(env.contract_address@, answers_view(answers@)),
{
    if answers.len() == 0 {
        return Step::Ask(Query::AllBalances { holder: env.contract_address.clone() });
    }
    let balances = match &answers[0] {
        Answer::AllBalances(balances) => balances,
        _ => {
            return Step::Done(Err(ContractError::UnknownError));
        },
    };
    if answers.len() == 1 {
        let reward_denom = String::from_str(LUNA);
        let denoms = quote_denoms(balances, &reward_denom);
        return Step::Ask(query_exchange_rates(reward_denom, denoms));
    }
    match &answers[1] {
        Answer::ExchangeRates(rates) => Step::Done(
            Ok(try_convert_rewards(balances, &rates.exchange_rates)),
        ),
        _ => Step::Done(Err(ContractError::UnknownError)),
    }
}

/// The next step of the payout stage.
fn send_step(state: &State, env: &Env, info: &MessageInfo, amount: u64, answers: &Vec<Answer>) -> (step:
    Step)
    ensures
        step@ == spec_send_step(
            state@,
            env.contract_address@,
            info@,
            amount,
            answers_view(answers@),
        ),
{
    if !state.is_owner(&info.sender) {
        return Step::Done(Err(ContractError::Unauthorized));
    }
    if answers.len() == 0 {
        return Step::Ask(
            Query::Balance { holder: env.contract_address.clone(), denom: String::from_str(LUNA) },
        );
    }
    match &answers[0] {
        Answer::Balance(luna_balance) => Step::Done(try_send_luna(state, info, luna_balance, amount)),
        _ => Step::Done(Err(ContractError::UnknownError)),
    }
}

/// Computes the next step of the call `msg` from the answers that the host
/// has collected for it so far, starting with none: a question to put, whose
/// answer is added to the list for the next call, or the outcome.
///
/// Every message has a handler. No step changes the stored configuration.
pub fn execute(state: &State, env: &Env, info: &MessageInfo, msg: ExecuteMsg, answers: &Vec<Answer>) -> (step:
    Step)
    requires
        execute_ready(info@, msg, answers_view(answers@)),
    ensures
        step@ == spec_execute(state@, env.contract_address@, info@, msg, answers_view(answers@)),
{
    match msg {
        ExecuteMsg::Buy => buy_step(state, env, info, answers),
        ExecuteMsg::Withdraw { amount } => Step::Done(try_start_withdraw(state, env, info, amount)),
        ExecuteMsg::WithdrawStep2ConvertRewardsToLuna { amount } => convert_step(env, answers),
        ExecuteMsg::WithdrawStep3SendLuna { amount } => send_step(state, env, info, amount, answers),
        ExecuteMsg::StartUndelegation { amount } => Step::Done(Ok(try_start_undelegation(amount))),
    }
}

/// The next step of a read-only call. The token address is read from the
/// stored configuration; the price is the oracle's answer; a balance query
/// hands back the address that was asked about, with no lookup.
pub open spec fn spec_query(state: StateView, msg: QueryMsgView, answers: Seq<AnswerView>) -> QueryStepView {
    match msg {
        QueryMsgView::QueryTokenAddress => QueryStepView::Done(
            Ok(QueryResponseView::TokenAddress(state.token_address)),
        ),
        QueryMsgView::QueryPrice => if answers.len() == 0 {
            QueryStepView::Ask(QueryView::Price { oracle: state.oracle_address })
        } else if answers[0] is Price {
            QueryStepView::Done(Ok(QueryResponseView::Price(answers[0]->Price_0)))
        } else {
            QueryStepView::Done(Err(ErrorKind::UnknownError))
        },
        QueryMsgView::Balance { address } => QueryStepView::Done(
            Ok(QueryResponseView::Balance { address }),
        ),
    }
}

/// Computes the next step of the read-only call `msg` from the answers that
/// the host has collected for it so far, starting with none.
pub fn query(state: &State, msg: QueryMsg, answers: &Vec<Answer>) -> (step: QueryStep)
    ensures
        step@ == spec_query(state@, msg@, answers_view(answers@)),
{
    match msg {
        QueryMsg::QueryTokenAddress => QueryStep::Done(
            Ok(
                QueryResponse::TokenAddress(
                    QueryTokenAddressResponse { token_address: state.token_address.clone() },
                ),
            ),
        ),
        QueryMsg::QueryPrice => {
            if answers.len() == 0 {
                return QueryStep::Ask(get_price(state));
            }
            match &answers[0] {
                Answer::Price(p) => QueryStep::Done(Ok(QueryResponse::Price(*p))),
                _ => QueryStep::Done(Err(ContractError::UnknownError)),
            }
        },
        QueryMsg::Balance { address } => QueryStep::Done(Ok(QueryResponse::Balance { address })),
    }
}

/// A call is over once two answers are in: no operation asks more than two
/// questions.
pub proof fn lemma_execute_finishes(
    state: StateView,
    contract: Seq<char>,
    info: MessageInfoView,
    msg: ExecuteMsg,
    answers: Seq<AnswerView>,
)
    requires
        answers.len() >= 2,
    ensures
        spec_execute(state, contract, info, msg, answers) is Done,
{
}

/// The payout and the start of a withdrawal are the owner's alone: for any
/// other caller both end with `Unauthorized`, whatever the amount, before any
/// question is asked and whatever answers are given.
pub proof fn lemma_owner_only(
    state: StateView,
    contract: Seq<char>,
    info: MessageInfoView,
    amount: u64,
    answers: Seq<AnswerView>,
)
    requires
        info.sender != state.owner,
    ensures
        spec_execute(state, contract, info, ExecuteMsg::Withdraw { amount }, answers)
            == StepView::Done(Err(ErrorKind::Unauthorized)),
        spec_execute(state, contract, info, ExecuteMsg::WithdrawStep3SendLuna { amount }, answers)
            == StepView::Done(Err(ErrorKind::Unauthorized)),
{
}

/// A purchase without funds ends with `CoinMismatch` as soon as the price is
/// known, and never transfers anything.
pub proof fn lemma_buy_needs_funds(
    state: StateView,
    contract: Seq<char>,
    info: MessageInfoView,
    answers: Seq<AnswerView>,
)
    requires
        info.funds.len() == 0,
        answers.len() > 0,
        answers[0] is Price,
    ensures
        spec_execute(state, contract, info, ExecuteMsg::Buy, answers) == StepView::Done(
            Err(ErrorKind::CoinMismatch),
        ),
{
}

/// The conversion stage never swaps the settlement denomination itself, nor
/// a denomination for which no rate is quoted: each of its commands swaps one
/// of the held balances, of another denomination and with a quoted rate, into
/// the settlement denomination.
pub proof fn lemma_convert_rewards_swaps(
    balances: Seq<CoinView>,
    rates: Seq<ExchangeRateItemView>,
    i: int,
)
    requires
        0 <= i < spec_try_convert_rewards(balances, rates).messages.len(),
    ensures
        spec_try_convert_rewards(balances, rates).messages.len() <= balances.len(),
        ({
            let command = spec_try_convert_rewards(balances, rates).messages[i];
            &&& command is SwapDenomination
            &&& command->target_denomination == LUNA@
            &&& command->source_coin.denom != LUNA@
            &&& has_rate(rates, command->source_coin.denom)
            &&& balances.contains(command->source_coin)
        }),
{
    lemma_select_sound(balances, rates, LUNA@);
}

} // verus!
