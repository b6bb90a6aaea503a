use swap_contracts::coin::{coin, Coin, LUNA};
use swap_contracts::conversion::{
    quote_denoms, quotes_rate, select_convertible_balances, ExchangeRateItem, ExchangeRatesResponse,
};
use swap_contracts::error::{ContractError, ErrorKind};
use swap_contracts::host::{Answer, Env, MessageInfo, Query, QueryResponse, QueryStep, Step};
use swap_contracts::msg::{ExecuteMsg, PriceResponse, QueryMsg};
use swap_contracts::purchase::{luna_received, purchase_amount, Purchase};
use swap_contracts::response::{Command, Response};
use swap_contracts::state::State;
use swap_contracts::swap;
use swap_contracts::swap2;
use swap_contracts::text::decimal_string;

const CONTRACT: &str = "cosmos2contract";

fn state() -> State {
    State {
        owner: "creator".to_string(),
        token_address: "hyp0000".to_string(),
        oracle_address: "oracle000".to_string(),
    }
}

fn env() -> Env {
    Env { contract_address: CONTRACT.to_string() }
}

fn info(sender: &str, funds: Vec<Coin>) -> MessageInfo {
    MessageInfo { sender: sender.to_string(), funds }
}

fn rate(denom: &str) -> ExchangeRateItem {
    ExchangeRateItem { quote_denom: denom.to_string(), exchange_rate: 1_000_000_000_000_000_000 }
}

fn kind(r: Result<Response, ContractError>) -> ErrorKind {
    r.unwrap_err().kind()
}

fn done(step: Step) -> Result<Response, ContractError> {
    match step {
        Step::Done(outcome) => outcome,
        Step::Ask(question) => panic!("a question where the outcome was due: {:?}", question),
    }
}

fn asked(step: Step) -> Query {
    match step {
        Step::Ask(question) => question,
        Step::Done(outcome) => panic!("an outcome where a question was due: {:?}", outcome),
    }
}

#[test]
fn decimal_numerals() {
    assert_eq!("0", decimal_string(0));
    assert_eq!("7", decimal_string(7));
    assert_eq!("10", decimal_string(10));
    assert_eq!("100", decimal_string(100));
    assert_eq!("1000000000000", decimal_string(1_000_000_000_000));
    assert_eq!("340282366920938463463374607431768211455", decimal_string(u128::MAX));
}

#[test]
fn coin_as_text() {
    assert_eq!("1000uluna", coin(1000, "uluna").to_string());
    assert_eq!("0uusd", coin(0, "uusd").to_string());
}

#[test]
fn received_is_the_sum_of_the_settlement_coins() {
    assert_eq!(Some(0), luna_received(&vec![]));
    assert_eq!(Some(0), luna_received(&vec![coin(9, "uusd")]));
    assert_eq!(Some(1000), luna_received(&vec![coin(1000, LUNA)]));
    assert_eq!(Some(12), luna_received(&vec![coin(5, LUNA), coin(3, "uusd"), coin(7, LUNA)]));
    assert_eq!(None, luna_received(&vec![coin(u128::MAX, LUNA), coin(1, LUNA)]));
    assert_eq!(Some(u128::MAX), luna_received(&vec![coin(u128::MAX, LUNA), coin(1, "uusd")]));
}

#[test]
fn purchase_is_floor_division() {
    let p = purchase_amount(&vec![coin(1005, LUNA)], 10).unwrap();
    assert_eq!(Purchase { received: 1005, coins_to_be_sent: 100 }, p);
    assert!(p.coins_to_be_sent * 10 <= p.received);
    assert!(p.received < (p.coins_to_be_sent + 1) * 10);

    let p = purchase_amount(&vec![coin(9, LUNA)], 10).unwrap();
    assert_eq!(Purchase { received: 9, coins_to_be_sent: 0 }, p);

    let p = purchase_amount(&vec![coin(u128::MAX, LUNA)], 1).unwrap();
    assert_eq!(u128::MAX, p.coins_to_be_sent);

    let p = purchase_amount(&vec![coin(u128::MAX, LUNA)], u64::MAX).unwrap();
    assert_eq!(u128::MAX / (u64::MAX as u128), p.coins_to_be_sent);
}

#[test]
fn purchase_without_settlement_coin_buys_nothing() {
    let p = purchase_amount(&vec![coin(500, "uusd")], 10).unwrap();
    assert_eq!(Purchase { received: 0, coins_to_be_sent: 0 }, p);
}

#[test]
fn purchase_without_funds_is_a_coin_mismatch() {
    let e = purchase_amount(&vec![], 10).unwrap_err();
    assert_eq!(ErrorKind::CoinMismatch, e.kind());
    // the price is not looked at
    let e = purchase_amount(&vec![], 0).unwrap_err();
    assert_eq!(ErrorKind::CoinMismatch, e.kind());
}

#[test]
fn buy_without_funds_fails() {
    let r = swap2::try_buy(&state(), &info("buyer", vec![]), 10, 1_000_000);
    assert_eq!(ErrorKind::CoinMismatch, kind(r));
    let r = swap::try_buy(&state(), &info("buyer", vec![]), 10, 1_000_000);
    assert_eq!(ErrorKind::CoinMismatch, kind(r));
}

#[test]
fn buy_beyond_the_ledger_fails() {
    let r = swap2::try_buy(&state(), &info("buyer", vec![coin(1000, LUNA)]), 10, 99);
    assert_eq!(ErrorKind::InsufficientCoinsInContract, kind(r));
    let r = swap::try_buy(&state(), &info("buyer", vec![coin(1000, LUNA)]), 10, 99);
    assert_eq!(ErrorKind::InsufficientCoinsInContract, kind(r));
    // exactly enough is enough
    assert!(swap2::try_buy(&state(), &info("buyer", vec![coin(1000, LUNA)]), 10, 100).is_ok());
    assert!(swap::try_buy(&state(), &info("buyer", vec![coin(1000, LUNA)]), 10, 100).is_ok());
}

#[test]
fn buy_pays_out_then_delegates() {
    let r = swap2::try_buy(&state(), &info("buyer", vec![coin(1000, LUNA)]), 10, 1_000_000_000_000)
        .unwrap();
    assert_eq!(2, r.messages.len());
    match &r.messages[0] {
        Command::TransferToken { token, recipient, amount, payload } => {
            assert_eq!("hyp0000", token);
            assert_eq!("buyer", recipient);
            assert_eq!(100, *amount);
            assert_eq!(
                r#"{"transfer":{"recipient":"buyer","amount":"100"}}"#,
                String::from_utf8(payload.clone()).unwrap()
            );
        }
        other => panic!("not a token transfer: {:?}", other),
    }
    match &r.messages[1] {
        Command::DelegateStake { validator, amount } => {
            assert_eq!("terravaloper1vk20anceu6h9s00d27pjlvslz3avetkvnwmr35", validator);
            assert_eq!("uluna", amount.denom);
            assert_eq!(1000, amount.amount);
        }
        other => panic!("not a delegation: {:?}", other),
    }
    assert_eq!(3, r.attributes.len());
    assert_eq!(("price", "10"), (r.attributes[0].key.as_str(), r.attributes[0].value.as_str()));
    assert_eq!(
        ("luna_received", "1000"),
        (r.attributes[1].key.as_str(), r.attributes[1].value.as_str())
    );
    assert_eq!(("coins_sent", "100"), (r.attributes[2].key.as_str(), r.attributes[2].value.as_str()));
}

#[test]
fn plain_buy_only_pays_out() {
    let r = swap::try_buy(&state(), &info("buyer", vec![coin(1000, LUNA)]), 10, 1_000_000_000_000)
        .unwrap();
    assert_eq!(1, r.messages.len());
    match &r.messages[0] {
        Command::TransferToken { token, recipient, amount, payload } => {
            assert_eq!("hyp0000", token);
            assert_eq!("buyer", recipient);
            assert_eq!(100, *amount);
            assert_eq!(
                r#"{"transfer":{"recipient":"buyer","amount":"100"}}"#,
                String::from_utf8(payload.clone()).unwrap()
            );
        }
        other => panic!("not a token transfer: {:?}", other),
    }
    assert_eq!("100", r.attributes[2].value);
}

#[test]
fn buy_asks_the_price_then_the_ledger() {
    let i = info("buyer", vec![coin(1000, LUNA)]);
    let mut answers: Vec<Answer> = Vec::new();
    match asked(swap2::execute(&state(), &env(), &i, ExecuteMsg::Buy, &answers)) {
        Query::Price { oracle } => assert_eq!("oracle000", oracle),
        other => panic!("not the price: {:?}", other),
    }
    answers.push(Answer::Price(PriceResponse { price: 10 }));
    match asked(swap2::execute(&state(), &env(), &i, ExecuteMsg::Buy, &answers)) {
        Query::TokenBalance { token, holder } => {
            assert_eq!("hyp0000", token);
            assert_eq!(CONTRACT, holder);
        }
        other => panic!("not the ledger: {:?}", other),
    }
    answers.push(Answer::TokenBalance(1_000_000_000_000));
    let r = done(swap2::execute(&state(), &env(), &i, ExecuteMsg::Buy, &answers)).unwrap();
    assert_eq!("100", r.attributes[2].value);
}

#[test]
fn buy_without_funds_never_asks_the_ledger() {
    let i = info("buyer", vec![]);
    let answers = vec![Answer::Price(PriceResponse { price: 10 })];
    let r = done(swap2::execute(&state(), &env(), &i, ExecuteMsg::Buy, &answers));
    assert_eq!(ErrorKind::CoinMismatch, kind(r));
    let r = done(swap::execute(&state(), &env(), &i, ExecuteMsg::Buy, &answers));
    assert_eq!(ErrorKind::CoinMismatch, kind(r));
}

#[test]
fn answer_of_the_wrong_kind_is_an_unknown_error() {
    let i = info("buyer", vec![coin(1000, LUNA)]);
    let answers = vec![Answer::TokenBalance(5)];
    let r = done(swap2::execute(&state(), &env(), &i, ExecuteMsg::Buy, &answers));
    assert_eq!(ErrorKind::UnknownError, kind(r));
    let answers = vec![Answer::Price(PriceResponse { price: 10 }), Answer::Balance(coin(1, LUNA))];
    let r = done(swap2::execute(&state(), &env(), &i, ExecuteMsg::Buy, &answers));
    assert_eq!(ErrorKind::UnknownError, kind(r));
    let answers = vec![Answer::AllBalances(vec![])];
    let r = done(swap::execute(&state(), &env(), &info("creator", vec![]), ExecuteMsg::Withdraw { amount: 1 }, &answers));
    assert_eq!(ErrorKind::UnknownError, kind(r));
}

#[test]
fn send_is_for_the_owner_alone() {
    let balance = coin(1000, LUNA);
    let r = swap2::try_send_luna(&state(), &info("stranger", vec![]), &balance, 50);
    assert_eq!(ErrorKind::Unauthorized, kind(r));
    let r = swap::try_withdraw(&state(), &info("stranger", vec![]), &balance, 50);
    assert_eq!(ErrorKind::Unauthorized, kind(r));
    // a stranger is turned away before the balance is asked, whatever it is
    let msg = ExecuteMsg::WithdrawStep3SendLuna { amount: 5000 };
    let r = done(swap2::execute(&state(), &env(), &info("stranger", vec![]), msg, &vec![]));
    assert_eq!(ErrorKind::Unauthorized, kind(r));
    let msg = ExecuteMsg::Withdraw { amount: 5000 };
    let r = done(swap::execute(&state(), &env(), &info("stranger", vec![]), msg, &vec![]));
    assert_eq!(ErrorKind::Unauthorized, kind(r));
}

#[test]
fn send_beyond_the_balance_is_an_invalid_quantity() {
    let balance = coin(1000, LUNA);
    let r = swap2::try_send_luna(&state(), &info("creator", vec![]), &balance, 1001);
    assert_eq!(ErrorKind::InvalidQuantity, kind(r));
    let r = swap::try_withdraw(&state(), &info("creator", vec![]), &balance, 1001);
    assert_eq!(ErrorKind::InvalidQuantity, kind(r));
}

#[test]
fn send_pays_the_owner_the_exact_amount() {
    let balance = coin(1000, LUNA);
    let r = swap2::try_send_luna(&state(), &info("creator", vec![]), &balance, 1000).unwrap();
    assert_eq!(1, r.messages.len());
    match &r.messages[0] {
        Command::TransferNative { recipient, amount } => {
            assert_eq!("creator", recipient);
            assert_eq!("uluna", amount.denom);
            assert_eq!(1000, amount.amount);
        }
        other => panic!("not a payout: {:?}", other),
    }
    assert_eq!(3, r.attributes.len());
    assert_eq!(("method", "try_send_luna"), (r.attributes[0].key.as_str(), r.attributes[0].value.as_str()));
    assert_eq!(
        ("initial_luna_balance", "1000uluna"),
        (r.attributes[1].key.as_str(), r.attributes[1].value.as_str())
    );
    assert_eq!(("amount", "1000"), (r.attributes[2].key.as_str(), r.attributes[2].value.as_str()));

    let r = swap::try_withdraw(&state(), &info("creator", vec![]), &balance, 50).unwrap();
    assert_eq!(1, r.messages.len());
    match &r.messages[0] {
        Command::TransferNative { recipient, amount } => {
            assert_eq!("creator", recipient);
            assert_eq!(50, amount.amount);
        }
        other => panic!("not a payout: {:?}", other),
    }
    assert_eq!(2, r.attributes.len());
    assert_eq!(
        ("initial_luna_balance", "1000uluna"),
        (r.attributes[0].key.as_str(), r.attributes[0].value.as_str())
    );
    assert_eq!(("amount", "50"), (r.attributes[1].key.as_str(), r.attributes[1].value.as_str()));
}

#[test]
fn send_asks_the_settlement_balance() {
    let msg = ExecuteMsg::WithdrawStep3SendLuna { amount: 50 };
    let i = info("creator", vec![]);
    match asked(swap2::execute(&state(), &env(), &i, msg, &vec![])) {
        Query::Balance { holder, denom } => {
            assert_eq!(CONTRACT, holder);
            assert_eq!("uluna", denom);
        }
        other => panic!("not the balance: {:?}", other),
    }
    let answers = vec![Answer::Balance(coin(49, LUNA))];
    let r = done(swap2::execute(&state(), &env(), &i, msg, &answers));
    assert_eq!(ErrorKind::InvalidQuantity, kind(r));
    let answers = vec![Answer::Balance(coin(50, LUNA))];
    assert!(done(swap2::execute(&state(), &env(), &i, msg, &answers)).is_ok());
}

#[test]
fn selection_skips_the_settlement_coin_and_unquoted_coins() {
    let balances = vec![coin(5, "ukrw"), coin(7, LUNA), coin(9, "uusd"), coin(11, "umnt"), coin(13, "usdr")];
    let rates = vec![rate("usdr"), rate("uluna"), rate("ukrw"), rate("uusd")];
    let swaps = select_convertible_balances(&balances, &rates, &LUNA.to_string());
    assert_eq!(3, swaps.len());
    let expected = [("ukrw", 5), ("uusd", 9), ("usdr", 13)];
    for (swap, (denom, amount)) in swaps.iter().zip(expected.iter()) {
        match swap {
            Command::SwapDenomination { source_coin, target_denomination } => {
                assert_eq!(*denom, source_coin.denom);
                assert_eq!(*amount, source_coin.amount);
                assert_eq!("uluna", target_denomination);
            }
            other => panic!("not a swap: {:?}", other),
        }
    }
    // the same inputs select the same swaps
    let again = select_convertible_balances(&balances, &rates, &LUNA.to_string());
    assert_eq!(format!("{:?}", swaps), format!("{:?}", again));
}

#[test]
fn selection_of_nothing() {
    assert_eq!(0, select_convertible_balances(&vec![], &vec![rate("uusd")], &LUNA.to_string()).len());
    assert_eq!(0, select_convertible_balances(&vec![coin(1, "uusd")], &vec![], &LUNA.to_string()).len());
    assert_eq!(
        0,
        select_convertible_balances(&vec![coin(1, LUNA)], &vec![rate("uluna")], &LUNA.to_string()).len()
    );
    assert!(quotes_rate(&vec![rate("uusd")], &"uusd".to_string()));
    assert!(!quotes_rate(&vec![rate("uusd")], &"ukrw".to_string()));
    assert_eq!(
        vec!["a".to_string(), "b".to_string()],
        quote_denoms(&vec![coin(1, "a"), coin(3, LUNA), coin(2, "b")], &LUNA.to_string())
    );
    assert!(quote_denoms(&vec![coin(3, LUNA)], &LUNA.to_string()).is_empty());
}

#[test]
fn convert_asks_balances_then_rates() {
    let msg = ExecuteMsg::WithdrawStep2ConvertRewardsToLuna { amount: 50 };
    // any caller may convert
    let i = info("stranger", vec![]);
    let mut answers: Vec<Answer> = Vec::new();
    match asked(swap2::execute(&state(), &env(), &i, msg, &answers)) {
        Query::AllBalances { holder } => assert_eq!(CONTRACT, holder),
        other => panic!("not the balances: {:?}", other),
    }
    answers.push(Answer::AllBalances(vec![coin(7, LUNA), coin(9, "uusd"), coin(11, "umnt")]));
    match asked(swap2::execute(&state(), &env(), &i, msg, &answers)) {
        Query::ExchangeRates { base_denom, quote_denoms } => {
            assert_eq!("uluna", base_denom);
            assert_eq!(vec!["uusd".to_string(), "umnt".to_string()], quote_denoms);
        }
        other => panic!("not the rates: {:?}", other),
    }
    answers.push(Answer::ExchangeRates(ExchangeRatesResponse {
        base_denom: "uluna".to_string(),
        exchange_rates: vec![rate("uusd")],
    }));
    let r = done(swap2::execute(&state(), &env(), &i, msg, &answers)).unwrap();
    assert_eq!(1, r.messages.len());
    match &r.messages[0] {
        Command::SwapDenomination { source_coin, target_denomination } => {
            assert_eq!("uusd", source_coin.denom);
            assert_eq!(9, source_coin.amount);
            assert_eq!("uluna", target_denomination);
        }
        other => panic!("not a swap: {:?}", other),
    }
    assert_eq!(1, r.attributes.len());
    assert_eq!(
        ("method", "try_convert_rewards"),
        (r.attributes[0].key.as_str(), r.attributes[0].value.as_str())
    );
}

#[test]
fn undelegation_is_open_to_anyone() {
    let msg = ExecuteMsg::StartUndelegation { amount: 77 };
    let r = done(swap2::execute(&state(), &env(), &info("stranger", vec![]), msg, &vec![])).unwrap();
    assert_eq!(1, r.messages.len());
    match &r.messages[0] {
        Command::UndelegateStake { validator, amount } => {
            assert_eq!(swap2::VALIDATOR, validator);
            assert_eq!("uluna", amount.denom);
            assert_eq!(77, amount.amount);
        }
        other => panic!("not an undelegation: {:?}", other),
    }
    assert_eq!(2, r.attributes.len());
    assert_eq!(
        ("method", "try_start_undelegation"),
        (r.attributes[0].key.as_str(), r.attributes[0].value.as_str())
    );
    assert_eq!(("amount", "77"), (r.attributes[1].key.as_str(), r.attributes[1].value.as_str()));
}

#[test]
fn plain_contract_knows_two_messages() {
    let i = info("creator", vec![]);
    for msg in [
        ExecuteMsg::WithdrawStep2ConvertRewardsToLuna { amount: 1 },
        ExecuteMsg::WithdrawStep3SendLuna { amount: 1 },
        ExecuteMsg::StartUndelegation { amount: 1 },
    ] {
        let e = done(swap::execute(&state(), &env(), &i, msg, &vec![])).unwrap_err();
        assert_eq!(ErrorKind::NotImplemented, e.kind());
        assert_eq!("Not implemented", e.to_string());
    }
}

#[test]
fn plain_contract_answers_no_query() {
    let e = swap::query(QueryMsg::QueryPrice).unwrap_err();
    assert_eq!(ErrorKind::Std, e.kind());
    assert!(e.to_string().contains("Not implemented"));
}

#[test]
fn queries_of_the_staking_contract() {
    match swap2::query(&state(), QueryMsg::QueryTokenAddress, &vec![]) {
        QueryStep::Done(Ok(QueryResponse::TokenAddress(r))) => assert_eq!("hyp0000", r.token_address),
        other => panic!("not the token address: {:?}", other),
    }
    match swap2::query(&state(), QueryMsg::Balance { address: "someone".to_string() }, &vec![]) {
        QueryStep::Done(Ok(QueryResponse::Balance { address })) => assert_eq!("someone", address),
        other => panic!("not the address: {:?}", other),
    }
    match swap2::query(&state(), QueryMsg::QueryPrice, &vec![]) {
        QueryStep::Ask(Query::Price { oracle }) => assert_eq!("oracle000", oracle),
        other => panic!("not the price question: {:?}", other),
    }
    match swap2::query(&state(), QueryMsg::QueryPrice, &vec![Answer::TokenBalance(1)]) {
        QueryStep::Done(Err(e)) => assert_eq!(ErrorKind::UnknownError, e.kind()),
        other => panic!("not an error: {:?}", other),
    }
}

#[test]
fn error_messages() {
    assert_eq!("Unauthorized", ContractError::Unauthorized.to_string());
    assert_eq!("quantity is invalid", ContractError::InvalidQuantity.to_string());
    assert_eq!("Buy Error", ContractError::BuyError.to_string());
    assert_eq!("Unknown Error", ContractError::UnknownError.to_string());
    assert_eq!("Not implemented", ContractError::NotImplemented.to_string());
    assert_eq!("Only uluna should be passed", ContractError::CoinMismatch.to_string());
    assert_eq!(
        "Not enough coins remain in contract",
        ContractError::InsufficientCoinsInContract.to_string()
    );
    assert_eq!(ErrorKind::BuyError, ContractError::BuyError.kind());
    assert_eq!("Price has to be positive.", swap_contracts::oracle::ContractError::PriceInstantiationError.to_string());
    assert_eq!("Price cannot be updated.", swap_contracts::oracle::ContractError::PriceUpdateError.to_string());
    assert_eq!("Unauthorized", swap_contracts::oracle::ContractError::Unauthorized.to_string());
}

#[test]
fn migration_does_nothing() {
    let r = swap2::migrate();
    assert!(r.messages.is_empty() && r.attributes.is_empty());
    let r = swap::migrate();
    assert!(r.messages.is_empty() && r.attributes.is_empty());
}
