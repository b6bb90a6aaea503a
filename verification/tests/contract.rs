use swap_contracts::coin::{coin, Coin};
use swap_contracts::error::{ContractError, ErrorKind};
use swap_contracts::host::{Answer, Env, MessageInfo, QueryResponse, QueryStep, Step};
use swap_contracts::mock_querier::{mock_dependencies, WasmMockQuerier, MOCK_CONTRACT_ADDR};
use swap_contracts::msg::{ExecuteMsg, InstantiateMsg, PriceResponse, QueryMsg};
use swap_contracts::oracle;
use swap_contracts::response::{Command, Response};
use swap_contracts::state::State;
use swap_contracts::swap;
use swap_contracts::swap2;

const TOKEN: &str = "hyp0000";
const ORACLE: &str = "oracle000";

fn coins(amount: u128, denom: &str) -> Vec<Coin> {
    vec![coin(amount, denom)]
}

fn mock_env() -> Env {
    Env { contract_address: MOCK_CONTRACT_ADDR.to_string() }
}

fn mock_info(sender: &str, funds: &[Coin]) -> MessageInfo {
    MessageInfo { sender: sender.to_string(), funds: funds.to_vec() }
}

fn token_msg(oracle: &str) -> InstantiateMsg {
    InstantiateMsg { token_address: TOKEN.to_string(), oracle_address: oracle.to_string() }
}

/// Runs a call of the staking-aware contract against the stand-in
/// collaborators, as a host does.
fn execute2(
    querier: &WasmMockQuerier,
    state: &State,
    env: &Env,
    info: &MessageInfo,
    msg: ExecuteMsg,
) -> Result<Response, ContractError> {
    let mut answers: Vec<Answer> = Vec::new();
    loop {
        match swap2::execute(state, env, info, msg, &answers) {
            Step::Ask(question) => answers.push(querier.handle_query(&question).unwrap()),
            Step::Done(outcome) => return outcome,
        }
    }
}

/// Runs a call of the plain contract against the stand-in collaborators.
fn execute1(
    querier: &WasmMockQuerier,
    state: &State,
    env: &Env,
    info: &MessageInfo,
    msg: ExecuteMsg,
) -> Result<Response, ContractError> {
    let mut answers: Vec<Answer> = Vec::new();
    loop {
        match swap::execute(state, env, info, msg, &answers) {
            Step::Ask(question) => answers.push(querier.handle_query(&question).unwrap()),
            Step::Done(outcome) => return outcome,
        }
    }
}

fn query2(querier: &WasmMockQuerier, state: &State, msg: QueryMsg) -> QueryResponse {
    let mut answers: Vec<Answer> = Vec::new();
    match swap2::query(state, msg, &answers) {
        QueryStep::Done(outcome) => outcome.unwrap(),
        QueryStep::Ask(question) => {
            answers.push(querier.handle_query(&question).unwrap());
            match swap2::query(state, QueryMsg::QueryPrice, &answers) {
                QueryStep::Done(outcome) => outcome.unwrap(),
                QueryStep::Ask(_) => panic!("the price was asked twice"),
            }
        }
    }
}

#[test]
fn proper_initialization() {
    let msg = oracle::InstantiateMsg { price: 17 };
    let info = mock_info("creator", &coins(1000, "earth"));

    let (state, res) = oracle::instantiate(&info, msg);
    assert_eq!(0, res.messages.len());

    let price: u64 = oracle::query(&state, oracle::QueryMsg::QueryPrice);
    assert_eq!(17, price);
}

#[test]
fn update_price() {
    let msg = oracle::InstantiateMsg { price: 17 };
    let info = mock_info("creator", &coins(1000, "earth"));
    let (state, _res) = oracle::instantiate(&info, msg);

    let price: u64 = oracle::query(&state, oracle::QueryMsg::QueryPrice);
    assert_eq!(17, price);

    let msg = oracle::ExecuteMsg::UpdatePrice { price: 18 };
    let (state, _res) = oracle::execute(state, msg);

    let price: u64 = oracle::query(&state, oracle::QueryMsg::QueryPrice);
    assert_eq!(18, price);
    assert_eq!("creator", state.owner);
}

#[test]
fn contract_proper_initialization() {
    let _deps = mock_dependencies(&coins(2, "token"));

    let msg = token_msg(ORACLE);
    let info = mock_info("creator", &coins(1000, "earth"));
    let (state, res) = swap::instantiate(&info, msg);
    assert_eq!("creator", state.owner);
    assert_eq!(TOKEN, state.token_address);
    assert_eq!(ORACLE, state.oracle_address);
    assert_eq!(0, res.messages.len());
    assert_eq!("owner", res.attributes[0].key);
    assert_eq!("creator", res.attributes[0].value);
    assert_eq!("token_address", res.attributes[1].key);
    assert_eq!(TOKEN, res.attributes[1].value);
}

#[test]
fn staking_proper_initialization() {
    let _deps = mock_dependencies(&coins(2, "token"));

    let msg = token_msg(ORACLE);
    let info = mock_info("creator", &coins(1000, "earth"));
    let (state, res) = swap2::instantiate(&info, msg);
    assert_eq!("creator", state.owner);
    assert_eq!(TOKEN, state.token_address);
    assert_eq!(ORACLE, state.oracle_address);
    assert_eq!(0, res.messages.len());
    assert_eq!(2, res.attributes.len());
}

#[test]
fn try_buy() {
    let mut deps = mock_dependencies(&coins(1000, TOKEN));
    deps.with_oracle_price(10);
    deps.with_token_balances(&[(
        &TOKEN.to_string(),
        &[(&MOCK_CONTRACT_ADDR.to_string(), &(1_000_000_000_000 as u128))],
    )]);

    let msg = token_msg("oracle000");
    let info = mock_info("creator", &coins(1_000_000, "uluna"));
    let (state, _res) = swap::instantiate(&info, msg);

    let msg = ExecuteMsg::Buy;
    let info = mock_info("buyer", &coins(1_000, "uluna"));
    let res = execute1(&deps, &state, &mock_env(), &info, msg).unwrap();
    assert_eq!("100", res.attributes[2].value);
    assert_eq!(1, res.messages.len());
}

#[test]
fn contract_try_buy() {
    let mut deps = mock_dependencies(&coins(1000, TOKEN));
    deps.with_oracle_price(10);
    deps.with_token_balances(&[(
        &TOKEN.to_string(),
        &[(&MOCK_CONTRACT_ADDR.to_string(), &(1_000_000_000_000 as u128))],
    )]);

    let msg = token_msg("oracle000");
    let info = mock_info("creator", &coins(1_000_000, "uluna"));
    let (state, _res) = swap2::instantiate(&info, msg);

    let msg = ExecuteMsg::Buy;
    let info = mock_info("buyer", &coins(1_000, "uluna"));
    let res = execute2(&deps, &state, &mock_env(), &info, msg).unwrap();
    assert_eq!("100", res.attributes[2].value);
}

#[test]
fn try_query() {
    let mut deps = mock_dependencies(&coins(2, "token"));
    deps.with_oracle_price(15);

    let msg = token_msg("oracle000");
    let info = mock_info("creator", &coins(1_000_000, "uluna"));
    let (state, _res) = swap2::instantiate(&info, msg);

    let res = query2(&deps, &state, QueryMsg::QueryPrice);
    let price_response: PriceResponse = match res {
        QueryResponse::Price(p) => p,
        other => panic!("not a price: {:?}", other),
    };
    assert_eq!(15, price_response.price);
}

#[test]
fn try_withdraw() {
    let deps = mock_dependencies(&coins(1000, "uluna"));
    let (state, _res) = swap2::instantiate(&mock_info("creator", &[]), token_msg(ORACLE));

    let info = mock_info("creator", &[]);
    let res = execute2(&deps, &state, &mock_env(), &info, ExecuteMsg::Withdraw { amount: 50 }).unwrap();
    assert_eq!(3, res.messages.len());
    match &res.messages[0] {
        Command::ClaimReward { validator } => assert_eq!(swap2::VALIDATOR, validator),
        other => panic!("not a claim: {:?}", other),
    }
    match &res.messages[1] {
        Command::SelfInvoke { contract, payload } => {
            assert_eq!(MOCK_CONTRACT_ADDR, contract);
            assert_eq!(ExecuteMsg::WithdrawStep2ConvertRewardsToLuna { amount: 50 }, *payload);
        }
        other => panic!("not a call of the contract: {:?}", other),
    }
    match &res.messages[2] {
        Command::SelfInvoke { contract, payload } => {
            assert_eq!(MOCK_CONTRACT_ADDR, contract);
            assert_eq!(ExecuteMsg::WithdrawStep3SendLuna { amount: 50 }, *payload);
        }
        other => panic!("not a call of the contract: {:?}", other),
    }
    assert_eq!(1, res.attributes.len());
    assert_eq!("method", res.attributes[0].key);
    assert_eq!("try_withdraw", res.attributes[0].value);
}

#[test]
fn withdraw_by_stranger_is_unauthorized() {
    let deps = mock_dependencies(&coins(1000, "uluna"));
    let (state, _res) = swap2::instantiate(&mock_info("creator", &[]), token_msg(ORACLE));
    let before = state.clone();

    let info = mock_info("stranger", &[]);
    let err = execute2(&deps, &state, &mock_env(), &info, ExecuteMsg::Withdraw { amount: 50 }).unwrap_err();
    assert_eq!(ErrorKind::Unauthorized, err.kind());
    assert_eq!("Unauthorized", err.to_string());
    assert_eq!(before.owner, state.owner);
    assert_eq!(before.token_address, state.token_address);
    assert_eq!(before.oracle_address, state.oracle_address);
}
