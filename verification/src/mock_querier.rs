//! Stand-ins for the collaborators: an oracle with a fixed price, a token
//! ledger and a bank with fixed balances. They answer the questions of a
//! call from what they were set up with.
use vstd::prelude::*;
use vstd::string::*;
use crate::coin::{coins_view, Coin, CoinView};
use crate::host::{Answer, AnswerView, Query, QueryView};
use crate::msg::PriceResponse;

verus! {

/// The address of the contract under test.
pub const MOCK_CONTRACT_ADDR: &'static str = "cosmos2contract";

/// The address at which the stand-in oracle answers.
pub const MOCK_ORACLE_ADDR: &'static str = "oracle000";

/// An oracle with a fixed price.
#[derive(Clone, Copy, Debug)]
pub struct PriceQuerier {
    price: u64,
}

impl View for PriceQuerier {
    type V = u64;

    closed spec fn view(&self) -> u64 {
        self.price
    }
}

impl Default for PriceQuerier {
    fn default() -> (q: PriceQuerier)
        ensures
            q@ == 0,
    {
        PriceQuerier { price: 0 }
    }
}

impl PriceQuerier {
    /// An oracle that answers with `price`.
    pub fn new(price: u64) -> (q: PriceQuerier)
        ensures
            q@ == price,
    {
        PriceQuerier { price: price }
    }

    /// The oracle's answer.
    pub fn price(&self) -> (r: PriceResponse)
        ensures
            r.price == self@,
    {
        PriceResponse { price: self.price }
    }
}

/// The balances on one ledger in contracts: holders with their balances, in
/// the order in which they were entered.
pub type HoldersView = Seq<(Seq<char>, u128)>;

/// The balances on several ledgers in contracts: ledgers with their holders,
/// in the order in which they were entered.
pub type LedgersView = Seq<(Seq<char>, HoldersView)>;

/// The balance that was entered last for `addr`, if any.
pub open spec fn holder_balance(holders: HoldersView, addr: Seq<char>) -> Option<u128>
    decreases holders.len(),
{
    if holders.len() == 0 {
        None
    } else if holders.last().0 == addr {
        Some(holders.last().1)
    } else {
        holder_balance(holders.drop_last(), addr)
    }
}

/// The holders that were entered last for the ledger `token`, if any.
pub open spec fn ledger_holders(ledgers: LedgersView, token: Seq<char>) -> Option<HoldersView>
    decreases ledgers.len(),
{
    if ledgers.len() == 0 {
        None
    } else if ledgers.last().0 == token {
        Some(ledgers.last().1)
    } else {
        ledger_holders(ledgers.drop_last(), token)
    }
}

/// The balance of `addr` on the ledger `token`: what was entered last for
/// that ledger and, in it, last for that holder; zero where either is
/// unknown.
pub open spec fn spec_get_balance(ledgers: LedgersView, token: Seq<char>, addr: Seq<char>) -> u128 {
    match ledger_holders(ledgers, token) {
        None => 0,
        Some(holders) => match holder_balance(holders, addr) {
            None => 0,
            Some(balance) => balance,
        },
    }
}

/// The views of a list of holders, in order.
pub open spec fn holders_view(holders: Seq<(String, u128)>) -> HoldersView {
    holders.map_values(|h: (String, u128)| (h.0@, h.1))
}

/// The views of a list of ledgers, in order.
pub open spec fn ledgers_view(ledgers: Seq<(String, Vec<(String, u128)>)>) -> LedgersView {
    ledgers.map_values(|l: (String, Vec<(String, u128)>)| (l.0@, holders_view(l.1@)))
}

/// The views of a list of borrowed holders, in order.
pub open spec fn holder_refs_view(holders: Seq<(&String, &u128)>) -> HoldersView {
    holders.map_values(|h: (&String, &u128)| (h.0@, *h.1))
}

/// The views of a list of borrowed ledgers, in order.
pub open spec fn ledger_refs_view(ledgers: Seq<(&String, &[(&String, &u128)])>) -> LedgersView {
    ledgers.map_values(|l: (&String, &[(&String, &u128)])| (l.0@, holder_refs_view(l.1@)))
}

/// Copies the borrowed holders of one ledger.
fn holders_to_map(holders: &[(&String, &u128)]) -> (owned: Vec<(String, u128)>)
    ensures
        holders_view(owned@) == holder_refs_view(holders@),
{
    let mut owned: Vec<(String, u128)> = Vec::new();
    let mut i: usize = 0;
    while i < holders.len()
        invariant
            i <= holders.len(),
            owned.len() == i,
            forall|j: int|
                0 <= j < i ==> (#[trigger] owned@[j]).0@ == holders@[j].0@ && owned@[j].1
                    == *holders@[j].1,
        decreases holders.len() - i,
    {
        owned.push((holders[i].0.clone(), *holders[i].1));
        i += 1;
    }
    assert(holders_view(owned@) =~= holder_refs_view(holders@));
    owned
}

/// Copies the borrowed balances into an owned list of ledgers, each with its
/// holders, in the order given.
pub fn balances_to_map(balances: &[(&String, &[(&String, &u128)])]) -> (owned: Vec<
    (String, Vec<(String, u128)>),
>)
    ensures
        ledgers_view(owned@) == ledger_refs_view(balances@),
{
    let mut owned: Vec<(String, Vec<(String, u128)>)> = Vec::new();
    let mut i: usize = 0;
    while i < balances.len()
        invariant
            i <= balances.len(),
            owned.len() == i,
            forall|j: int|
                0 <= j < i ==> (#[trigger] owned@[j]).0@ == balances@[j].0@ && holders_view(
                    owned@[j].1@,
                ) == holder_refs_view(balances@[j].1@),
        decreases balances.len() - i,
    {
        let holders = holders_to_map(balances[i].1);
        owned.push((balances[i].0.clone(), holders));
        i += 1;
    }
    assert(ledgers_view(owned@) =~= ledger_refs_view(balances@));
    owned
}

/// A token ledger service with fixed balances.
#[derive(Debug)]
pub struct TokenQuerier {
    balances: Vec<(String, Vec<(String, u128)>)>,
}

impl View for TokenQuerier {
    type V = LedgersView;

    closed spec fn view(&self) -> LedgersView {
        ledgers_view(self.balances@)
    }
}

impl Default for TokenQuerier {
    fn default() -> (q: TokenQuerier)
        ensures
            q@ == Seq::<(Seq<char>, HoldersView)>::empty(),
    {
        let q = TokenQuerier { balances: Vec::new() };
        assert(q@ =~= Seq::<(Seq<char>, HoldersView)>::empty());
        q
    }
}

/// The balance that was entered last for `addr` among `holders`.
fn find_holder(holders: &Vec<(String, u128)>, addr: &str) -> (r: Option<u128>)
    ensures
        r == holder_balance(holders_view(holders@), addr@),
{
    let ghost all = holders_view(holders@);
    let key = String::from_str(addr);
    let mut i: usize = holders.len();
    proof {
        assert(all.take(i as int) =~= all);
    }
    while i > 0
        invariant
            i <= holders.len(),
            all == holders_view(holders@),
            key@ == addr@,
            holder_balance(all, addr@) == holder_balance(all.take(i as int), addr@),
        decreases i,
    {
        proof {
            assert(all.take(i as int).drop_last() =~= all.take(i - 1));
            assert(all.take(i as int).last() == all[i - 1]);
        }
        i -= 1;
        if holders[i].0 == key {
            return Some(holders[i].1);
        }
    }
    None
}

impl TokenQuerier {
    /// A ledger service with these balances: for each ledger, by its
    /// address, the balances of its holders.
    pub fn new(balances: &[(&String, &[(&String, &u128)])]) -> (q: TokenQuerier)
        ensures
            q@ == ledger_refs_view(balances@),
    {
        TokenQuerier { balances: balances_to_map(balances) }
    }

    /// The balance of `addr` on the ledger at `token_addr`; zero for an
    /// unknown ledger or holder.
    pub fn get_balance(&self, token_addr: &str, addr: &str) -> (balance: u128)
        ensures
            balance == spec_get_balance(self@, token_addr@, addr@),
    {
        let ghost all = self@;
        let key = String::from_str(token_addr);
        let mut i: usize = self.balances.len();
        proof {
            assert(all.take(i as int) =~= all);
        }
        while i > 0
            invariant
                i <= self.balances.len(),
                all == self@,
                key@ == token_addr@,
                ledger_holders(all, token_addr@) == ledger_holders(all.take(i as int), token_addr@),
            decreases i,
        {
            proof {
                assert(all.take(i as int).drop_last() =~= all.take(i - 1));
                assert(all.take(i as int).last() == all[i - 1]);
            }
            i -= 1;
            if self.balances[i].0 == key {
                return match find_holder(&self.balances[i].1, addr) {
                    Some(balance) => balance,
                    None => 0,
                };
            }
        }
        0
    }
}

/// The accounts of a bank in contracts: addresses with what they hold, in
/// the order in which they were entered.
pub type AccountsView = Seq<(Seq<char>, Seq<CoinView>)>;

/// What was entered last for `address`, if anything.
pub open spec fn account(accounts: AccountsView, address: Seq<char>) -> Option<Seq<CoinView>>
    decreases accounts.len(),
{
    if accounts.len() == 0 {
        None
    } else if accounts.last().0 == address {
        Some(accounts.last().1)
    } else {
        account(accounts.drop_last(), address)
    }
}

/// The amount of the first coin of `denom` among `coins`; zero without one.
pub open spec fn first_amount(coins: Seq<CoinView>, denom: Seq<char>) -> u128
    decreases coins.len(),
{
    if coins.len() == 0 {
        0
    } else if coins.first().denom == denom {
        coins.first().amount
    } else {
        first_amount(coins.drop_first(), denom)
    }
}

/// Everything that `address` holds; nothing for an unknown address.
pub open spec fn spec_all_balances(accounts: AccountsView, address: Seq<char>) -> Seq<CoinView> {
    match account(accounts, address) {
        None => Seq::empty(),
        Some(coins) => coins,
    }
}

/// What `address` holds of `denom`; zero for an unknown address or
/// denomination.
pub open spec fn spec_balance(accounts: AccountsView, address: Seq<char>, denom: Seq<char>) -> CoinView {
    CoinView { denom, amount: first_amount(spec_all_balances(accounts, address), denom) }
}

/// The views of a list of accounts, in order.
pub open spec fn accounts_view(accounts: Seq<(String, Vec<Coin>)>) -> AccountsView {
    accounts.map_values(|a: (String, Vec<Coin>)| (a.0@, coins_view(a.1@)))
}

/// A copy of `coins`.
pub fn clone_coins(coins: &Vec<Coin>) -> (copy: Vec<Coin>)
    ensures
        coins_view(copy@) == coins_view(coins@),
{
    let mut copy: Vec<Coin> = Vec::new();
    let mut i: usize = 0;
    while i < coins.len()
        invariant
            i <= coins.len(),
            copy.len() == i,
            forall|j: int| 0 <= j < i ==> (#[trigger] copy@[j])@ == coins@[j]@,
        decreases coins.len() - i,
    {
        copy.push(coins[i].clone());
        i += 1;
    }
    assert(coins_view(copy@) =~= coins_view(coins@));
    copy
}

/// The amount of the first coin of `denom` among `coins`; zero without one.
fn find_amount(coins: &Vec<Coin>, denom: &String) -> (amount: u128)
    ensures
        amount == first_amount(coins_view(coins@), denom@),
{
    let ghost all = coins_view(coins@);
    let mut i: usize = 0;
    proof {
        assert(all.skip(0) =~= all);
    }
    while i < coins.len()
        invariant
            i <= coins.len(),
            all == coins_view(coins@),
            first_amount(all, denom@) == first_amount(all.skip(i as int), denom@),
        decreases coins.len() - i,
    {
        proof {
            assert(all.skip(i as int).drop_first() =~= all.skip(i + 1));
            assert(all.skip(i as int).first() == all[i as int]);
        }
        if coins[i].denom == *denom {
            return coins[i].amount;
        }
        i += 1;
    }
    0
}

/// A bank with fixed balances.
#[derive(Debug)]
pub struct BankQuerier {
    balances: Vec<(String, Vec<Coin>)>,
}

impl View for BankQuerier {
    type V = AccountsView;

    closed spec fn view(&self) -> AccountsView {
        accounts_view(self.balances@)
    }
}

impl BankQuerier {
    /// A bank in which `address` holds `coins` and nobody else anything.
    pub fn new(address: &str, coins: &Vec<Coin>) -> (bank: BankQuerier)
        ensures
            bank@ == seq![(address@, coins_view(coins@))],
    {
        let mut balances: Vec<(String, Vec<Coin>)> = Vec::new();
        balances.push((String::from_str(address), clone_coins(coins)));
        let bank = BankQuerier { balances };
        assert(bank@ =~= seq![(address@, coins_view(coins@))]);
        bank
    }

    /// Enters `coins` as what `address` holds, in place of anything entered
    /// for it before.
    pub fn update_balance(&mut self, address: &str, coins: &Vec<Coin>)
        ensures
            final(self)@ == old(self)@.push((address@, coins_view(coins@))),
    {
        self.balances.push((String::from_str(address), clone_coins(coins)));
        assert(self@ =~= old(self)@.push((address@, coins_view(coins@))));
    }

    /// The index of what was entered last for `address`.
    fn find_account(&self, address: &String) -> (r: Option<usize>)
        ensures
            match r {
                Some(i) => i < self.balances.len() && account(self@, address@) == Some(
                    coins_view(self.balances@[i as int].1@),
                ),
                None => account(self@, address@) is None,
            },
    {
        let ghost all = self@;
        let mut i: usize = self.balances.len();
        proof {
            assert(all.take(i as int) =~= all);
        }
        while i > 0
            invariant
                i <= self.balances.len(),
                all == self@,
                account(all, address@) == account(all.take(i as int), address@),
            decreases i,
        {
            proof {
                assert(all.take(i as int).drop_last() =~= all.take(i - 1));
                assert(all.take(i as int).last() == all[i - 1]);
            }
            i -= 1;
            if self.balances[i].0 == *address {
                return Some(i);
            }
        }
        None
    }

    /// Everything that `address` holds.
    pub fn all_balances(&self, address: &String) -> (coins: Vec<Coin>)
        ensures
            coins_view(coins@) == spec_all_balances(self@, address@),
    {
        match self.find_account(address) {
            Some(i) => clone_coins(&self.balances[i].1),
            None => {
                let coins: Vec<Coin> = Vec::new();
                assert(coins_view(coins@) =~= Seq::<CoinView>::empty());
                coins
            },
        }
    }

    /// What `address` holds of `denom`.
    pub fn balance(&self, address: &String, denom: &String) -> (c: Coin)
        ensures
            c@ == spec_balance(self@, address@, denom@),
    {
        let coins = self.all_balances(address);
        Coin { denom: denom.clone(), amount: find_amount(&coins, denom) }
    }
}

/// Why a collaborator gave no answer.
#[derive(Debug)]
pub enum SystemError {
    InvalidRequest { error: String },
    UnsupportedRequest { kind: String },
}

/// What a [`SystemError`] stands for in contracts.
pub ghost enum SystemErrorView {
    InvalidRequest { error: Seq<char> },
    UnsupportedRequest { kind: Seq<char> },
}

impl View for SystemError {
    type V = SystemErrorView;

    open spec fn view(&self) -> SystemErrorView {
        match *self {
            SystemError::InvalidRequest { error } => SystemErrorView::InvalidRequest { error: error@ },
            SystemError::UnsupportedRequest { kind } => SystemErrorView::UnsupportedRequest {
                kind: kind@,
            },
        }
    }
}

/// What a mocked answer comes to, in contracts.
pub open spec fn answer_view(r: Result<Answer, SystemError>) -> Result<AnswerView, SystemErrorView> {
    match r {
        Ok(answer) => Ok(answer@),
        Err(e) => Err(e@),
    }
}

/// All collaborators together: a bank, an oracle at [`MOCK_ORACLE_ADDR`] and
/// a token ledger service.
#[derive(Debug)]
pub struct WasmMockQuerier {
    base: BankQuerier,
    price_querier: PriceQuerier,
    token_querier: TokenQuerier,
}

/// What a [`WasmMockQuerier`] stands for in contracts.
pub ghost struct WasmMockQuerierView {
    pub accounts: AccountsView,
    pub price: u64,
    pub ledgers: LedgersView,
}

impl View for WasmMockQuerier {
    type V = WasmMockQuerierView;

    closed spec fn view(&self) -> WasmMockQuerierView {
        WasmMockQuerierView {
            accounts: self.base@,
            price: self.price_querier@,
            ledgers: self.token_querier@,
        }
    }
}

/// The error for a question that the contract at its address does not take.
pub open spec fn mismatch() -> SystemErrorView {
    SystemErrorView::InvalidRequest { error: "Did not match on the query message"@ }
}

/// What the collaborators answer. The contract at the oracle's address takes
/// the price question only, every other contract the token balance question
/// only; the bank answers for balances; nobody quotes exchange rates.
pub open spec fn spec_handle_query(q: WasmMockQuerierView, request: QueryView) -> Result<
    AnswerView,
    SystemErrorView,
> {
    match request {
        QueryView::Price { oracle } => if oracle == MOCK_ORACLE_ADDR@ {
            Ok(AnswerView::Price(PriceResponse { price: q.price }))
        } else {
            Err(mismatch())
        },
        QueryView::TokenBalance { token, holder } => if token == MOCK_ORACLE_ADDR@ {
            Err(mismatch())
        } else {
            Ok(AnswerView::TokenBalance(spec_get_balance(q.ledgers, token, holder)))
        },
        QueryView::AllBalances { holder } => Ok(
            AnswerView::AllBalances(spec_all_balances(q.accounts, holder)),
        ),
        QueryView::Balance { holder, denom } => Ok(
            AnswerView::Balance(spec_balance(q.accounts, holder, denom)),
        ),
        QueryView::ExchangeRates { base_denom, quote_denoms } => Err(
            SystemErrorView::UnsupportedRequest { kind: "custom"@ },
        ),
    }
}

impl WasmMockQuerier {
    /// Collaborators around the bank `base`: the oracle's price is 0 and no
    /// ledger holds anything.
    pub fn new(base: BankQuerier) -> (q: WasmMockQuerier)
        ensures
            q@ == (WasmMockQuerierView {
                accounts: base@,
                price: 0,
                ledgers: Seq::<(Seq<char>, HoldersView)>::empty(),
            }),
    {
        WasmMockQuerier {
            base,
            price_querier: PriceQuerier::default(),
            token_querier: TokenQuerier::default(),
        }
    }

    /// Answers `request` from what the collaborators were set up with.
    pub fn handle_query(&self, request: &Query) -> (r: Result<Answer, SystemError>)
        ensures
            answer_view(r) == spec_handle_query(self@, request@),
    {
        let oracle = String::from_str(MOCK_ORACLE_ADDR);
        match request {
            Query::Price { oracle: contract_addr } => {
                if *contract_addr == oracle {
                    Ok(Answer::Price(self.price_querier.price()))
                } else {
                    Err(
                        SystemError::InvalidRequest {
                            error: String::from_str("Did not match on the query message"),
                        },
                    )
                }
            },
            Query::TokenBalance { token, holder } => {
                if *token == oracle {
                    Err(
                        SystemError::InvalidRequest {
                            error: String::from_str("Did not match on the query message"),
                        },
                    )
                } else {
                    Ok(
                        Answer::TokenBalance(
                            self.token_querier.get_balance(token.as_str(), holder.as_str()),
                        ),
                    )
                }
            },
            Query::AllBalances { holder } => Ok(Answer::AllBalances(self.base.all_balances(holder))),
            Query::Balance { holder, denom } => Ok(Answer::Balance(self.base.balance(holder, denom))),
            Query::ExchangeRates { base_denom, quote_denoms } => Err(
                SystemError::UnsupportedRequest { kind: String::from_str("custom") },
            ),
        }
    }

    /// Sets the oracle's price.
    pub fn with_oracle_price(&mut self, price: u64)
        ensures
            final(self)@ == (WasmMockQuerierView { price, ..old(self)@ }),
    {
        self.price_querier = PriceQuerier::new(price);
    }

    /// Sets the balances of the token ledgers, in place of any set before.
    pub fn with_token_balances(&mut self, balances: &[(&String, &[(&String, &u128)])])
        ensures
            final(self)@ == (WasmMockQuerierView { ledgers: ledger_refs_view(balances@), ..old(self)@ }),
    {
        self.token_querier = TokenQuerier::new(balances);
    }
}

/// Collaborators for a contract at [`MOCK_CONTRACT_ADDR`] that holds
/// `contract_balance`.
pub fn mock_dependencies(contract_balance: &Vec<Coin>) -> (q: WasmMockQuerier)
    ensures
        q@ == (WasmMockQuerierView {
            accounts: seq![(MOCK_CONTRACT_ADDR@, coins_view(contract_balance@))],
            price: 0,
            ledgers: Seq::<(Seq<char>, HoldersView)>::empty(),
        }),
{
    WasmMockQuerier::new(BankQuerier::new(MOCK_CONTRACT_ADDR, contract_balance))
}

} // verus!
