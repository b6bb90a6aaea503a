//! The purchase computation: how much of the settlement denomination was
//! received and how many tokens that buys.
use vstd::prelude::*;
use vstd::string::*;
use crate::coin::{coins_view, Coin, CoinView, LUNA};
use crate::error::ContractError;
use crate::response::{AttributeView, Command, CommandView, Response};
use crate::state::{State, StateView};
use crate::text::{decimal, decimal_string};

verus! {

/// The amount that a coin adds to the settlement total: its amount if it is
/// of the settlement denomination, else nothing.
pub open spec fn settlement_part(c: CoinView) -> nat {
    if c.denom == LUNA@ {
        c.amount as nat
    } else {
        0
    }
}

/// The sum of the amounts of those coins in `funds` whose denomination is the
/// settlement denomination; 0 if there is none.
pub open spec fn settlement_total(funds: Seq<CoinView>) -> nat
    decreases funds.len(),
{
    if funds.len() == 0 {
        0
    } else {
        settlement_total(funds.drop_last()) + settlement_part(funds.last())
    }
}

/// The settlement total of a prefix never exceeds that of the whole list.
pub proof fn lemma_settlement_total_prefix(funds: Seq<CoinView>, n: int)
    requires
        0 <= n <= funds.len(),
    ensures
        settlement_total(funds.take(n)) <= settlement_total(funds),
    decreases funds.len() - n,
{
    if n == funds.len() {
        assert(funds.take(n) =~= funds);
    } else {
        lemma_settlement_total_prefix(funds.drop_last(), n);
        assert(funds.drop_last().take(n) =~= funds.take(n));
    }
}

/// Where exactly one coin of the list is of the settlement denomination, the
/// settlement total is that coin's amount.
pub proof fn lemma_settlement_total_single(funds: Seq<CoinView>, k: int)
    requires
        0 <= k < funds.len(),
        funds[k].denom == LUNA@,
        forall|j: int| 0 <= j < funds.len() && j != k ==> funds[j].denom != LUNA@,
    ensures
        settlement_total(funds) == funds[k].amount,
    decreases funds.len(),
{
    let rest = funds.drop_last();
    if k == funds.len() - 1 {
        lemma_settlement_total_none(rest);
    } else {
        lemma_settlement_total_single(rest, k);
    }
}

/// Where no coin of the list is of the settlement denomination, the
/// settlement total is 0.
pub proof fn lemma_settlement_total_none(funds: Seq<CoinView>)
    requires
        forall|j: int| 0 <= j < funds.len() ==> funds[j].denom != LUNA@,
    ensures
        settlement_total(funds) == 0,
    decreases funds.len(),
{
    if funds.len() > 0 {
        lemma_settlement_total_none(funds.drop_last());
    }
}

/// Floor division: for a positive price, the quotient `received / price`
/// tokens cost no more than what was received, and one token more would.
pub proof fn lemma_floor_division(received: nat, price: nat)
    requires
        price > 0,
    ensures
        (received / price) * price <= received,
        received < (received / price + 1) * price,
{
    let q = received / price;
    assert(q * price <= received && received < (q + 1) * price) by (nonlinear_arith)
        requires
            price > 0,
            q == received / price,
    ;
}

/// The floor quotient is the only number of tokens that costs no more than
/// what was received while one token more would.
pub proof fn lemma_floor_division_unique(received: nat, price: nat, tokens: nat)
    requires
        price > 0,
        tokens * price <= received,
        received < (tokens + 1) * price,
    ensures
        tokens == received / price,
{
    let q = received / price;
    lemma_floor_division(received, price);
    assert(tokens == q) by (nonlinear_arith)
        requires
            price > 0,
            tokens * price <= received,
            received < (tokens + 1) * price,
            q * price <= received,
            received < (q + 1) * price,
    ;
}

/// The settlement total of `funds`, or `None` where it does not fit the
/// machine's amounts.
pub fn luna_received(funds: &Vec<Coin>) -> (r: Option<u128>)
    ensures
        match r {
            Some(total) => total == settlement_total(coins_view(funds@)),
            None => settlement_total(coins_view(funds@)) > u128::MAX,
        },
{
    let luna = String::from_str(LUNA);
    let ghost all = coins_view(funds@);
    let mut total: u128 = 0;
    let mut i: usize = 0;
    while i < funds.len()
        invariant
            i <= funds.len(),
            all == coins_view(funds@),
            luna@ == LUNA@,
            total == settlement_total(all.take(i as int)),
        decreases funds.len() - i,
    {
        let ghost before = all.take(i as int);
        let ghost after = all.take(i + 1);
        proof {
            assert(after.drop_last() =~= before);
            assert(after.last() == funds@[i as int]@);
            lemma_settlement_total_prefix(all, i + 1);
        }
        if funds[i].denom == luna {
            match total.checked_add(funds[i].amount) {
                Some(sum) => {
                    total = sum;
                },
                None => {
                    return None;
                },
            }
        }
        i += 1;
    }
    proof {
        assert(all.take(i as int) =~= all);
    }
    Some(total)
}

/// What a purchase comes to.
#[derive(Clone, Copy, Debug, PartialEq, Eq, Structural)]
pub struct Purchase {
    /// The amount of the settlement denomination that was received.
    pub received: u128,
    /// The number of tokens that it buys.
    pub coins_to_be_sent: u128,
}

/// What `funds` buy at `price`: the error `CoinMismatch` where no funds are
/// attached, else the settlement total and its floor quotient by the price.
pub open spec fn spec_purchase_amount(funds: Seq<CoinView>, price: u64) -> Option<Purchase> {
    if funds.len() == 0 {
        None
    } else {
        Some(
            Purchase {
                received: settlement_total(funds) as u128,
                coins_to_be_sent: (settlement_total(funds) / (price as nat)) as u128,
            },
        )
    }
}

/// Whether a purchase can be computed: with funds attached, the price is
/// positive and the settlement total fits the machine's amounts.
pub open spec fn buy_ready(funds: Seq<CoinView>, price: u64) -> bool {
    funds.len() > 0 ==> price > 0 && settlement_total(funds) <= u128::MAX
}

/// Computes what `funds` buy at `price`. Funds without a coin of the
/// settlement denomination are accepted and buy nothing.
///
/// With funds attached the price must be positive, and the settlement total
/// must fit the machine's amounts ([`luna_received`] tests that).
pub fn purchase_amount(funds: &Vec<Coin>, price: u64) -> (r: Result<Purchase, ContractError>)
    requires
        buy_ready(coins_view(funds@), price),
    ensures
        funds.len() == 0 <==> r is Err,
        r is Err ==> r->Err_0 is CoinMismatch,
        r is Ok ==> spec_purchase_amount(coins_view(funds@), price) == Some(r->Ok_0),
        r is Ok ==> r->Ok_0.coins_to_be_sent * price <= r->Ok_0.received < (r->Ok_0.coins_to_be_sent
            + 1) * price,
{
    if funds.len() == 0 {
        return Err(ContractError::CoinMismatch);
    }
    let received = match luna_received(funds) {
        Some(total) => total,
        None => {
            proof {
                assert(false);
            }
            0
        },
    };
    let coins_to_be_sent = received / (price as u128);
    proof {
        assert(coins_view(funds@).len() == funds.len());
        lemma_floor_division(received as nat, price as nat);
    }
    Ok(Purchase { received, coins_to_be_sent })
}

/// An attribute in contracts.
pub open spec fn attribute(key: Seq<char>, value: Seq<char>) -> AttributeView {
    AttributeView { key, value }
}

/// A coin of the settlement denomination in contracts.
pub open spec fn luna_coin(amount: u128) -> CoinView {
    CoinView { denom: LUNA@, amount }
}

/// The command that pays the bought tokens to the buyer.
pub open spec fn token_transfer(
    state: StateView,
    sender: Seq<char>,
    purchase: Purchase,
    payload: Seq<u8>,
) -> CommandView {
    CommandView::TransferToken {
        token: state.token_address,
        recipient: sender,
        amount: purchase.coins_to_be_sent,
        payload,
    }
}

/// The audit attributes of a purchase: the price, what was received and the
/// tokens sent, each as a decimal numeral.
pub open spec fn purchase_attributes(price: u64, purchase: Purchase) -> Seq<AttributeView> {
    seq![
        attribute("price"@, decimal(price as nat)),
        attribute("luna_received"@, decimal(purchase.received as nat)),
        attribute("coins_sent"@, decimal(purchase.coins_to_be_sent as nat)),
    ]
}

/// A response with the audit attributes of a purchase and no command yet.
pub fn purchase_audit(price: u64, purchase: Purchase) -> (r: Response)
    ensures
        r@.messages == Seq::<CommandView>::empty(),
        r@.attributes == purchase_attributes(price, purchase),
{
    let r = Response::new().add_attribute("price", decimal_string(price as u128)).add_attribute(
        "luna_received",
        decimal_string(purchase.received),
    ).add_attribute("coins_sent", decimal_string(purchase.coins_to_be_sent));
    assert(r@.attributes =~= purchase_attributes(price, purchase));
    r
}

/// The command that pays the bought tokens to the buyer.
pub fn transfer_tokens(state: &State, sender: &String, purchase: Purchase, payload: Vec<u8>) -> (c:
    Command)
    ensures
        c@ == token_transfer(state@, sender@, purchase, payload@),
{
    Command::TransferToken {
        token: state.token_address.clone(),
        recipient: sender.clone(),
        amount: purchase.coins_to_be_sent,
        payload,
    }
}

} // verus!
