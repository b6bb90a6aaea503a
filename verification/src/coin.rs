//! Coins: an amount of one denomination.
use vstd::prelude::*;
use vstd::string::*;
use crate::text::{decimal, push_decimal};

verus! {

/// The settlement denomination: purchases are priced in it and withdrawals
/// are paid out in it.
pub const LUNA: &'static str = "uluna";

/// An amount of one denomination, in its smallest unit.
#[derive(Debug)]
pub struct Coin {
    pub denom: String,
    pub amount: u128,
}

/// What a [`Coin`] stands for in contracts.
pub ghost struct CoinView {
    pub denom: Seq<char>,
    pub amount: u128,
}

impl View for Coin {
    type V = CoinView;

    open spec fn view(&self) -> CoinView {
        CoinView { denom: self.denom@, amount: self.amount }
    }
}

/// The views of a list of coins, in order.
pub open spec fn coins_view(coins: Seq<Coin>) -> Seq<CoinView> {
    coins.map_values(|c: Coin| c@)
}

impl CoinView {
    /// The coin as text: the decimal amount directly followed by the
    /// denomination.
    pub open spec fn text(self) -> Seq<char> {
        decimal(self.amount as nat) + self.denom
    }
}

impl Clone for Coin {
    fn clone(&self) -> (r: Coin)
        ensures
            r@ == self@,
    {
        Coin { denom: self.denom.clone(), amount: self.amount }
    }
}

impl Coin {
    /// The coin as text, for audit attributes: `"1000uluna"`.
    pub fn to_string(&self) -> (s: String)
        ensures
            s@ == self@.text(),
    {
        let mut s = String::new();
        push_decimal(&mut s, self.amount);
        s.append(self.denom.as_str());
        assert(s@ =~= self@.text());
        s
    }
}

/// A coin of `amount` units of `denom`.
pub fn coin(amount: u128, denom: &str) -> (c: Coin)
    ensures
        c@ == (CoinView { denom: denom@, amount }),
{
    Coin { denom: String::from_str(denom), amount }
}

} // verus!
