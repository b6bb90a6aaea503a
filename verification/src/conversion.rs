//! Which of the held balances are swapped into the settlement denomination.
use vstd::prelude::*;
use vstd::string::*;
use crate::coin::{coins_view, Coin, CoinView};
use crate::response::{commands_view, Command, CommandView};

verus! {

/// The quoted rate of one denomination against the base denomination.
#[derive(Debug)]
pub struct ExchangeRateItem {
    pub quote_denom: String,
    /// The rate in units of 10^-18.
    pub exchange_rate: u128,
}

/// What an [`ExchangeRateItem`] stands for in contracts.
pub ghost struct ExchangeRateItemView {
    pub quote_denom: Seq<char>,
    pub exchange_rate: u128,
}

impl View for ExchangeRateItem {
    type V = ExchangeRateItemView;

    open spec fn view(&self) -> ExchangeRateItemView {
        ExchangeRateItemView { quote_denom: self.quote_denom@, exchange_rate: self.exchange_rate }
    }
}

/// The rates that the exchange-rate service quotes for one base
/// denomination, as it returned them for one call.
#[derive(Debug)]
pub struct ExchangeRatesResponse {
    pub base_denom: String,
    pub exchange_rates: Vec<ExchangeRateItem>,
}

/// The views of a list of rates, in order.
pub open spec fn rates_view(rates: Seq<ExchangeRateItem>) -> Seq<ExchangeRateItemView> {
    rates.map_values(|r: ExchangeRateItem| r@)
}

/// The views of a list of strings, in order.
pub open spec fn strings_view(strings: Seq<String>) -> Seq<Seq<char>> {
    strings.map_values(|s: String| s@)
}

/// Whether `rates` quotes a rate for `denom`.
pub open spec fn has_rate(rates: Seq<ExchangeRateItemView>, denom: Seq<char>) -> bool {
    exists|j: int| 0 <= j < rates.len() && (#[trigger] rates[j]).quote_denom == denom
}

/// Whether a balance is swapped: it is not of the excluded denomination, and
/// a rate is quoted for its denomination.
pub open spec fn convertible(
    c: CoinView,
    rates: Seq<ExchangeRateItemView>,
    excluded: Seq<char>,
) -> bool {
    c.denom != excluded && has_rate(rates, c.denom)
}

/// The command that swaps `c` into `target`.
pub open spec fn swap_command(c: CoinView, target: Seq<char>) -> CommandView {
    CommandView::SwapDenomination { source_coin: c, target_denomination: target }
}

/// The swaps for `balances`: one for each convertible balance, in the order
/// of the balances, each into the excluded denomination.
pub open spec fn spec_select_convertible_balances(
    balances: Seq<CoinView>,
    rates: Seq<ExchangeRateItemView>,
    excluded: Seq<char>,
) -> Seq<CommandView> {
    balances.filter(|c: CoinView| convertible(c, rates, excluded)).map_values(
        |c: CoinView| swap_command(c, excluded),
    )
}

/// How the selection grows with one more balance at the end.
pub proof fn lemma_select_last(
    balances: Seq<CoinView>,
    rates: Seq<ExchangeRateItemView>,
    excluded: Seq<char>,
)
    requires
        balances.len() > 0,
    ensures
        spec_select_convertible_balances(balances, rates, excluded) == if convertible(
            balances.last(),
            rates,
            excluded,
        ) {
            spec_select_convertible_balances(balances.drop_last(), rates, excluded).push(
                swap_command(balances.last(), excluded),
            )
        } else {
            spec_select_convertible_balances(balances.drop_last(), rates, excluded)
        },
{
    reveal(Seq::filter);
    let pred = |c: CoinView| convertible(c, rates, excluded);
    let kept = balances.drop_last().filter(pred);
    if convertible(balances.last(), rates, excluded) {
        assert(balances.filter(pred) == kept.push(balances.last()));
        assert(spec_select_convertible_balances(balances, rates, excluded)
            =~= spec_select_convertible_balances(balances.drop_last(), rates, excluded).push(
            swap_command(balances.last(), excluded),
        ));
    } else {
        assert(balances.filter(pred) == kept);
    }
}

/// No swap is selected for the excluded denomination or for a denomination
/// without a quoted rate: every selected command swaps one of the balances,
/// of another denomination than the excluded one and with a quoted rate,
/// into the excluded denomination. There are no more swaps than balances.
pub proof fn lemma_select_sound(
    balances: Seq<CoinView>,
    rates: Seq<ExchangeRateItemView>,
    excluded: Seq<char>,
)
    ensures
        spec_select_convertible_balances(balances, rates, excluded).len() <= balances.len(),
        forall|i: int|
            0 <= i < spec_select_convertible_balances(balances, rates, excluded).len() ==> {
                let command = #[trigger] spec_select_convertible_balances(balances, rates, excluded)[i];
                &&& command is SwapDenomination
                &&& command->target_denomination == excluded
                &&& command->source_coin.denom != excluded
                &&& has_rate(rates, command->source_coin.denom)
                &&& balances.contains(command->source_coin)
            },
{
    let pred = |c: CoinView| convertible(c, rates, excluded);
    let kept = balances.filter(pred);
    balances.lemma_filter_len(pred);
    assert forall|i: int|
        0 <= i < spec_select_convertible_balances(balances, rates, excluded).len() implies {
        let command = #[trigger] spec_select_convertible_balances(balances, rates, excluded)[i];
        &&& command is SwapDenomination
        &&& command->target_denomination == excluded
        &&& command->source_coin.denom != excluded
        &&& has_rate(rates, command->source_coin.denom)
        &&& balances.contains(command->source_coin)
    } by {
        balances.lemma_filter_pred(pred, i);
        assert(kept.contains(kept[i]));
        balances.lemma_filter_contains_rev(pred, kept[i]);
    }
}

/// Every convertible balance is swapped.
pub proof fn lemma_select_complete(
    balances: Seq<CoinView>,
    rates: Seq<ExchangeRateItemView>,
    excluded: Seq<char>,
    k: int,
)
    requires
        0 <= k < balances.len(),
        convertible(balances[k], rates, excluded),
    ensures
        spec_select_convertible_balances(balances, rates, excluded).contains(
            swap_command(balances[k], excluded),
        ),
{
    let pred = |c: CoinView| convertible(c, rates, excluded);
    let kept = balances.filter(pred);
    balances.lemma_filter_contains(pred, k);
    let j = choose|j: int| 0 <= j < kept.len() && kept[j] == balances[k];
    assert(spec_select_convertible_balances(balances, rates, excluded)[j] == swap_command(
        balances[k],
        excluded,
    ));
}

/// Whether `rates` quotes a rate for `denom`.
pub fn quotes_rate(rates: &Vec<ExchangeRateItem>, denom: &String) -> (b: bool)
    ensures
        b == has_rate(rates_view(rates@), denom@),
{
    let mut i: usize = 0;
    while i < rates.len()
        invariant
            i <= rates.len(),
            forall|j: int| 0 <= j < i ==> (#[trigger] rates_view(rates@)[j]).quote_denom != denom@,
        decreases rates.len() - i,
    {
        if rates[i].quote_denom == *denom {
            assert(rates_view(rates@)[i as int].quote_denom == denom@);
            return true;
        }
        i += 1;
    }
    false
}

/// Selects the balances to swap into `excluded`, the settlement
/// denomination: a balance of the excluded denomination, or of one for which
/// `rates` quotes no rate, is skipped without an error; the order of the
/// balances is kept.
pub fn select_convertible_balances(
    balances: &Vec<Coin>,
    rates: &Vec<ExchangeRateItem>,
    excluded: &String,
) -> (swaps: Vec<Command>)
    ensures
        commands_view(swaps@) == spec_select_convertible_balances(
            coins_view(balances@),
            rates_view(rates@),
            excluded@,
        ),
        swaps.len() <= balances.len(),
{
    let ghost all = coins_view(balances@);
    let ghost quoted = rates_view(rates@);
    let mut swaps: Vec<Command> = Vec::new();
    let mut i: usize = 0;
    proof {
        reveal(Seq::filter);
        assert(all.take(0) =~= Seq::<CoinView>::empty());
        assert(commands_view(swaps@) =~= spec_select_convertible_balances(
            all.take(0),
            quoted,
            excluded@,
        ));
    }
    while i < balances.len()
        invariant
            i <= balances.len(),
            all == coins_view(balances@),
            quoted == rates_view(rates@),
            commands_view(swaps@) == spec_select_convertible_balances(
                all.take(i as int),
                quoted,
                excluded@,
            ),
        decreases balances.len() - i,
    {
        let ghost before = swaps@;
        proof {
            assert(all.take(i + 1).drop_last() =~= all.take(i as int));
            assert(all.take(i + 1).last() == balances@[i as int]@);
            lemma_select_last(all.take(i + 1), quoted, excluded@);
        }
        let skip = balances[i].denom == *excluded || !quotes_rate(rates, &balances[i].denom);
        if !skip {
            let command = Command::SwapDenomination {
                source_coin: balances[i].clone(),
                target_denomination: excluded.clone(),
            };
            swaps.push(command);
            assert(commands_view(swaps@) =~= commands_view(before).push(
                swap_command(balances@[i as int]@, excluded@),
            ));
        }
        i += 1;
    }
    proof {
        assert(all.take(i as int) =~= all);
        lemma_select_sound(all, quoted, excluded@);
    }
    swaps
}

/// The denominations against which rates of `base` are asked: those of the
/// balances other than `base` itself, in the order of the balances.
pub open spec fn spec_quote_denoms(balances: Seq<CoinView>, base: Seq<char>) -> Seq<Seq<char>> {
    balances.filter(|c: CoinView| c.denom != base).map_values(|c: CoinView| c.denom)
}

/// How the quote denominations grow with one more balance at the end.
pub proof fn lemma_quote_denoms_last(balances: Seq<CoinView>, base: Seq<char>)
    requires
        balances.len() > 0,
    ensures
        spec_quote_denoms(balances, base) == if balances.last().denom != base {
            spec_quote_denoms(balances.drop_last(), base).push(balances.last().denom)
        } else {
            spec_quote_denoms(balances.drop_last(), base)
        },
{
    reveal(Seq::filter);
    let pred = |c: CoinView| c.denom != base;
    let kept = balances.drop_last().filter(pred);
    if balances.last().denom != base {
        assert(balances.filter(pred) == kept.push(balances.last()));
        assert(spec_quote_denoms(balances, base) =~= spec_quote_denoms(
            balances.drop_last(),
            base,
        ).push(balances.last().denom));
    } else {
        assert(balances.filter(pred) == kept);
    }
}

/// The denominations of `balances` other than `base`, in order: those
/// against which rates of `base` are asked.
pub fn quote_denoms(balances: &Vec<Coin>, base: &String) -> (denoms: Vec<String>)
    ensures
        strings_view(denoms@) == spec_quote_denoms(coins_view(balances@), base@),
        denoms.len() <= balances.len(),
{
    let ghost all = coins_view(balances@);
    let mut denoms: Vec<String> = Vec::new();
    let mut i: usize = 0;
    proof {
        reveal(Seq::filter);
        assert(all.take(0) =~= Seq::<CoinView>::empty());
        assert(strings_view(denoms@) =~= spec_quote_denoms(all.take(0), base@));
    }
    while i < balances.len()
        invariant
            i <= balances.len(),
            denoms.len() <= i,
            all == coins_view(balances@),
            strings_view(denoms@) == spec_quote_denoms(all.take(i as int), base@),
        decreases balances.len() - i,
    {
        let ghost before = denoms@;
        proof {
            assert(all.take(i + 1).drop_last() =~= all.take(i as int));
            assert(all.take(i + 1).last() == balances@[i as int]@);
            lemma_quote_denoms_last(all.take(i + 1), base@);
        }
        if balances[i].denom != *base {
            denoms.push(balances[i].denom.clone());
            assert(strings_view(denoms@) =~= strings_view(before).push(balances@[i as int].denom@));
        }
        i += 1;
    }
    proof {
        assert(all.take(i as int) =~= all);
    }
    denoms
}

} // verus!
