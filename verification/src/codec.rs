//! How a currency pair is written into the symbol of an asset row, and how an
//! exchange rate is read from such a row and written back to it.
//!
//! A currency row carries its pair in `symbol`: the code of the currency that
//! is converted from, three characters long, then the code of the currency
//! that is converted to, then `=X`. Its `name` carries the rate as text.

use crate::clock::Timestamp;
use crate::error::StoreError;
use crate::model::{
    lemma_rows_of_type_push, rows_of_type, Asset, AssetView, ExchangeRate, ExchangeRateView,
};
use vstd::prelude::*;
use vstd::std_specs::iter::IteratorSpec;
use vstd::string::*;

verus! {

/// The asset type of the rows that stand for currency pairs.
pub const CURRENCY: &'static str = "Currency";

/// Whether a row stands for a currency pair.
pub open spec fn is_currency(asset: AssetView) -> bool {
    asset.asset_type == Some(CURRENCY@)
}

/// The number of characters of `symbol` that stand before its first `'='`:
/// all of them where it holds none.
pub open spec fn pair_len(symbol: Seq<char>) -> int {
    match symbol.index_of_first('=') {
        Some(k) => k,
        None => symbol.len() as int,
    }
}

/// Whether `symbol` encodes a currency pair: it is at least seven characters
/// long, and at least three of them stand before its first `'='`.
pub open spec fn symbol_is_pair(symbol: Seq<char>) -> bool {
    symbol.len() >= 7 && pair_len(symbol) >= 3
}

/// The currency converted from: the first three characters of the symbol.
pub open spec fn symbol_from(symbol: Seq<char>) -> Seq<char> {
    symbol.subrange(0, 3)
}

/// The currency converted to: what stands between the first three
/// characters of the symbol and its first `'='`.
pub open spec fn symbol_to(symbol: Seq<char>) -> Seq<char> {
    symbol.subrange(3, pair_len(symbol))
}

/// The symbol that encodes the pair `from`, `to`.
pub open spec fn symbol_of(from: Seq<char>, to: Seq<char>) -> Seq<char> {
    from + to + seq!['=', 'X']
}

/// The exchange rate that a currency row with a well-formed symbol stands
/// for. A row without a name gives the empty rate text.
pub open spec fn rate_of(asset: AssetView) -> ExchangeRateView {
    ExchangeRateView {
        id: asset.id,
        from_currency: symbol_from(asset.symbol),
        to_currency: symbol_to(asset.symbol),
        rate: match asset.name {
            Some(text) => text,
            None => Seq::empty(),
        },
        source: asset.data_source,
    }
}

/// The currency row that stands for `rate`, last changed at `now`.
pub open spec fn asset_of(rate: ExchangeRateView, now: Timestamp) -> AssetView {
    AssetView {
        id: rate.id,
        symbol: symbol_of(rate.from_currency, rate.to_currency),
        name: Some(rate.rate),
        asset_type: Some(CURRENCY@),
        data_source: rate.source,
        currency: rate.to_currency,
        updated_at: now,
    }
}

/// The currency rows among `assets`, in their order.
pub open spec fn currency_rows(assets: Seq<AssetView>) -> Seq<AssetView> {
    rows_of_type(assets, CURRENCY@)
}

/// Whether every currency row among `assets` has a well-formed symbol.
pub open spec fn all_pairs(assets: Seq<AssetView>) -> bool {
    forall|j: int|
        0 <= j < assets.len() && is_currency(#[trigger] assets[j]) ==> symbol_is_pair(
            assets[j].symbol,
        )
}

/// The exchange rates that the currency rows among `assets` stand for, in
/// the order of the rows.
pub open spec fn rates_of(assets: Seq<AssetView>) -> Seq<ExchangeRateView> {
    currency_rows(assets).map_values(|asset: AssetView| rate_of(asset))
}

/// Whether `rate` is the reading of one of the currency rows among `assets`.
pub open spec fn is_reading_of(assets: Seq<AssetView>, rate: ExchangeRateView) -> bool {
    exists|j: int|
        0 <= j < assets.len() && is_currency(#[trigger] assets[j]) && rate == rate_of(assets[j])
}

/// `pair_len` is the one position that no `'='` precedes and that either
/// holds an `'='` or is the end of the symbol.
pub proof fn lemma_pair_len(symbol: Seq<char>)
    ensures
        0 <= pair_len(symbol) <= symbol.len(),
        forall|j: int| 0 <= j < pair_len(symbol) ==> symbol[j] != '=',
        pair_len(symbol) < symbol.len() ==> symbol[pair_len(symbol)] == '=',
{
    symbol.index_of_first_ensures('=');
    if symbol.index_of_first('=') is None {
        assert forall|j: int| 0 <= j < symbol.len() implies symbol[j] != '=' by {
            if symbol[j] == '=' {
                assert(symbol.contains('='));
            }
        }
    }
}

/// A position that no `'='` precedes and that holds one, or is the end of
/// the symbol, is `pair_len`.
pub proof fn lemma_pair_len_is(symbol: Seq<char>, k: int)
    requires
        0 <= k <= symbol.len(),
        forall|j: int| 0 <= j < k ==> symbol[j] != '=',
        k < symbol.len() ==> symbol[k] == '=',
    ensures
        pair_len(symbol) == k,
{
    lemma_pair_len(symbol);
}

/// What adding one row does to the currency rows and to the rates.
pub proof fn lemma_rates_push(assets: Seq<AssetView>, asset: AssetView)
    ensures
        currency_rows(assets.push(asset)) == if is_currency(asset) {
            currency_rows(assets).push(asset)
        } else {
            currency_rows(assets)
        },
        rates_of(assets.push(asset)) == if is_currency(asset) {
            rates_of(assets).push(rate_of(asset))
        } else {
            rates_of(assets)
        },
{
    lemma_rows_of_type_push(assets, asset, CURRENCY@);
    if is_currency(asset) {
        assert(rates_of(assets.push(asset)) =~= rates_of(assets).push(rate_of(asset)));
    }
}

/// What adding one row does to the well-formedness of the currency rows.
pub proof fn lemma_all_pairs_push(assets: Seq<AssetView>, asset: AssetView)
    ensures
        all_pairs(assets.push(asset)) == (all_pairs(assets) && (is_currency(asset)
            ==> symbol_is_pair(asset.symbol))),
{
    let longer = assets.push(asset);
    if all_pairs(longer) {
        assert forall|j: int|
            0 <= j < assets.len() && is_currency(#[trigger] assets[j]) implies symbol_is_pair(
            assets[j].symbol,
        ) by {
            assert(longer[j] == assets[j]);
        }
        assert(longer[assets.len() as int] == asset);
    }
    if all_pairs(assets) && (is_currency(asset) ==> symbol_is_pair(asset.symbol)) {
        assert forall|j: int|
            0 <= j < longer.len() && is_currency(#[trigger] longer[j]) implies symbol_is_pair(
            longer[j].symbol,
        ) by {
            if j < assets.len() {
                assert(longer[j] == assets[j]);
            }
        }
    }
}

/// Counts the characters of `symbol` that stand before its first `'='`.
fn pair_length(symbol: &str, len: usize) -> (k: usize)
    requires
        len == symbol@.len(),
    ensures
        k == pair_len(symbol@),
{
    broadcast use vstd::string::group_string_axioms;

    let mut rest = symbol.chars();
    let mut k: usize = 0;
    loop
        invariant_except_break
            rest.obeys_prophetic_iter_laws(),
            rest.remaining() == symbol@.skip(k as int),
        invariant
            k <= len == symbol@.len(),
            forall|j: int| 0 <= j < k ==> symbol@[j] != '=',
        ensures
            k <= symbol@.len(),
            forall|j: int| 0 <= j < k ==> symbol@[j] != '=',
            k < symbol@.len() ==> symbol@[k as int] == '=',
        decreases symbol@.len() - k,
    {
        match rest.next() {
            Some(c) => {
                if c == '=' {
                    break;
                }
                k = k + 1;
            },
            None => {
                break;
            },
        }
    }
    proof {
        lemma_pair_len_is(symbol@, k as int);
    }
    k
}

/// Reads the currency pair that `symbol` encodes: the currency converted
/// from, then the currency converted to. A symbol that encodes none is
/// reported as `MalformedEncoding`.
pub fn decode_symbol(symbol: &str) -> (res: Result<(String, String), StoreError>)
    ensures
        match res {
            Ok(pair) => {
                &&& symbol_is_pair(symbol@)
                &&& pair.0@ == symbol_from(symbol@)
                &&& pair.1@ == symbol_to(symbol@)
            },
            Err(e) => e == StoreError::MalformedEncoding && !symbol_is_pair(symbol@),
        },
{
    let len: usize = symbol.unicode_len();
    if len < 7 {
        return Err(StoreError::MalformedEncoding);
    }
    let cut: usize = pair_length(symbol, len);
    if cut < 3 {
        return Err(StoreError::MalformedEncoding);
    }
    proof {
        lemma_pair_len(symbol@);
    }
    let from = symbol.substring_char(0, 3);
    let to = symbol.substring_char(3, cut);
    Ok((from.to_owned(), to.to_owned()))
}

/// Writes the symbol that encodes the pair `from`, `to`.
pub fn encode_symbol(from: &str, to: &str) -> (symbol: String)
    ensures
        symbol@ == symbol_of(from@, to@),
{
    let mut symbol = from.to_owned();
    symbol.append(to);
    symbol.append("=X");
    proof {
        reveal_strlit("=X");
    }
    symbol
}

/// Whether a row stands for a currency pair.
pub fn is_currency_row(asset: &Asset) -> (b: bool)
    ensures
        b == is_currency(asset@),
{
    match &asset.asset_type {
        Some(kind) => {
            let currency = CURRENCY.to_owned();
            *kind == currency
        },
        None => false,
    }
}

/// Reads the exchange rate that a currency row stands for. The row's name is
/// taken as the rate text as it stands, the empty text where the row has no
/// name. A row whose symbol encodes no currency pair is reported as
/// `MalformedEncoding`.
pub fn exchange_rate_of(asset: &Asset) -> (res: Result<ExchangeRate, StoreError>)
    ensures
        match res {
            Ok(rate) => symbol_is_pair(asset@.symbol) && rate@ == rate_of(asset@),
            Err(e) => e == StoreError::MalformedEncoding && !symbol_is_pair(asset@.symbol),
        },
{
    match decode_symbol(asset.symbol.as_str()) {
        Ok(pair) => {
            let rate = match &asset.name {
                Some(text) => text.clone(),
                None => String::new(),
            };
            Ok(
                ExchangeRate {
                    id: asset.id.clone(),
                    from_currency: pair.0,
                    to_currency: pair.1,
                    rate,
                    source: asset.data_source.clone(),
                },
            )
        },
        Err(e) => Err(e),
    }
}

/// Builds the currency row that stands for `rate`, last changed at `now`.
pub fn asset_for(rate: &ExchangeRate, now: Timestamp) -> (asset: Asset)
    ensures
        asset@ == asset_of(rate@, now),
{
    Asset {
        id: rate.id.clone(),
        symbol: encode_symbol(rate.from_currency.as_str(), rate.to_currency.as_str()),
        name: Some(rate.rate.clone()),
        asset_type: Some(CURRENCY.to_owned()),
        data_source: rate.source.clone(),
        currency: rate.to_currency.clone(),
        updated_at: now,
    }
}

/// Reads the exchange rates that the currency rows among `assets` stand for,
/// in the order of the rows. Rows of another type are passed over, whatever
/// the caller selected. One currency row whose symbol encodes no pair fails
/// the whole reading with `MalformedEncoding`.
pub fn exchange_rates_of(assets: &Vec<Asset>) -> (res: Result<Vec<ExchangeRate>, StoreError>)
    ensures
        match res {
            Ok(rates) => {
                &&& all_pairs(assets.deep_view())
                &&& rates.deep_view() == rates_of(assets.deep_view())
                &&& forall|i: int|
                    0 <= i < rates.len() ==> is_reading_of(
                        assets.deep_view(),
                        #[trigger] rates.deep_view()[i],
                    )
            },
            Err(e) => e == StoreError::MalformedEncoding && !all_pairs(assets.deep_view()),
        },
{
    let ghost rows = assets.deep_view();
    let mut rates: Vec<ExchangeRate> = Vec::new();
    let mut n: usize = 0;
    proof {
        reveal(Seq::filter);
    }
    while n < assets.len()
        invariant
            n <= assets.len(),
            rows == assets.deep_view(),
            all_pairs(rows.take(n as int)),
            rates.deep_view() == rates_of(rows.take(n as int)),
        decreases assets.len() - n,
    {
        let asset = &assets[n];
        proof {
            assert(rows.take(n + 1) =~= rows.take(n as int).push(asset@));
            lemma_rates_push(rows.take(n as int), asset@);
            lemma_all_pairs_push(rows.take(n as int), asset@);
        }
        if is_currency_row(asset) {
            match exchange_rate_of(asset) {
                Ok(rate) => {
                    rates.push(rate);
                },
                Err(e) => {
                    assert(!all_pairs(rows)) by {
                        assert(rows[n as int] == asset@);
                    }
                    return Err(e);
                },
            }
        }
        n = n + 1;
    }
    proof {
        assert(rows.take(n as int) =~= rows);
        assert forall|i: int| 0 <= i < rates.len() implies is_reading_of(
            rows,
            #[trigger] rates.deep_view()[i],
        ) by {
            lemma_rates_are_currency_rows(rows, i);
        }
    }
    Ok(rates)
}

/// A rate that is written to a row and read back is the rate that was
/// written, whenever each of its two currency codes is three characters long
/// and holds no `'='`.
pub proof fn lemma_rate_round_trip(rate: ExchangeRateView, now: Timestamp)
    requires
        rate.from_currency.len() == 3,
        rate.to_currency.len() == 3,
        !rate.from_currency.contains('='),
        !rate.to_currency.contains('='),
    ensures
        is_currency(asset_of(rate, now)),
        symbol_is_pair(asset_of(rate, now).symbol),
        rate_of(asset_of(rate, now)) == rate,
{
    let symbol = symbol_of(rate.from_currency, rate.to_currency);
    assert forall|j: int| 0 <= j < 6 implies symbol[j] != '=' by {
        if j < 3 {
            assert(symbol[j] == rate.from_currency[j]);
        } else {
            assert(symbol[j] == rate.to_currency[j - 3]);
        }
    }
    lemma_pair_len_is(symbol, 6);
}

/// Every rate that is read from a table is the reading of one of its
/// currency rows: no row of another type is ever read as a rate.
pub proof fn lemma_rates_are_currency_rows(assets: Seq<AssetView>, i: int)
    requires
        0 <= i < rates_of(assets).len(),
    ensures
        is_reading_of(assets, rates_of(assets)[i]),
    decreases assets.len(),
{
    reveal(Seq::filter);
    if assets.len() > 0 {
        let head = assets.drop_last();
        assert(assets =~= head.push(assets.last()));
        lemma_rates_push(head, assets.last());
        if i < rates_of(head).len() {
            lemma_rates_are_currency_rows(head, i);
            let j = choose|j: int|
                0 <= j < head.len() && is_currency(#[trigger] head[j]) && rates_of(head)[i]
                    == rate_of(head[j]);
            assert(assets[j] == head[j]);
        } else {
            assert(is_currency(assets[assets.len() - 1]));
        }
    }
}

/// Selecting the currency rows first changes nothing of what is read from a
/// table.
pub proof fn lemma_rates_of_currency_rows(assets: Seq<AssetView>)
    ensures
        currency_rows(currency_rows(assets)) == currency_rows(assets),
        rates_of(currency_rows(assets)) == rates_of(assets),
        all_pairs(currency_rows(assets)) == all_pairs(assets),
    decreases assets.len(),
{
    reveal(Seq::filter);
    if assets.len() > 0 {
        let head = assets.drop_last();
        let last = assets.last();
        assert(assets =~= head.push(last));
        lemma_rates_of_currency_rows(head);
        lemma_rows_of_type_push(head, last, CURRENCY@);
        lemma_rows_of_type_push(currency_rows(head), last, CURRENCY@);
        lemma_all_pairs_push(head, last);
        lemma_all_pairs_push(currency_rows(head), last);
    }
}

} // verus!
