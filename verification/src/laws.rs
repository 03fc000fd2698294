//! What holds of the operations taken together, stated over the values that
//! their contracts speak of.

use crate::clock::Timestamp;
use crate::codec::{
    all_pairs, asset_of, currency_rows, is_currency, lemma_rate_round_trip, rate_of, rates_of,
    symbol_is_pair, CURRENCY,
};
use crate::model::{
    lemma_rows_of_type_contains, ExchangeRateView, NewSettingsView, SettingsView,
};
use crate::store::{rows_under, StoreView};
use vstd::prelude::*;

verus! {

/// Among rows with distinct keys, a key has one row or none.
proof fn lemma_rows_under(rows: Seq<SettingsView>, id: i32)
    requires
        forall|i: int, j: int| 0 <= i < j < rows.len() ==> rows[i].id != rows[j].id,
    ensures
        rows_under(rows, id).len() == if exists|i: int|
            0 <= i < rows.len() && (#[trigger] rows[i]).id == id {
            1nat
        } else {
            0nat
        },
    decreases rows.len(),
{
    reveal(Seq::filter);
    if rows.len() > 0 {
        let head = rows.drop_last();
        let last = rows.last();
        lemma_rows_under(head, id);
        let in_head = exists|i: int| 0 <= i < head.len() && (#[trigger] head[i]).id == id;
        let in_rows = exists|i: int| 0 <= i < rows.len() && (#[trigger] rows[i]).id == id;
        if in_head {
            let i = choose|i: int| 0 <= i < head.len() && (#[trigger] head[i]).id == id;
            assert(rows[i].id == id);
            assert(last.id != id) by {
                assert(rows[i].id != rows[rows.len() - 1].id);
            }
        }
        if last.id == id {
            assert(rows[rows.len() - 1].id == id);
        }
        if in_rows && last.id != id {
            let i = choose|i: int| 0 <= i < rows.len() && (#[trigger] rows[i]).id == id;
            assert(head[i].id == id);
        }
    }
}

/// In a valid store the settings table holds, under any one key, exactly
/// one row or none: never more.
pub proof fn lemma_settings_row_count(store: StoreView, id: i32)
    requires
        store.wf(),
    ensures
        store.count_settings(id) == if store.has_settings(id) {
            1nat
        } else {
            0nat
        },
{
    lemma_rows_under(store.settings, id);
}

/// After the settings have been written under a key, a valid store is still
/// valid and holds exactly one row under that key, and that row carries the
/// values that were written. The rows under other keys and the asset table
/// are as before.
pub proof fn lemma_upsert_gives_one_row(store: StoreView, id: i32, new: NewSettingsView)
    requires
        store.wf(),
    ensures
        store.with_settings_upserted(id, new).wf(),
        store.with_settings_upserted(id, new).count_settings(id) == 1,
        store.with_settings_upserted(id, new).find_settings(id) == Some(new.row(id)),
        store.with_settings_upserted(id, new).assets == store.assets,
        forall|i: int|
            0 <= i < store.settings.len() && (#[trigger] store.settings[i]).id != id
                ==> store.with_settings_upserted(id, new).settings[i] == store.settings[i],
{
    let after = store.with_settings_upserted(id, new);
    assert(after.has_settings(id)) by {
        if store.has_settings(id) {
            let i = choose|i: int|
                0 <= i < store.settings.len() && (#[trigger] store.settings[i]).id == id;
            assert(after.settings[i].id == id);
        } else {
            assert(after.settings[store.settings.len() as int].id == id);
        }
    }
    lemma_settings_row_count(after, id);
    let k = choose|k: int|
        0 <= k < after.settings.len() && (#[trigger] after.settings[k]).id == id;
    assert(after.settings[k] == new.row(id));
}

/// Writing the same settings twice leaves a valid store as writing them
/// once does.
pub proof fn lemma_upsert_is_idempotent(store: StoreView, id: i32, new: NewSettingsView)
    requires
        store.wf(),
    ensures
        store.with_settings_upserted(id, new).with_settings_upserted(id, new)
            == store.with_settings_upserted(id, new),
{
    let once = store.with_settings_upserted(id, new);
    lemma_upsert_gives_one_row(store, id, new);
    assert(once.has_settings(id)) by {
        lemma_settings_row_count(once, id);
    }
    assert(once.with_settings_upserted(id, new) =~= once);
}

/// Setting the base currency changes that one field of the rows under the
/// key and nothing else: not their other fields, not a row under another
/// key, not the asset table, not the number or the order of the rows.
pub proof fn lemma_base_currency_is_isolated(store: StoreView, id: i32, code: Seq<char>)
    ensures
        store.with_base_currency(id, code).assets == store.assets,
        store.with_base_currency(id, code).settings.len() == store.settings.len(),
        forall|i: int|
            0 <= i < store.settings.len() ==> {
                let before = store.settings[i];
                let after = #[trigger] store.with_base_currency(id, code).settings[i];
                &&& after.id == before.id
                &&& after.theme == before.theme
                &&& after.font == before.font
                &&& after.base_currency == if before.id == id {
                    code
                } else {
                    before.base_currency
                }
            },
        store.wf() ==> store.with_base_currency(id, code).wf(),
{
}

/// A rate that has been written to a valid store is among the rates that
/// are read from it afterwards, whenever the store holds a row under the
/// rate's key, each of the rate's two currency codes is three characters
/// long and holds no `'='`, and the symbols of the other currency rows are
/// well formed, so that the reading succeeds.
pub proof fn lemma_written_rate_is_read(store: StoreView, rate: ExchangeRateView, now: Timestamp)
    requires
        store.wf(),
        store.has_asset(rate.id),
        rate.from_currency.len() == 3,
        rate.to_currency.len() == 3,
        !rate.from_currency.contains('='),
        !rate.to_currency.contains('='),
        forall|j: int|
            0 <= j < store.assets.len() && (#[trigger] store.assets[j]).id != rate.id
                && is_currency(store.assets[j]) ==> symbol_is_pair(store.assets[j].symbol),
    ensures
        all_pairs(store.with_asset_updated(asset_of(rate, now)).assets),
        rates_of(store.with_asset_updated(asset_of(rate, now)).assets).contains(rate),
{
    let asset = asset_of(rate, now);
    let after = store.with_asset_updated(asset).assets;
    lemma_rate_round_trip(rate, now);
    assert forall|j: int|
        0 <= j < after.len() && is_currency(#[trigger] after[j]) implies symbol_is_pair(
        after[j].symbol,
    ) by {
        if store.assets[j].id != rate.id {
            assert(after[j] == store.assets[j]);
        } else {
            assert(after[j] == asset);
        }
    }
    let k = choose|k: int|
        0 <= k < store.assets.len() && (#[trigger] store.assets[k]).id == rate.id;
    assert(after[k] == asset);
    lemma_rows_of_type_contains(after, CURRENCY@, k);
    let rows = currency_rows(after);
    let m = choose|m: int| 0 <= m < rows.len() && rows[m] == asset;
    assert(rates_of(after)[m] == rate_of(asset));
}

} // verus!
