//! The operations on the settings record and on the exchange rates.

use crate::clock::{utc_now, Timestamp};
use crate::codec::{
    all_pairs, asset_for, asset_of, exchange_rates_of, is_reading_of,
    lemma_rates_are_currency_rows, lemma_rates_of_currency_rows, rates_of, CURRENCY,
};
use crate::error::StoreError;
use crate::model::{ExchangeRate, NewSettings, Settings};
use crate::store::Store;
use vstd::prelude::*;

verus! {

/// The key of the one settings row.
pub const SETTINGS_ID: i32 = 1;

/// Reads and writes the settings record, a single row under a fixed key, and
/// the exchange rates, which are the currency rows of the asset table.
pub struct SettingsService {
    settings_id: i32,
}

impl SettingsService {
    /// The key under which this service keeps the settings row.
    pub closed spec fn settings_id(&self) -> i32 {
        self.settings_id
    }

    /// A service that keeps the settings row under the key 1.
    pub fn new() -> (service: Self)
        ensures
            service.settings_id() == SETTINGS_ID,
    {
        SettingsService { settings_id: SETTINGS_ID }
    }

    /// Whether a write of the settings row that changed `changed` rows has
    /// to be followed by an insert: it has to when it changed none.
    pub fn insert_is_due(changed: usize) -> (due: bool)
        ensures
            due == (changed == 0),
    {
        changed == 0
    }

    /// What a lookup of the settings row amounts to: the row that was
    /// found, or `NotFound` where none was. No default is made up.
    pub fn row_or_not_found(found: Option<Settings>) -> (res: Result<Settings, StoreError>)
        ensures
            res == match found {
                Some(row) => Ok::<Settings, StoreError>(row),
                None => Err::<Settings, StoreError>(StoreError::NotFound),
            },
    {
        match found {
            Some(row) => Ok(row),
            None => Err(StoreError::NotFound),
        }
    }

    /// Reads the settings row. Where there is none, the answer is
    /// `NotFound`: no default is made up.
    pub fn get_settings(&self, store: &Store) -> (res: Result<Settings, StoreError>)
        requires
            store@.wf(),
        ensures
            match res {
                Ok(row) => store@.find_settings(self.settings_id()) == Some(row@),
                Err(e) => e == StoreError::NotFound && !store@.has_settings(self.settings_id()),
            },
    {
        Self::row_or_not_found(store.find_settings(self.settings_id))
    }

    /// Writes the settings row: the row that is there takes the values
    /// `new_setting`; where there is none, one is added with these values
    /// under the service's key. It always succeeds.
    pub fn update_settings(&self, store: &mut Store, new_setting: &NewSettings) -> (res: Result<
        (),
        StoreError,
    >)
        requires
            old(store)@.wf(),
        ensures
            res is Ok,
            final(store)@ == old(store)@.with_settings_upserted(self.settings_id(), new_setting@),
            final(store)@.wf(),
    {
        let changed = store.update_settings(self.settings_id, new_setting);
        if Self::insert_is_due(changed) {
            match store.insert_settings(self.settings_id, new_setting) {
                Ok(_) => Ok(()),
                Err(e) => Err(e),
            }
        } else {
            Ok(())
        }
    }

    /// Sets the base currency of the settings row and leaves everything
    /// else as it was: the row's other fields, every other row, the asset
    /// table. The code is taken as it is. Where there is no settings row
    /// nothing changes, and that is no failure: it always succeeds.
    pub fn update_base_currency(&self, store: &mut Store, new_base_currency: &str) -> (res:
        Result<(), StoreError>)
        requires
            old(store)@.wf(),
        ensures
            res is Ok,
            final(store)@ == old(store)@.with_base_currency(
                self.settings_id(),
                new_base_currency@,
            ),
            final(store)@.wf(),
            final(store)@.assets == old(store)@.assets,
            final(store)@.settings.len() == old(store)@.settings.len(),
            forall|i: int|
                0 <= i < old(store)@.settings.len() ==> {
                    let before = old(store)@.settings[i];
                    let after = #[trigger] final(store)@.settings[i];
                    &&& after.id == before.id
                    &&& after.theme == before.theme
                    &&& after.font == before.font
                    &&& after.base_currency == if before.id == self.settings_id() {
                        new_base_currency@
                    } else {
                        before.base_currency
                    }
                },
    {
        let _ = store.update_base_currency(self.settings_id, new_base_currency);
        Ok(())
    }

    /// Reads the exchange rates: one for each currency row of the asset
    /// table, in table order, and none for any other row. One currency row
    /// whose symbol encodes no currency pair fails the whole reading with
    /// `MalformedEncoding`.
    pub fn get_exchange_rates(&self, store: &Store) -> (res: Result<
        Vec<ExchangeRate>,
        StoreError,
    >)
        ensures
            match res {
                Ok(rates) => {
                    &&& all_pairs(store@.assets)
                    &&& rates.deep_view() == rates_of(store@.assets)
                    &&& forall|i: int|
                        0 <= i < rates.len() ==> is_reading_of(
                            store@.assets,
                            #[trigger] rates.deep_view()[i],
                        )
                },
                Err(e) => e == StoreError::MalformedEncoding && !all_pairs(store@.assets),
            },
    {
        let rows = store.assets_of_type(CURRENCY);
        let res = exchange_rates_of(&rows);
        proof {
            lemma_rates_of_currency_rows(store@.assets);
            assert forall|i: int| 0 <= i < rates_of(store@.assets).len() implies is_reading_of(
                store@.assets,
                #[trigger] rates_of(store@.assets)[i],
            ) by {
                lemma_rates_are_currency_rows(store@.assets, i);
            }
        }
        res
    }

    /// Writes `rate` into the asset row under its key, stamped with the
    /// time `now`, and returns the rate as it was given. Where there is no
    /// such row nothing changes, and that is no failure: it always succeeds.
    pub fn update_exchange_rate_at(
        &self,
        store: &mut Store,
        rate: &ExchangeRate,
        now: Timestamp,
    ) -> (res: Result<ExchangeRate, StoreError>)
        requires
            old(store)@.wf(),
        ensures
            res matches Ok(written) && written@ == rate@,
            final(store)@ == old(store)@.with_asset_updated(asset_of(rate@, now)),
            final(store)@.wf(),
    {
        let asset = asset_for(rate, now);
        let _ = store.update_asset(&asset);
        Ok(rate.clone())
    }

    /// Writes `rate` into the asset row under its key, stamped with the
    /// current time, and returns the rate as it was given. Where there is
    /// no such row nothing changes, and that is no failure: it always
    /// succeeds.
    pub fn update_exchange_rate(&self, store: &mut Store, rate: &ExchangeRate) -> (res: Result<
        ExchangeRate,
        StoreError,
    >)
        requires
            old(store)@.wf(),
        ensures
            res matches Ok(written) && written@ == rate@,
            exists|now: Timestamp|
                final(store)@ == old(store)@.with_asset_updated(#[trigger] asset_of(rate@, now)),
            final(store)@.wf(),
    {
        let now = utc_now();
        self.update_exchange_rate_at(store, rate, now)
    }
}

} // verus!
