//! The persisted state: a table of settings rows and a table of asset rows,
//! each keyed by its `id`, with the single statements that read and change
//! them.

use crate::error::StoreError;
use crate::model::{
    lemma_rows_of_type_push, rows_of_type, Asset, AssetView, NewSettings, NewSettingsView,
    Settings, SettingsView,
};
use vstd::prelude::*;
use vstd::string::*;

verus! {

/// What a [`Store`] holds: the rows of its two tables, in table order.
#[verifier::ext_equal]
pub struct StoreView {
    pub settings: Seq<SettingsView>,
    pub assets: Seq<AssetView>,
}

/// The rows under the key `id` among `rows`, in their order.
pub open spec fn rows_under(rows: Seq<SettingsView>, id: i32) -> Seq<SettingsView> {
    rows.filter(|row: SettingsView| row.id == id)
}

impl StoreView {
    /// No key occurs twice in a table.
    pub open spec fn wf(self) -> bool {
        &&& forall|i: int, j: int|
            0 <= i < j < self.settings.len() ==> self.settings[i].id != self.settings[j].id
        &&& forall|i: int, j: int|
            0 <= i < j < self.assets.len() ==> self.assets[i].id != self.assets[j].id
    }

    /// Whether the settings table holds a row under the key `id`.
    pub open spec fn has_settings(self, id: i32) -> bool {
        exists|i: int| 0 <= i < self.settings.len() && (#[trigger] self.settings[i]).id == id
    }

    /// The settings row under the key `id`, if there is one.
    pub open spec fn find_settings(self, id: i32) -> Option<SettingsView> {
        if self.has_settings(id) {
            Some(
                self.settings[choose|i: int|
                    0 <= i < self.settings.len() && (#[trigger] self.settings[i]).id == id],
            )
        } else {
            None
        }
    }

    /// The number of settings rows under the key `id`.
    pub open spec fn count_settings(self, id: i32) -> nat {
        rows_under(self.settings, id).len()
    }

    /// The state after every settings row under the key `id` has taken the
    /// values `new`.
    pub open spec fn with_settings_updated(self, id: i32, new: NewSettingsView) -> StoreView {
        StoreView {
            settings: self.settings.map_values(
                |row: SettingsView|
                    if row.id == id {
                        new.row(id)
                    } else {
                        row
                    },
            ),
            assets: self.assets,
        }
    }

    /// The state after a settings row with the key `id` and the values `new`
    /// has been added.
    pub open spec fn with_settings_inserted(self, id: i32, new: NewSettingsView) -> StoreView {
        StoreView { settings: self.settings.push(new.row(id)), assets: self.assets }
    }

    /// The state after the values `new` have been written under the key
    /// `id`: into the row that is there, or else as a new row.
    pub open spec fn with_settings_upserted(self, id: i32, new: NewSettingsView) -> StoreView {
        if self.has_settings(id) {
            self.with_settings_updated(id, new)
        } else {
            self.with_settings_inserted(id, new)
        }
    }

    /// The state after every settings row under the key `id` has taken the
    /// base currency `code`. Nothing else of any row changes.
    pub open spec fn with_base_currency(self, id: i32, code: Seq<char>) -> StoreView {
        StoreView {
            settings: self.settings.map_values(
                |row: SettingsView|
                    if row.id == id {
                        SettingsView { base_currency: code, ..row }
                    } else {
                        row
                    },
            ),
            assets: self.assets,
        }
    }

    /// Whether the asset table holds a row under the key `id`.
    pub open spec fn has_asset(self, id: Seq<char>) -> bool {
        exists|i: int| 0 <= i < self.assets.len() && (#[trigger] self.assets[i]).id == id
    }

    /// The state after every asset row under the key of `asset` has been
    /// replaced by `asset`.
    pub open spec fn with_asset_updated(self, asset: AssetView) -> StoreView {
        StoreView {
            settings: self.settings,
            assets: self.assets.map_values(
                |row: AssetView|
                    if row.id == asset.id {
                        asset
                    } else {
                        row
                    },
            ),
        }
    }

    /// The state after `asset` has been added to the asset table.
    pub open spec fn with_asset_inserted(self, asset: AssetView) -> StoreView {
        StoreView { settings: self.settings, assets: self.assets.push(asset) }
    }
}

/// The two tables. No key occurs twice in a table (`self@.wf()`): a new
/// store is so, and every statement keeps it so.
#[derive(Debug)]
pub struct Store {
    settings: Vec<Settings>,
    assets: Vec<Asset>,
}

impl View for Store {
    type V = StoreView;

    closed spec fn view(&self) -> StoreView {
        StoreView { settings: self.settings.deep_view(), assets: self.assets.deep_view() }
    }
}

impl Store {
    /// A store with two empty tables.
    pub fn new() -> (store: Store)
        ensures
            store@.settings.len() == 0,
            store@.assets.len() == 0,
            store@.wf(),
    {
        Store { settings: Vec::new(), assets: Vec::new() }
    }

    /// The rows of the settings table, in table order.
    pub fn settings(&self) -> (rows: &Vec<Settings>)
        ensures
            rows.deep_view() == self@.settings,
    {
        &self.settings
    }

    /// The rows of the asset table, in table order.
    pub fn assets(&self) -> (rows: &Vec<Asset>)
        ensures
            rows.deep_view() == self@.assets,
    {
        &self.assets
    }

    /// Where the settings row under the key `id` stands.
    fn settings_position(&self, id: i32) -> (at: Option<usize>)
        ensures
            match at {
                Some(i) => i < self@.settings.len() && self@.settings[i as int].id == id,
                None => !self@.has_settings(id),
            },
    {
        let mut i: usize = 0;
        while i < self.settings.len()
            invariant
                i <= self.settings.len(),
                forall|j: int| 0 <= j < i ==> (#[trigger] self@.settings[j]).id != id,
            decreases self.settings.len() - i,
        {
            if self.settings[i].id == id {
                return Some(i);
            }
            i = i + 1;
        }
        None
    }

    /// Reads the settings row under the key `id`.
    pub fn find_settings(&self, id: i32) -> (found: Option<Settings>)
        requires
            self@.wf(),
        ensures
            match found {
                Some(row) => self@.find_settings(id) == Some(row@),
                None => self@.find_settings(id) is None,
            },
    {
        match self.settings_position(id) {
            Some(i) => {
                let row = self.settings[i].clone();
                Some(row)
            },
            None => None,
        }
    }

    /// Gives the settings row under the key `id` the values `new` and
    /// returns the number of rows that were changed: one, or none where no
    /// such row exists.
    pub fn update_settings(&mut self, id: i32, new: &NewSettings) -> (changed: usize)
        requires
            old(self)@.wf(),
        ensures
            final(self)@ == old(self)@.with_settings_updated(id, new@),
            changed == (if old(self)@.has_settings(id) { 1usize } else { 0usize }),
            final(self)@.wf(),
    {
        match self.settings_position(id) {
            Some(i) => {
                self.settings.set(i, new.to_row(id));
                assert(self@ =~= old(self)@.with_settings_updated(id, new@));
                1
            },
            None => 0,
        }
    }

    /// Adds a settings row with the key `id` and the values `new`. A key
    /// that the table holds already is refused with `StorageError`, and the
    /// store stays as it was.
    pub fn insert_settings(&mut self, id: i32, new: &NewSettings) -> (res: Result<
        (),
        StoreError,
    >)
        requires
            old(self)@.wf(),
        ensures
            final(self)@.wf(),
            match res {
                Ok(_) => {
                    &&& !old(self)@.has_settings(id)
                    &&& final(self)@ == old(self)@.with_settings_inserted(id, new@)
                },
                Err(e) => {
                    &&& e == StoreError::StorageError
                    &&& old(self)@.has_settings(id)
                    &&& final(self)@ == old(self)@
                },
            },
    {
        match self.settings_position(id) {
            Some(_) => Err(StoreError::StorageError),
            None => {
                self.settings.push(new.to_row(id));
                assert(self@ =~= old(self)@.with_settings_inserted(id, new@));
                Ok(())
            },
        }
    }

    /// Gives the settings row under the key `id` the base currency `code`
    /// and returns the number of rows that were changed: one, or none where
    /// no such row exists.
    pub fn update_base_currency(&mut self, id: i32, code: &str) -> (changed: usize)
        requires
            old(self)@.wf(),
        ensures
            final(self)@ == old(self)@.with_base_currency(id, code@),
            changed == (if old(self)@.has_settings(id) { 1usize } else { 0usize }),
            final(self)@.wf(),
    {
        match self.settings_position(id) {
            Some(i) => {
                let row = Settings {
                    id: self.settings[i].id,
                    theme: self.settings[i].theme.clone(),
                    font: self.settings[i].font.clone(),
                    base_currency: code.to_owned(),
                };
                self.settings.set(i, row);
                1
            },
            None => 0,
        }
    }

    /// Where the asset row under the key `id` stands.
    fn asset_position(&self, id: &String) -> (at: Option<usize>)
        ensures
            match at {
                Some(i) => i < self@.assets.len() && self@.assets[i as int].id == id@,
                None => !self@.has_asset(id@),
            },
    {
        let mut i: usize = 0;
        while i < self.assets.len()
            invariant
                i <= self.assets.len(),
                forall|j: int| 0 <= j < i ==> (#[trigger] self@.assets[j]).id != id@,
            decreases self.assets.len() - i,
        {
            if self.assets[i].id == *id {
                return Some(i);
            }
            i = i + 1;
        }
        None
    }

    /// Reads the asset rows of the type `kind`, in table order.
    pub fn assets_of_type(&self, kind: &str) -> (rows: Vec<Asset>)
        ensures
            rows.deep_view() == rows_of_type(self@.assets, kind@),
    {
        let wanted = kind.to_owned();
        let mut rows: Vec<Asset> = Vec::new();
        let mut i: usize = 0;
        proof {
            reveal(Seq::filter);
        }
        while i < self.assets.len()
            invariant
                i <= self.assets.len(),
                wanted@ == kind@,
                rows.deep_view() == rows_of_type(self@.assets.take(i as int), kind@),
            decreases self.assets.len() - i,
        {
            let asset = &self.assets[i];
            let matches = match &asset.asset_type {
                Some(t) => *t == wanted,
                None => false,
            };
            proof {
                assert(self@.assets.take(i + 1) =~= self@.assets.take(i as int).push(asset@));
                lemma_rows_of_type_push(self@.assets.take(i as int), asset@, kind@);
            }
            if matches {
                rows.push(asset.clone());
            }
            i = i + 1;
        }
        assert(self@.assets.take(i as int) =~= self@.assets);
        rows
    }

    /// Replaces the asset row under the key of `asset` by `asset` and
    /// returns the number of rows that were changed: one, or none where no
    /// such row exists.
    pub fn update_asset(&mut self, asset: &Asset) -> (changed: usize)
        requires
            old(self)@.wf(),
        ensures
            final(self)@ == old(self)@.with_asset_updated(asset@),
            changed == (if old(self)@.has_asset(asset@.id) { 1usize } else { 0usize }),
            final(self)@.wf(),
    {
        match self.asset_position(&asset.id) {
            Some(i) => {
                self.assets.set(i, asset.clone());
                1
            },
            None => 0,
        }
    }

    /// Adds `asset` to the asset table. A key that the table holds already
    /// is refused with `StorageError`, and the store stays as it was.
    pub fn insert_asset(&mut self, asset: Asset) -> (res: Result<(), StoreError>)
        requires
            old(self)@.wf(),
        ensures
            final(self)@.wf(),
            match res {
                Ok(_) => {
                    &&& !old(self)@.has_asset(asset@.id)
                    &&& final(self)@ == old(self)@.with_asset_inserted(asset@)
                },
                Err(e) => {
                    &&& e == StoreError::StorageError
                    &&& old(self)@.has_asset(asset@.id)
                    &&& final(self)@ == old(self)@
                },
            },
    {
        match self.asset_position(&asset.id) {
            Some(_) => Err(StoreError::StorageError),
            None => {
                self.assets.push(asset);
                assert(self@ =~= old(self)@.with_asset_inserted(asset@));
                Ok(())
            },
        }
    }
}

} // verus!
