//! The records the store keeps, and the mathematical value of each.

use crate::clock::Timestamp;
use vstd::prelude::*;

verus! {

/// One row of the settings table.
#[derive(Debug, PartialEq, Eq)]
pub struct Settings {
    pub id: i32,
    pub theme: String,
    pub font: String,
    pub base_currency: String,
}

/// What a [`Settings`] row holds.
#[verifier::ext_equal]
pub struct SettingsView {
    pub id: i32,
    pub theme: Seq<char>,
    pub font: Seq<char>,
    pub base_currency: Seq<char>,
}

impl View for Settings {
    type V = SettingsView;

    open spec fn view(&self) -> SettingsView {
        SettingsView {
            id: self.id,
            theme: self.theme@,
            font: self.font@,
            base_currency: self.base_currency@,
        }
    }
}

impl DeepView for Settings {
    type V = SettingsView;

    open spec fn deep_view(&self) -> SettingsView {
        self@
    }
}

impl Clone for Settings {
    fn clone(&self) -> (copy: Self)
        ensures
            copy == *self,
    {
        Settings {
            id: self.id,
            theme: self.theme.clone(),
            font: self.font.clone(),
            base_currency: self.base_currency.clone(),
        }
    }
}

/// The values of a settings row without its key: what a caller hands in to
/// have the row written.
#[derive(Debug, PartialEq, Eq)]
pub struct NewSettings {
    pub theme: String,
    pub font: String,
    pub base_currency: String,
}

/// What a [`NewSettings`] holds.
#[verifier::ext_equal]
pub struct NewSettingsView {
    pub theme: Seq<char>,
    pub font: Seq<char>,
    pub base_currency: Seq<char>,
}

impl NewSettingsView {
    /// The row that carries these values under the key `id`.
    pub open spec fn row(self, id: i32) -> SettingsView {
        SettingsView {
            id,
            theme: self.theme,
            font: self.font,
            base_currency: self.base_currency,
        }
    }
}

impl View for NewSettings {
    type V = NewSettingsView;

    open spec fn view(&self) -> NewSettingsView {
        NewSettingsView {
            theme: self.theme@,
            font: self.font@,
            base_currency: self.base_currency@,
        }
    }
}

impl Clone for NewSettings {
    fn clone(&self) -> (copy: Self)
        ensures
            copy == *self,
    {
        NewSettings {
            theme: self.theme.clone(),
            font: self.font.clone(),
            base_currency: self.base_currency.clone(),
        }
    }
}

impl NewSettings {
    /// Builds the row that carries these values under the key `id`.
    pub fn to_row(&self, id: i32) -> (row: Settings)
        ensures
            row@ == self@.row(id),
    {
        Settings {
            id,
            theme: self.theme.clone(),
            font: self.font.clone(),
            base_currency: self.base_currency.clone(),
        }
    }
}

/// One row of the asset table, as far as this library reads and writes it.
#[derive(Debug, PartialEq, Eq)]
pub struct Asset {
    pub id: String,
    pub symbol: String,
    pub name: Option<String>,
    pub asset_type: Option<String>,
    pub data_source: String,
    pub currency: String,
    pub updated_at: Timestamp,
}

/// What an [`Asset`] row holds.
#[verifier::ext_equal]
pub struct AssetView {
    pub id: Seq<char>,
    pub symbol: Seq<char>,
    pub name: Option<Seq<char>>,
    pub asset_type: Option<Seq<char>>,
    pub data_source: Seq<char>,
    pub currency: Seq<char>,
    pub updated_at: Timestamp,
}

/// What an optional text holds.
pub open spec fn text_of(text: Option<String>) -> Option<Seq<char>> {
    match text {
        Some(t) => Some(t@),
        None => None,
    }
}

impl View for Asset {
    type V = AssetView;

    open spec fn view(&self) -> AssetView {
        AssetView {
            id: self.id@,
            symbol: self.symbol@,
            name: text_of(self.name),
            asset_type: text_of(self.asset_type),
            data_source: self.data_source@,
            currency: self.currency@,
            updated_at: self.updated_at,
        }
    }
}

impl DeepView for Asset {
    type V = AssetView;

    open spec fn deep_view(&self) -> AssetView {
        self@
    }
}

/// The rows of the type `kind` among `assets`, in their order.
pub open spec fn rows_of_type(assets: Seq<AssetView>, kind: Seq<char>) -> Seq<AssetView> {
    assets.filter(|asset: AssetView| asset.asset_type == Some(kind))
}

/// What adding one row does to the rows of one type.
pub proof fn lemma_rows_of_type_push(assets: Seq<AssetView>, asset: AssetView, kind: Seq<char>)
    ensures
        rows_of_type(assets.push(asset), kind) == if asset.asset_type == Some(kind) {
            rows_of_type(assets, kind).push(asset)
        } else {
            rows_of_type(assets, kind)
        },
{
    reveal(Seq::filter);
    assert(assets.push(asset).drop_last() =~= assets);
}

/// A row of the type `kind` among `assets` is among the rows of that type.
pub proof fn lemma_rows_of_type_contains(assets: Seq<AssetView>, kind: Seq<char>, k: int)
    requires
        0 <= k < assets.len(),
        assets[k].asset_type == Some(kind),
    ensures
        rows_of_type(assets, kind).contains(assets[k]),
{
    assets.lemma_filter_contains(|asset: AssetView| asset.asset_type == Some(kind), k);
}

/// Copies an optional text.
fn clone_text(text: &Option<String>) -> (copy: Option<String>)
    ensures
        copy == *text,
{
    match text {
        Some(t) => Some(t.clone()),
        None => None,
    }
}

impl Clone for Asset {
    fn clone(&self) -> (copy: Self)
        ensures
            copy == *self,
    {
        Asset {
            id: self.id.clone(),
            symbol: self.symbol.clone(),
            name: clone_text(&self.name),
            asset_type: clone_text(&self.asset_type),
            data_source: self.data_source.clone(),
            currency: self.currency.clone(),
            updated_at: self.updated_at,
        }
    }
}

/// An exchange rate between two currencies: the reading of one currency row
/// of the asset table. The rate is kept as the decimal text that the row
/// carries.
#[derive(Debug, PartialEq, Eq)]
pub struct ExchangeRate {
    pub id: String,
    pub from_currency: String,
    pub to_currency: String,
    pub rate: String,
    pub source: String,
}

/// What an [`ExchangeRate`] holds.
#[verifier::ext_equal]
pub struct ExchangeRateView {
    pub id: Seq<char>,
    pub from_currency: Seq<char>,
    pub to_currency: Seq<char>,
    pub rate: Seq<char>,
    pub source: Seq<char>,
}

impl View for ExchangeRate {
    type V = ExchangeRateView;

    open spec fn view(&self) -> ExchangeRateView {
        ExchangeRateView {
            id: self.id@,
            from_currency: self.from_currency@,
            to_currency: self.to_currency@,
            rate: self.rate@,
            source: self.source@,
        }
    }
}

impl DeepView for ExchangeRate {
    type V = ExchangeRateView;

    open spec fn deep_view(&self) -> ExchangeRateView {
        self@
    }
}

impl Clone for ExchangeRate {
    fn clone(&self) -> (copy: Self)
        ensures
            copy == *self,
    {
        ExchangeRate {
            id: self.id.clone(),
            from_currency: self.from_currency.clone(),
            to_currency: self.to_currency.clone(),
            rate: self.rate.clone(),
            source: self.source.clone(),
        }
    }
}

} // verus!
