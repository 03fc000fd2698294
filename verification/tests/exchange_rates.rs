use settings_store::clock::Timestamp;
use settings_store::codec::{
    asset_for, decode_symbol, encode_symbol, exchange_rate_of, exchange_rates_of,
    is_currency_row, CURRENCY,
};
use settings_store::error::StoreError;
use settings_store::model::{Asset, ExchangeRate};
use settings_store::settings_service::SettingsService;
use settings_store::store::Store;

const EPOCH: Timestamp = Timestamp { secs: 0, nanos: 0 };

fn asset(id: &str, symbol: &str, name: Option<&str>, asset_type: Option<&str>) -> Asset {
    Asset {
        id: id.to_string(),
        symbol: symbol.to_string(),
        name: name.map(|text| text.to_string()),
        asset_type: asset_type.map(|text| text.to_string()),
        data_source: "MANUAL".to_string(),
        currency: "USD".to_string(),
        updated_at: EPOCH,
    }
}

fn rate(id: &str, from: &str, to: &str, rate: &str, source: &str) -> ExchangeRate {
    ExchangeRate {
        id: id.to_string(),
        from_currency: from.to_string(),
        to_currency: to.to_string(),
        rate: rate.to_string(),
        source: source.to_string(),
    }
}

fn pair(from: &str, to: &str) -> Result<(String, String), StoreError> {
    Ok((from.to_string(), to.to_string()))
}

#[test]
fn currency_type_name() {
    assert_eq!(CURRENCY, "Currency");
}

#[test]
fn decode_symbol_reads_both_codes() {
    assert_eq!(decode_symbol("EURUSD=X"), pair("EUR", "USD"));
    assert_eq!(decode_symbol("USDJPY=X"), pair("USD", "JPY"));
}

#[test]
fn decode_symbol_takes_the_rest_before_the_equals_sign_as_target() {
    assert_eq!(decode_symbol("BTCUSDT=X"), pair("BTC", "USDT"));
    assert_eq!(decode_symbol("ABC=WXYZ"), pair("ABC", ""));
    assert_eq!(decode_symbol("ABCD==="), pair("ABC", "D"));
    assert_eq!(decode_symbol("EURUSD=X=Y"), pair("EUR", "USD"));
}

#[test]
fn decode_symbol_without_equals_sign_takes_everything() {
    assert_eq!(decode_symbol("ABCDEFG"), pair("ABC", "DEFG"));
}

#[test]
fn decode_symbol_of_seven_characters_is_accepted() {
    assert_eq!(decode_symbol("EURUSD="), pair("EUR", "USD"));
}

#[test]
fn decode_symbol_shorter_than_seven_is_malformed() {
    assert_eq!(decode_symbol(""), Err(StoreError::MalformedEncoding));
    assert_eq!(decode_symbol("X=X"), Err(StoreError::MalformedEncoding));
    assert_eq!(decode_symbol("ABCD=X"), Err(StoreError::MalformedEncoding));
    assert_eq!(decode_symbol("EURUSD"), Err(StoreError::MalformedEncoding));
}

#[test]
fn decode_symbol_with_short_source_code_is_malformed() {
    assert_eq!(decode_symbol("AB=CDEFGH"), Err(StoreError::MalformedEncoding));
    assert_eq!(decode_symbol("=EURUSD=X"), Err(StoreError::MalformedEncoding));
}

#[test]
fn decode_symbol_counts_characters() {
    assert_eq!(decode_symbol("ÄÖÜxyz=X"), pair("ÄÖÜ", "xyz"));
    assert_eq!(decode_symbol("€€€€=X"), Err(StoreError::MalformedEncoding));
    assert_eq!(decode_symbol("€€€€€=X"), pair("€€€", "€€"));
}

#[test]
fn encode_symbol_appends_the_suffix() {
    assert_eq!(encode_symbol("EUR", "USD"), "EURUSD=X");
    assert_eq!(encode_symbol("", ""), "=X");
    assert_eq!(encode_symbol("BTC", "USDT"), "BTCUSDT=X");
}

#[test]
fn encode_then_decode_gives_the_codes_back() {
    let symbol = encode_symbol("GBP", "CHF");
    assert_eq!(decode_symbol(&symbol), pair("GBP", "CHF"));
}

#[test]
fn is_currency_row_looks_at_the_type_only() {
    assert!(is_currency_row(&asset("1", "EURUSD=X", None, Some("Currency"))));
    assert!(is_currency_row(&asset("1", "junk", None, Some("Currency"))));
    assert!(!is_currency_row(&asset("1", "EURUSD=X", None, Some("currency"))));
    assert!(!is_currency_row(&asset("1", "EURUSD=X", None, Some("Stock"))));
    assert!(!is_currency_row(&asset("1", "EURUSD=X", None, None)));
}

#[test]
fn exchange_rate_of_reads_a_row() {
    let mut row = asset("EURUSD=X", "EURUSD=X", Some("1.0842"), Some("Currency"));
    row.data_source = "YAHOO".to_string();
    assert_eq!(
        exchange_rate_of(&row),
        Ok(rate("EURUSD=X", "EUR", "USD", "1.0842", "YAHOO"))
    );
}

#[test]
fn exchange_rate_of_keeps_the_name_as_it_stands() {
    let row = asset("r", "EURUSD=X", Some("not a number"), Some("Currency"));
    assert_eq!(exchange_rate_of(&row), Ok(rate("r", "EUR", "USD", "not a number", "MANUAL")));
}

#[test]
fn exchange_rate_of_row_without_name_has_empty_rate() {
    let row = asset("r", "EURUSD=X", None, Some("Currency"));
    assert_eq!(exchange_rate_of(&row), Ok(rate("r", "EUR", "USD", "", "MANUAL")));
}

#[test]
fn exchange_rate_of_malformed_symbol() {
    let row = asset("r", "X=X", Some("1.0"), Some("Currency"));
    assert_eq!(exchange_rate_of(&row), Err(StoreError::MalformedEncoding));
}

#[test]
fn exchange_rates_of_passes_over_other_types() {
    let rows = vec![
        asset("a", "AAPL", Some("Apple"), Some("Stock")),
        asset("b", "EURUSD=X", Some("1.1"), Some("Currency")),
        asset("c", "X", None, None),
        asset("d", "USDJPY=X", Some("150"), Some("Currency")),
    ];
    assert_eq!(
        exchange_rates_of(&rows),
        Ok(vec![
            rate("b", "EUR", "USD", "1.1", "MANUAL"),
            rate("d", "USD", "JPY", "150", "MANUAL"),
        ])
    );
}

#[test]
fn exchange_rates_of_nothing_is_nothing() {
    assert_eq!(exchange_rates_of(&Vec::new()), Ok(Vec::new()));
}

#[test]
fn exchange_rates_of_fails_on_one_malformed_currency_row() {
    let rows = vec![
        asset("b", "EURUSD=X", Some("1.1"), Some("Currency")),
        asset("x", "X=X", Some("1.0"), Some("Currency")),
    ];
    assert_eq!(exchange_rates_of(&rows), Err(StoreError::MalformedEncoding));
}

#[test]
fn exchange_rates_of_does_not_mind_malformed_rows_of_other_types() {
    let rows = vec![
        asset("x", "X=X", Some("1.0"), Some("Stock")),
        asset("b", "EURUSD=X", Some("1.1"), Some("Currency")),
    ];
    assert_eq!(exchange_rates_of(&rows), Ok(vec![rate("b", "EUR", "USD", "1.1", "MANUAL")]));
}

#[test]
fn asset_for_builds_the_currency_row() {
    let now = Timestamp { secs: 1_700_000_000, nanos: 250 };
    assert_eq!(
        asset_for(&rate("EURUSD=X", "EUR", "USD", "1.0842", "YAHOO"), now),
        Asset {
            id: "EURUSD=X".to_string(),
            symbol: "EURUSD=X".to_string(),
            name: Some("1.0842".to_string()),
            asset_type: Some("Currency".to_string()),
            data_source: "YAHOO".to_string(),
            currency: "USD".to_string(),
            updated_at: now,
        }
    );
}

#[test]
fn get_exchange_rates_never_reads_other_types() {
    let service = SettingsService::new();
    let mut store = Store::new();
    assert_eq!(store.insert_asset(asset("a", "AAPLUS=X", Some("2"), Some("Stock"))), Ok(()));
    assert_eq!(store.insert_asset(asset("b", "EURUSD=X", Some("1.1"), Some("Currency"))), Ok(()));
    assert_eq!(store.insert_asset(asset("c", "GBPUSD=X", Some("3"), None)), Ok(()));
    assert_eq!(
        service.get_exchange_rates(&store),
        Ok(vec![rate("b", "EUR", "USD", "1.1", "MANUAL")])
    );
}

#[test]
fn get_exchange_rates_on_empty_table() {
    let service = SettingsService::new();
    let store = Store::new();
    assert_eq!(service.get_exchange_rates(&store), Ok(Vec::new()));
}

#[test]
fn get_exchange_rates_keeps_table_order() {
    let service = SettingsService::new();
    let mut store = Store::new();
    assert_eq!(store.insert_asset(asset("z", "USDJPY=X", Some("150"), Some("Currency"))), Ok(()));
    assert_eq!(store.insert_asset(asset("a", "EURUSD=X", Some("1.1"), Some("Currency"))), Ok(()));
    assert_eq!(
        service.get_exchange_rates(&store),
        Ok(vec![
            rate("z", "USD", "JPY", "150", "MANUAL"),
            rate("a", "EUR", "USD", "1.1", "MANUAL"),
        ])
    );
}

#[test]
fn get_exchange_rates_short_symbol_is_reported() {
    let service = SettingsService::new();
    let mut store = Store::new();
    assert_eq!(store.insert_asset(asset("x", "X=X", None, Some("Currency"))), Ok(()));
    assert_eq!(service.get_exchange_rates(&store), Err(StoreError::MalformedEncoding));
}

#[test]
fn update_exchange_rate_at_rewrites_the_row() {
    let service = SettingsService::new();
    let mut store = Store::new();
    assert_eq!(store.insert_asset(asset("a", "AAPL", None, Some("Stock"))), Ok(()));
    assert_eq!(store.insert_asset(asset("r", "X=X", None, None)), Ok(()));
    let now = Timestamp { secs: 1_700_000_000, nanos: 7 };
    let written = rate("r", "EUR", "USD", "1.0842", "YAHOO");
    assert_eq!(service.update_exchange_rate_at(&mut store, &written, now), Ok(written.clone()));
    assert_eq!(
        store.assets(),
        &vec![
            asset("a", "AAPL", None, Some("Stock")),
            Asset {
                id: "r".to_string(),
                symbol: "EURUSD=X".to_string(),
                name: Some("1.0842".to_string()),
                asset_type: Some("Currency".to_string()),
                data_source: "YAHOO".to_string(),
                currency: "USD".to_string(),
                updated_at: now,
            },
        ]
    );
}

#[test]
fn update_exchange_rate_then_read_gives_the_rate_back() {
    let service = SettingsService::new();
    let mut store = Store::new();
    assert_eq!(store.insert_asset(asset("r", "GBPCHF=X", Some("1.1"), Some("Currency"))), Ok(()));
    let written = rate("r", "EUR", "USD", "0.5", "MANUAL");
    assert_eq!(service.update_exchange_rate(&mut store, &written), Ok(written.clone()));
    assert_eq!(service.get_exchange_rates(&store), Ok(vec![written]));
}

#[test]
fn update_exchange_rate_stamps_the_current_time() {
    let service = SettingsService::new();
    let mut store = Store::new();
    assert_eq!(store.insert_asset(asset("r", "GBPCHF=X", Some("1.1"), Some("Currency"))), Ok(()));
    assert_eq!(store.assets()[0].updated_at, EPOCH);
    let written = rate("r", "EUR", "USD", "0.5", "MANUAL");
    assert_eq!(service.update_exchange_rate(&mut store, &written), Ok(written.clone()));
    let stamped = store.assets()[0].updated_at;
    assert!(stamped.secs > 1_600_000_000);
    assert!(stamped.nanos < 2_000_000_000);
    assert_eq!(store.assets()[0], asset_for(&written, stamped));
}

#[test]
fn update_exchange_rate_without_a_row_changes_nothing() {
    let service = SettingsService::new();
    let mut store = Store::new();
    assert_eq!(store.insert_asset(asset("a", "EURUSD=X", Some("1.1"), Some("Currency"))), Ok(()));
    let written = rate("missing", "GBP", "USD", "1.3", "MANUAL");
    assert_eq!(service.update_exchange_rate(&mut store, &written), Ok(written.clone()));
    assert_eq!(store.assets(), &vec![asset("a", "EURUSD=X", Some("1.1"), Some("Currency"))]);
    assert_eq!(
        service.update_exchange_rate_at(&mut store, &written, EPOCH),
        Ok(written.clone())
    );
    assert_eq!(store.assets(), &vec![asset("a", "EURUSD=X", Some("1.1"), Some("Currency"))]);
}

#[test]
fn store_refuses_a_second_asset_under_one_key() {
    let mut store = Store::new();
    assert_eq!(store.insert_asset(asset("a", "EURUSD=X", None, Some("Currency"))), Ok(()));
    assert_eq!(
        store.insert_asset(asset("a", "GBPUSD=X", None, Some("Currency"))),
        Err(StoreError::StorageError)
    );
    assert_eq!(store.assets(), &vec![asset("a", "EURUSD=X", None, Some("Currency"))]);
}

#[test]
fn store_assets_of_type_selects_by_type() {
    let mut store = Store::new();
    assert_eq!(store.insert_asset(asset("a", "AAPL", None, Some("Stock"))), Ok(()));
    assert_eq!(store.insert_asset(asset("b", "EURUSD=X", None, Some("Currency"))), Ok(()));
    assert_eq!(store.insert_asset(asset("c", "C", None, None)), Ok(()));
    assert_eq!(store.assets_of_type("Stock"), vec![asset("a", "AAPL", None, Some("Stock"))]);
    assert_eq!(
        store.assets_of_type("Currency"),
        vec![asset("b", "EURUSD=X", None, Some("Currency"))]
    );
    assert_eq!(store.assets_of_type("Bond"), Vec::new());
}

#[test]
fn store_update_asset_counts_the_rows_it_changed() {
    let mut store = Store::new();
    assert_eq!(store.update_asset(&asset("a", "AAPL", None, Some("Stock"))), 0);
    assert!(store.assets().is_empty());
    assert_eq!(store.insert_asset(asset("a", "AAPL", None, Some("Stock"))), Ok(()));
    assert_eq!(store.update_asset(&asset("a", "MSFT", Some("m"), None)), 1);
    assert_eq!(store.assets(), &vec![asset("a", "MSFT", Some("m"), None)]);
}

#[test]
fn written_rates_are_read_back_among_other_rows() {
    let service = SettingsService::new();
    let mut store = Store::new();
    assert_eq!(store.insert_asset(asset("a", "AAPL", Some("Apple"), Some("Stock"))), Ok(()));
    assert_eq!(store.insert_asset(asset("r1", "GBPCHF=X", Some("1.1"), Some("Currency"))), Ok(()));
    assert_eq!(store.insert_asset(asset("r2", "USDJPY=X", Some("150"), Some("Currency"))), Ok(()));
    let first = rate("r1", "EUR", "USD", "1.0842", "YAHOO");
    let second = rate("r2", "CHF", "SEK", "11.9", "MANUAL");
    assert_eq!(service.update_exchange_rate(&mut store, &first), Ok(first.clone()));
    assert_eq!(service.update_exchange_rate(&mut store, &second), Ok(second.clone()));
    assert_eq!(service.get_exchange_rates(&store), Ok(vec![first, second]));
    assert_eq!(store.assets()[0], asset("a", "AAPL", Some("Apple"), Some("Stock")));
}

#[test]
fn update_exchange_rate_turns_any_row_into_a_currency_row() {
    let service = SettingsService::new();
    let mut store = Store::new();
    assert_eq!(store.insert_asset(asset("a", "AAPL", Some("Apple"), Some("Stock"))), Ok(()));
    let written = rate("a", "EUR", "USD", "2", "MANUAL");
    assert_eq!(service.update_exchange_rate_at(&mut store, &written, EPOCH), Ok(written.clone()));
    assert_eq!(service.get_exchange_rates(&store), Ok(vec![written]));
}
