use binary_options_tools_js::payout::{AssetQuery, Payout, PayoutTable, ASSET_NOT_FOUND};

fn table() -> PayoutTable {
    PayoutTable::new(vec![
        ("EUR/USD".to_string(), 85),
        ("GBP/USD".to_string(), 82),
        ("USD/JPY".to_string(), 0),
    ])
}

#[test]
fn payout_without_a_query_is_the_whole_table() {
    assert_eq!(
        table().payout(None),
        Ok(Payout::Table(vec![
            ("EUR/USD".to_string(), 85),
            ("GBP/USD".to_string(), 82),
            ("USD/JPY".to_string(), 0),
        ]))
    );
}

#[test]
fn payout_of_one_asset() {
    assert_eq!(table().payout(Some(AssetQuery::One("EUR/USD".to_string()))), Ok(Payout::Rate(85)));
    assert_eq!(table().payout(Some(AssetQuery::One("USD/JPY".to_string()))), Ok(Payout::Rate(0)));
}

#[test]
fn payout_of_an_unknown_asset_fails() {
    assert_eq!(
        table().payout(Some(AssetQuery::One("BTC/USD".to_string()))),
        Err("Asset not found".to_string())
    );
    assert_eq!(ASSET_NOT_FOUND, "Asset not found");
}

#[test]
fn payout_of_several_assets_keeps_order_and_fills_zero() {
    let query = AssetQuery::Many(vec![
        "GBP/USD".to_string(),
        "BTC/USD".to_string(),
        "EUR/USD".to_string(),
        "GBP/USD".to_string(),
    ]);
    assert_eq!(table().payout(Some(query)), Ok(Payout::Rates(vec![82, 0, 85, 82])));
    assert_eq!(table().payout(Some(AssetQuery::Many(vec![]))), Ok(Payout::Rates(vec![])));
}

#[test]
fn payout_lookup() {
    assert_eq!(table().get(&"GBP/USD".to_string()), Some(82));
    assert_eq!(table().get(&"gbp/usd".to_string()), None);
    assert_eq!(PayoutTable::new(vec![]).get(&"EUR/USD".to_string()), None);
}
