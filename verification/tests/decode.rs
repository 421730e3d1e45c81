use sarbot::decode::{balance_rows, kline_open_times, kline_price_column, Price};

const CANDLES: &[u8] = br#"[
  [1499040000000, "0.01634790", "0.80000000", "0.01575800", "0.01577100", "148976.11427815", 1499644799999],
  [1499040300000, "0.01577100", "0.01600000", "0.01500000", "0.01590000", "1000.0", 1499040599999]
]"#;

#[test]
fn candle_open_times_in_order() {
    assert_eq!(kline_open_times(CANDLES).unwrap(), vec![1499040000000, 1499040300000]);
}

#[test]
fn candle_price_columns_as_text() {
    assert_eq!(kline_price_column(CANDLES, 1).unwrap(), vec!["0.01634790", "0.01577100"]);
    assert_eq!(kline_price_column(CANDLES, 2).unwrap(), vec!["0.80000000", "0.01600000"]);
    assert_eq!(kline_price_column(CANDLES, 3).unwrap(), vec!["0.01575800", "0.01500000"]);
    assert_eq!(kline_price_column(CANDLES, 4).unwrap(), vec!["0.01577100", "0.01590000"]);
}

#[test]
fn candle_body_that_does_not_fit_is_refused() {
    assert!(kline_open_times(b"{\"code\":-1}").is_none());
    assert!(kline_open_times(b"not json").is_none());
    assert!(kline_open_times(br#"[["x"]]"#).is_none());
    assert!(kline_price_column(CANDLES, 0).is_none());
    assert!(kline_price_column(CANDLES, 9).is_none());
    assert_eq!(kline_open_times(b"[]").unwrap(), Vec::<i64>::new());
}

#[test]
fn balance_rows_keep_asset_as_json_text() {
    let body = br#"{"assets":[{"asset":"USDT","walletBalance":"23.72469206"},{"asset":"BNB","walletBalance":1}]}"#;
    let rows = balance_rows(body).unwrap();
    assert_eq!(
        rows,
        vec![
            ("\"USDT\"".to_string(), Some("23.72469206".to_string())),
            ("\"BNB\"".to_string(), None),
        ]
    );
}

#[test]
fn balance_body_without_assets_is_refused() {
    assert!(balance_rows(b"{}").is_none());
    assert!(balance_rows(b"[]").is_none());
    assert!(balance_rows(b"oops").is_none());
    assert_eq!(balance_rows(br#"{"assets":[{}]}"#).unwrap(), vec![("null".to_string(), None)]);
}

#[test]
fn price_record_holds_text_and_time() {
    let p = Price { symbol: "BTCUSDT".to_string(), price: "6000.01".to_string(), time: 1589437530011 };
    assert_eq!(p.price.parse::<f64>().unwrap(), 6000.01);
    assert_eq!(p.symbol, "BTCUSDT");
    assert_eq!(p.time, 1589437530011);
}
