use sarbot::request::{
    account_request, decimal_string, epoch_millis, klines_request, price_request, timestamp_params,
};

#[test]
fn decimal_of_small_and_large_numbers() {
    assert_eq!(decimal_string(0), "0");
    assert_eq!(decimal_string(9), "9");
    assert_eq!(decimal_string(10), "10");
    assert_eq!(decimal_string(1499827319559), "1499827319559");
    assert_eq!(decimal_string(u128::MAX), u128::MAX.to_string());
}

#[test]
fn timestamp_query_string() {
    assert_eq!(timestamp_params(1499827319559), "timestamp=1499827319559");
    assert_eq!(timestamp_params(0), "timestamp=0");
}

#[test]
fn account_url_is_signed() {
    assert_eq!(
        account_request("Jefe", 1499827319559),
        "https://fapi.binance.com/fapi/v2/account?timestamp=1499827319559&signature=25cb3cb6cc49c8995d9285aa3503132518728eb173741c1b8279a4c2ee12ebbd"
    );
}

#[test]
fn klines_url_is_signed() {
    assert_eq!(
        klines_request("Jefe", 1499827319559, "BTCUSDT", "5m", 500),
        "https://fapi.binance.com/fapi/v1//klines?timestamp=1499827319559&symbol=BTCUSDT&interval=5m&limit=500&signature=25cb3cb6cc49c8995d9285aa3503132518728eb173741c1b8279a4c2ee12ebbd"
    );
}

#[test]
fn price_url_is_signed() {
    assert_eq!(
        price_request("Jefe", 1499827319560, "ETHUSDT"),
        "https://fapi.binance.com/fapi/v1/ticker/price?timestamp=1499827319560&symbol=ETHUSDT&signature=db5fa50d8634af28bcc489dc4bf5b5eab3c139624030ec4a27d5367360b1c91b"
    );
}

#[test]
fn epoch_millis_truncates_to_whole_milliseconds() {
    assert_eq!(epoch_millis(0, 0), 0);
    assert_eq!(epoch_millis(1499827319, 559_999_999), 1499827319559);
    assert_eq!(epoch_millis(u64::MAX, 999_999_999), u64::MAX as u128 * 1000 + 999);
}
