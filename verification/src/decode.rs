//! Reading the exchange's JSON answers into plain values: the candle rows and
//! the account balances. Prices stay decimal text here; the caller reads them
//! as numbers.

use vstd::prelude::*;

verus! {

/// The open time (column 0, an `i64`) of every row of the JSON array of
/// candles in `body`, in order, as serde_json reads them; `None` when the body
/// is not a JSON array or some row has no `i64` there.
pub uninterp spec fn json_kline_open_times(body: Seq<u8>) -> Option<Seq<i64>>;

/// The string in column `column` of every row of the JSON array of candles in
/// `body`, in order, as serde_json reads them; `None` when the body is not a
/// JSON array or some row has no string there.
pub uninterp spec fn json_kline_price_column(body: Seq<u8>, column: int) -> Option<Seq<Seq<char>>>;

/// For every element of the array `assets` of the JSON object in `body`, in
/// order: the element's `asset` field written as compact JSON text (a missing
/// field is `null`), and its `walletBalance` field when that is a string.
/// `None` when the body is not JSON or `assets` is not an array.
pub uninterp spec fn json_balance_rows(body: Seq<u8>) -> Option<Seq<(Seq<char>, Option<Seq<char>>)>>;

/// The latest price of a symbol, as the price endpoint answers it: the price
/// is decimal text, the time is in milliseconds since the Unix epoch.
pub struct Price {
    pub symbol: String,
    pub price: String,
    pub time: u64,
}

/// The views of a list of texts.
pub open spec fn texts_view(v: Seq<String>) -> Seq<Seq<char>> {
    v.map_values(|s: String| s@)
}

/// The views of balance rows.
pub open spec fn rows_view(v: Seq<(String, Option<String>)>) -> Seq<(Seq<char>, Option<Seq<char>>)> {
    v.map_values(
        |r: (String, Option<String>)|
            (
                r.0@,
                match r.1 {
                    Some(s) => Some(s@),
                    None => None,
                },
            ),
    )
}

/// Calls `serde_json::from_slice::<serde_json::Value>`, `as_array`, and on each
/// row `row[0].as_i64()`. Trusted: the result is the named list of open times.
#[verifier::external_body]
fn read_kline_open_times(body: &[u8]) -> (times: Option<Vec<i64>>)
    ensures
        times matches Some(v) ==> json_kline_open_times(body@) == Some(v@),
        times is None <==> json_kline_open_times(body@) is None,
{
    match serde_json::from_slice::<serde_json::Value>(body) {
        Ok(value) => match value.as_array() {
            Some(rows) => rows.iter().map(|row| row[0].as_i64()).collect(),
            None => None,
        },
        Err(_) => None,
    }
}

/// Calls `serde_json::from_slice::<serde_json::Value>`, `as_array`, and on each
/// row `row[column].as_str()`. Trusted: the result is the named column.
#[verifier::external_body]
fn read_kline_price_column(body: &[u8], column: usize) -> (prices: Option<Vec<String>>)
    ensures
        prices matches Some(v) ==> json_kline_price_column(body@, column as int) == Some(texts_view(v@)),
        prices is None <==> json_kline_price_column(body@, column as int) is None,
{
    match serde_json::from_slice::<serde_json::Value>(body) {
        Ok(value) => match value.as_array() {
            Some(rows) => rows.iter().map(|row| row[column].as_str().map(String::from)).collect(),
            None => None,
        },
        Err(_) => None,
    }
}

/// Calls `serde_json::from_slice::<serde_json::Value>`, `["assets"].as_array()`,
/// and on each element `["asset"].to_string()` and `["walletBalance"].as_str()`.
/// Trusted: the result is the named list of rows.
#[verifier::external_body]
fn read_balance_rows(body: &[u8]) -> (rows: Option<Vec<(String, Option<String>)>>)
    ensures
        rows matches Some(v) ==> json_balance_rows(body@) == Some(rows_view(v@)),
        rows is None <==> json_balance_rows(body@) is None,
{
    match serde_json::from_slice::<serde_json::Value>(body) {
        Ok(value) => value["assets"].as_array().map(|assets| {
            assets.iter().map(|a| (a["asset"].to_string(), a["walletBalance"].as_str().map(String::from))).collect()
        }),
        Err(_) => None,
    }
}

/// The open times of the candles in a response body of the candle endpoint.
pub fn kline_open_times(body: &[u8]) -> (times: Option<Vec<i64>>)
    ensures
        times matches Some(v) ==> json_kline_open_times(body@) == Some(v@),
        times is None <==> json_kline_open_times(body@) is None,
{
    read_kline_open_times(body)
}

/// One price column (1 open, 2 high, 3 low, 4 close) of the candles in a
/// response body of the candle endpoint, as decimal text.
pub fn kline_price_column(body: &[u8], column: usize) -> (prices: Option<Vec<String>>)
    ensures
        prices matches Some(v) ==> json_kline_price_column(body@, column as int) == Some(texts_view(v@)),
        prices is None <==> json_kline_price_column(body@, column as int) is None,
{
    read_kline_price_column(body, column)
}

/// The balance rows of a response body of the account endpoint: each asset's
/// name as JSON text, and its wallet balance as decimal text when present.
pub fn balance_rows(body: &[u8]) -> (rows: Option<Vec<(String, Option<String>)>>)
    ensures
        rows matches Some(v) ==> json_balance_rows(body@) == Some(rows_view(v@)),
        rows is None <==> json_balance_rows(body@) is None,
{
    read_balance_rows(body)
}

} // verus!
