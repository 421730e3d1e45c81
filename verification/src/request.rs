//! The signed request URLs of the exchange's futures REST API.

use vstd::prelude::*;
use vstd::string::StringSliceAdditionalSpecFns;
use vstd::utf8::encode_utf8;
use crate::signature::{get_signature, spec_signature};

verus! {

/// The decimal digit character of a value below ten.
pub open spec fn decimal_digit(d: nat) -> char {
    (48 + d) as char
}

/// The decimal representation of `n`, without leading zeros.
pub open spec fn decimal(n: nat) -> Seq<char>
    decreases n,
{
    if n < 10 {
        seq![decimal_digit(n)]
    } else {
        decimal(n / 10).push(decimal_digit(n % 10))
    }
}

/// Every character is one of `0`..`9`.
pub open spec fn all_digits(s: Seq<char>) -> bool {
    forall|i: int| 0 <= i < s.len() ==> '0' <= #[trigger] s[i] <= '9'
}

/// The number that a string of decimal digits denotes, read in base ten.
pub open spec fn numeral_value(s: Seq<char>) -> int
    decreases s.len(),
{
    if s.len() == 0 {
        0
    } else {
        numeral_value(s.drop_last()) * 10 + (s.last() as int - 48)
    }
}

/// The decimal text of `n` is a non-empty string of digits that reads back as `n`.
pub proof fn decimal_reads_back(n: nat)
    ensures
        decimal(n).len() > 0,
        all_digits(decimal(n)),
        numeral_value(decimal(n)) == n,
    decreases n,
{
    if n >= 10 {
        decimal_reads_back(n / 10);
        let d = decimal(n);
        assert(d.drop_last() =~= decimal(n / 10));
        assert(d.last() as int == 48 + n % 10);
        assert(numeral_value(d) == numeral_value(decimal(n / 10)) * 10 + (n % 10));
        assert((n / 10) * 10 + n % 10 == n) by (nonlinear_arith);
    } else {
        let d = decimal(n);
        assert(d[0] as int == 48 + n);
        assert(d.drop_last() =~= Seq::<char>::empty());
        assert(numeral_value(d.drop_last()) == 0);
    }
}

/// A one-character string holding the decimal digit `d`.
fn digit_str(d: u128) -> (s: &'static str)
    requires
        d < 10,
    ensures
        s@ == seq![decimal_digit(d as nat)],
{
    proof {
        reveal_strlit("0");
        reveal_strlit("1");
        reveal_strlit("2");
        reveal_strlit("3");
        reveal_strlit("4");
        reveal_strlit("5");
        reveal_strlit("6");
        reveal_strlit("7");
        reveal_strlit("8");
        reveal_strlit("9");
    }
    if d == 0 {
        "0"
    } else if d == 1 {
        "1"
    } else if d == 2 {
        "2"
    } else if d == 3 {
        "3"
    } else if d == 4 {
        "4"
    } else if d == 5 {
        "5"
    } else if d == 6 {
        "6"
    } else if d == 7 {
        "7"
    } else if d == 8 {
        "8"
    } else {
        "9"
    }
}

/// Writes `n` in decimal, as `to_string` does for unsigned integers.
pub fn decimal_string(n: u128) -> (s: String)
    ensures
        s@ == decimal(n as nat),
    decreases n,
{
    if n < 10 {
        let mut s = String::new();
        s.append(digit_str(n));
        s
    } else {
        let mut s = decimal_string(n / 10);
        s.append(digit_str(n % 10));
        s
    }
}


/// The whole milliseconds of a time span of `secs` seconds and `subsec_nanos`
/// nanoseconds: the request timestamp, counted from the Unix epoch.
pub open spec fn spec_epoch_millis(secs: nat, subsec_nanos: nat) -> nat {
    secs * 1000 + subsec_nanos / 1_000_000
}

/// Truncates a time span since the Unix epoch to whole milliseconds.
pub fn epoch_millis(secs: u64, subsec_nanos: u32) -> (ms: u128)
    requires
        subsec_nanos < 1_000_000_000,
    ensures
        ms == spec_epoch_millis(secs as nat, subsec_nanos as nat),
{
    secs as u128 * 1000 + (subsec_nanos / 1_000_000) as u128
}

/// The query string that every signed request carries: `timestamp=<ms>`.
pub open spec fn timestamp_query(timestamp: nat) -> Seq<char> {
    "timestamp="@ + decimal(timestamp)
}

/// The signature of the timestamp query under the secret key.
pub open spec fn query_signature(secret_key: Seq<u8>, timestamp: nat) -> Seq<char> {
    spec_signature(secret_key, encode_utf8(timestamp_query(timestamp)))
}

/// The account information endpoint, signed.
pub open spec fn account_url(secret_key: Seq<u8>, timestamp: nat) -> Seq<char> {
    "https://fapi.binance.com/fapi/v2/account?"@ + timestamp_query(timestamp) + "&signature="@
        + query_signature(secret_key, timestamp)
}

/// The candlestick endpoint for `ticker` at `interval`, `limit` candles, signed.
pub open spec fn klines_url(
    secret_key: Seq<u8>,
    timestamp: nat,
    ticker: Seq<char>,
    interval: Seq<char>,
    limit: nat,
) -> Seq<char> {
    "https://fapi.binance.com/fapi/v1//klines?"@ + timestamp_query(timestamp) + "&symbol="@ + ticker
        + "&interval="@ + interval + "&limit="@ + decimal(limit) + "&signature="@
        + query_signature(secret_key, timestamp)
}

/// The latest price endpoint for `ticker`, signed.
pub open spec fn price_url(secret_key: Seq<u8>, timestamp: nat, ticker: Seq<char>) -> Seq<char> {
    "https://fapi.binance.com/fapi/v1/ticker/price?"@ + timestamp_query(timestamp) + "&symbol="@
        + ticker + "&signature="@ + query_signature(secret_key, timestamp)
}

/// Every URL carries `timestamp=` followed by the decimal numeral of the
/// timestamp, and its signature is the signature of exactly that query text.
pub proof fn urls_signed_over_their_timestamp(secret_key: Seq<u8>, timestamp: nat, ticker: Seq<char>, interval: Seq<char>, limit: nat)
    ensures
        exists|digits: Seq<char>|
            {
                let q = "timestamp="@ + digits;
                let sig = spec_signature(secret_key, encode_utf8(q));
                &&& all_digits(digits)
                &&& digits.len() > 0
                &&& #[trigger] numeral_value(digits) == timestamp
                &&& account_url(secret_key, timestamp)
                    == "https://fapi.binance.com/fapi/v2/account?"@ + q + "&signature="@ + sig
                &&& price_url(secret_key, timestamp, ticker)
                    == "https://fapi.binance.com/fapi/v1/ticker/price?"@ + q + "&symbol="@ + ticker + "&signature="@ + sig
                &&& klines_url(secret_key, timestamp, ticker, interval, limit)
                    == "https://fapi.binance.com/fapi/v1//klines?"@ + q + "&symbol="@ + ticker + "&interval="@ + interval
                        + "&limit="@ + decimal(limit) + "&signature="@ + sig
            },
{
    decimal_reads_back(timestamp);
    let digits = decimal(timestamp);
    let q = "timestamp="@ + digits;
    assert(q == timestamp_query(timestamp));
}

/// The candle URL asks for exactly the given number of candles: the text
/// between `&limit=` and `&signature=` is a decimal numeral whose value is `limit`.
pub proof fn klines_url_limit(
    secret_key: Seq<u8>,
    timestamp: nat,
    ticker: Seq<char>,
    interval: Seq<char>,
    limit: nat,
)
    ensures
        exists|digits: Seq<char>|
            {
                &&& all_digits(digits)
                &&& digits.len() > 0
                &&& #[trigger] numeral_value(digits) == limit
                &&& klines_url(secret_key, timestamp, ticker, interval, limit) == (
                "https://fapi.binance.com/fapi/v1//klines?"@ + timestamp_query(timestamp)
                    + "&symbol="@ + ticker + "&interval="@ + interval + "&limit="@) + digits + (
                "&signature="@ + query_signature(secret_key, timestamp))
            },
{
    decimal_reads_back(limit);
    let digits = decimal(limit);
    let head = "https://fapi.binance.com/fapi/v1//klines?"@ + timestamp_query(timestamp) + "&symbol="@
        + ticker + "&interval="@ + interval + "&limit="@;
    let tail = "&signature="@ + query_signature(secret_key, timestamp);
    assert(klines_url(secret_key, timestamp, ticker, interval, limit) =~= head + digits + tail);
}

/// Builds `timestamp=<ms>`, the query string that is signed.
pub fn timestamp_params(timestamp: u128) -> (params: String)
    ensures
        params@ == timestamp_query(timestamp as nat),
{
    let mut params = String::new();
    params.append("timestamp=");
    let digits = decimal_string(timestamp);
    params.append(digits.as_str());
    params
}

/// Builds the query string and its signature.
fn signed_params(secret_key: &str, timestamp: u128) -> (res: (String, String))
    ensures
        res.0@ == timestamp_query(timestamp as nat),
        res.1@ == query_signature(secret_key.spec_bytes(), timestamp as nat),
{
    let params = timestamp_params(timestamp);
    let signature = get_signature(secret_key, params.as_str());
    (params, signature)
}

/// The signed URL of the account request (balances).
pub fn account_request(secret_key: &str, timestamp: u128) -> (url: String)
    ensures
        url@ == account_url(secret_key.spec_bytes(), timestamp as nat),
{
    let (params, signature) = signed_params(secret_key, timestamp);
    let mut url = String::new();
    url.append("https://fapi.binance.com/fapi/v2/account?");
    url.append(params.as_str());
    url.append("&signature=");
    url.append(signature.as_str());
    url
}

/// The signed URL of the candlestick request.
pub fn klines_request(
    secret_key: &str,
    timestamp: u128,
    ticker: &str,
    interval: &str,
    limit: u32,
) -> (url: String)
    ensures
        url@ == klines_url(secret_key.spec_bytes(), timestamp as nat, ticker@, interval@, limit as nat),
{
    let (params, signature) = signed_params(secret_key, timestamp);
    let limit_digits = decimal_string(limit as u128);
    let mut url = String::new();
    url.append("https://fapi.binance.com/fapi/v1//klines?");
    url.append(params.as_str());
    url.append("&symbol=");
    url.append(ticker);
    url.append("&interval=");
    url.append(interval);
    url.append("&limit=");
    url.append(limit_digits.as_str());
    url.append("&signature=");
    url.append(signature.as_str());
    url
}

/// The signed URL of the latest price request.
pub fn price_request(secret_key: &str, timestamp: u128, ticker: &str) -> (url: String)
    ensures
        url@ == price_url(secret_key.spec_bytes(), timestamp as nat, ticker@),
{
    let (params, signature) = signed_params(secret_key, timestamp);
    let mut url = String::new();
    url.append("https://fapi.binance.com/fapi/v1/ticker/price?");
    url.append(params.as_str());
    url.append("&symbol=");
    url.append(ticker);
    url.append("&signature=");
    url.append(signature.as_str());
    url
}

} // verus!
