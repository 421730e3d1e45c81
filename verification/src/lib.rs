//! Verified core of a Binance futures trading bot that follows the
//! Parabolic SAR indicator and takes profit on a weighted moving average line.

pub mod signature;
pub mod request;
pub mod trading;
pub mod pnl;
pub mod fetch;
pub mod search;
pub mod server_time;
pub mod decode;


