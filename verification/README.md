# sarbot

A trading bot for Binance USDⓈ-M futures. It follows the Parabolic SAR
indicator: it goes long when the price opens above the SAR and short when it
opens below, and takes profit early when the price reaches a line drawn from a
weighted moving average. The SAR and WMA parameters are chosen by back-testing
every combination over recent candles.

Layout:

- `src/` — the verified library (Verus):
  - `signature.rs` — HMAC-SHA256 request signing, hex encoding;
  - `request.rs` — the signed request URLs, decimal formatting;
  - `fetch.rs` — what follows each attempt to reach the exchange (retries);
  - `trading.rs` — the live bot's decisions (start side, one step per candle);
  - `pnl.rs` — the back-test's decisions and its count of winning and losing trades;
  - `search.rs` — the grid of SAR parameters the back-test tries;
  - `server_time.rs` — the exchange clock answer, written as UTC text;
  - `decode.rs` — the candle and balance answers read into plain values.
- `app/` — the program: HTTP calls, JSON decoding, the TA-Lib indicators, the
  floating-point money arithmetic, threads and the scheduler.
- `tests/` — tests of the library.
