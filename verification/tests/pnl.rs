use sarbot::pnl::{opening_position, pnl_step, TradeTally};
use sarbot::trading::{bot_step, Position, Signals, SizeSign, Trade};

fn signals(open_above_sar: bool, open_below_sar: bool, low_below_line: bool, high_above_line: bool) -> Signals {
    Signals { open_above_sar, open_below_sar, low_below_line, high_above_line }
}

#[test]
fn backtest_opening_side() {
    assert_eq!(opening_position(true), Position::Buy);
    assert_eq!(opening_position(false), Position::Sell);
}

#[test]
fn backtest_steps() {
    assert_eq!(pnl_step(Position::Sell, SizeSign::Positive, signals(true, false, true, false)), (Trade::Reverse, Position::Buy));
    assert_eq!(pnl_step(Position::Sell, SizeSign::Positive, signals(false, false, true, false)), (Trade::Close, Position::Sell));
    assert_eq!(pnl_step(Position::Sell, SizeSign::Zero, signals(true, false, false, false)), (Trade::Open, Position::Buy));
    assert_eq!(pnl_step(Position::Sell, SizeSign::Zero, signals(false, true, true, true)), (Trade::Hold, Position::Sell));
    assert_eq!(pnl_step(Position::Buy, SizeSign::Positive, signals(false, true, false, true)), (Trade::Reverse, Position::Sell));
    assert_eq!(pnl_step(Position::Buy, SizeSign::Positive, signals(false, false, false, true)), (Trade::Close, Position::Buy));
    assert_eq!(pnl_step(Position::Buy, SizeSign::Zero, signals(false, true, false, false)), (Trade::Open, Position::Sell));
    assert_eq!(pnl_step(Position::Buy, SizeSign::Other, signals(true, true, true, true)), (Trade::Hold, Position::Buy));
}

#[test]
fn backtest_agrees_with_unguarded_bot() {
    let sides = [Position::Buy, Position::Sell, Position::Undecided];
    let sizes = [SizeSign::Zero, SizeSign::Positive, SizeSign::Other];
    for &pos in &sides {
        for &size in &sizes {
            for bits in 0..16u8 {
                let sig = signals(bits & 1 != 0, bits & 2 != 0, bits & 4 != 0, bits & 8 != 0);
                let bot = bot_step(pos, size, 0, sig);
                assert_eq!(pnl_step(pos, size, sig), (bot.trade, bot.position));
            }
        }
    }
}

#[test]
fn backtest_ignores_guard_that_bot_keeps() {
    let sig = signals(false, false, true, false);
    assert_eq!(pnl_step(Position::Sell, SizeSign::Positive, sig).0, Trade::Close);
    assert_eq!(bot_step(Position::Sell, SizeSign::Positive, 1, sig).trade, Trade::Hold);
}

#[test]
fn tally_counts_winners_and_losers() {
    let mut t = TradeTally::new();
    t.record(true);
    t.record(false);
    t.record(false);
    assert_eq!(t, TradeTally { profit_trades: 1, loss_trades: 2 });
}

#[test]
fn backtest_run_closes_at_most_once_per_later_candle() {
    // Walk the back-test over candles that cross the SAR every time, with positive prices.
    let mut pos = opening_position(true);
    let mut size = SizeSign::Zero;
    let mut closes: i32 = 0;
    let candles: i32 = 6;
    for i in 0..candles {
        let sig = if i % 2 == 0 { signals(false, true, false, false) } else { signals(true, false, false, false) };
        let (trade, next) = pnl_step(pos, size, sig);
        if i == 0 {
            assert_eq!(trade, Trade::Open);
        }
        match trade {
            Trade::Reverse | Trade::Close => closes += 1,
            _ => {}
        }
        size = match trade {
            Trade::Open | Trade::Reverse => SizeSign::Positive,
            Trade::Close => SizeSign::Zero,
            Trade::Hold => size,
        };
        pos = next;
    }
    assert_eq!(closes, candles - 1);
}

#[test]
fn backtest_without_crossing_never_enters() {
    for &start in &[true, false] {
        let pos = opening_position(start);
        for bits in 0..4u8 {
            let sig = signals(false, false, bits & 1 != 0, bits & 2 != 0);
            let (trade, _) = pnl_step(pos, SizeSign::Zero, sig);
            assert_eq!(trade, Trade::Hold);
        }
    }
}
