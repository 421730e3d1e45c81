use sarbot::trading::{bot_step, start_position, Decision, Position, Signals, SizeSign, Trade};

fn signals(open_above_sar: bool, open_below_sar: bool, low_below_line: bool, high_above_line: bool) -> Signals {
    Signals { open_above_sar, open_below_sar, low_below_line, high_above_line }
}

fn decision(trade: Trade, position: Position, offset: i32) -> Decision {
    Decision { trade, position, offset }
}

#[test]
fn start_position_follows_last_open_against_sar() {
    assert_eq!(start_position(Position::Undecided, true, false), Position::Buy);
    assert_eq!(start_position(Position::Undecided, false, true), Position::Sell);
    assert_eq!(start_position(Position::Undecided, false, false), Position::Undecided);
    assert_eq!(start_position(Position::Sell, false, false), Position::Sell);
}

#[test]
fn short_with_position_reverses_when_open_rises_above_sar() {
    let d = bot_step(Position::Sell, SizeSign::Positive, 0, signals(true, false, true, false));
    assert_eq!(d, decision(Trade::Reverse, Position::Buy, 1));
}

#[test]
fn short_takes_profit_on_line_only_when_unguarded() {
    let sig = signals(false, true, true, false);
    assert_eq!(bot_step(Position::Sell, SizeSign::Positive, 0, sig), decision(Trade::Close, Position::Sell, 0));
    assert_eq!(bot_step(Position::Sell, SizeSign::Positive, 1, sig), decision(Trade::Hold, Position::Sell, 0));
}

#[test]
fn short_without_signal_clears_guard() {
    let d = bot_step(Position::Sell, SizeSign::Positive, 1, signals(false, true, false, true));
    assert_eq!(d, decision(Trade::Hold, Position::Sell, 0));
}

#[test]
fn flat_short_opens_long_on_reversal() {
    assert_eq!(
        bot_step(Position::Sell, SizeSign::Zero, 0, signals(true, false, false, false)),
        decision(Trade::Open, Position::Buy, 1)
    );
    assert_eq!(
        bot_step(Position::Sell, SizeSign::Zero, 1, signals(false, true, true, true)),
        decision(Trade::Hold, Position::Sell, 1)
    );
}

#[test]
fn long_with_position_reverses_or_takes_profit() {
    assert_eq!(
        bot_step(Position::Buy, SizeSign::Positive, 0, signals(false, true, false, true)),
        decision(Trade::Reverse, Position::Sell, 1)
    );
    assert_eq!(
        bot_step(Position::Buy, SizeSign::Positive, 0, signals(true, false, false, true)),
        decision(Trade::Close, Position::Buy, 0)
    );
    assert_eq!(
        bot_step(Position::Buy, SizeSign::Positive, 1, signals(true, false, false, true)),
        decision(Trade::Hold, Position::Buy, 0)
    );
}

#[test]
fn flat_long_opens_short_on_reversal() {
    assert_eq!(
        bot_step(Position::Buy, SizeSign::Zero, 0, signals(false, true, false, false)),
        decision(Trade::Open, Position::Sell, 1)
    );
}

#[test]
fn negative_size_and_undecided_side_never_trade() {
    let sig = signals(true, true, true, true);
    assert_eq!(bot_step(Position::Buy, SizeSign::Other, 0, sig), decision(Trade::Hold, Position::Buy, 0));
    assert_eq!(bot_step(Position::Sell, SizeSign::Other, 1, sig), decision(Trade::Hold, Position::Sell, 1));
    assert_eq!(bot_step(Position::Undecided, SizeSign::Positive, 0, sig), decision(Trade::Hold, Position::Undecided, 0));
}

#[test]
fn entry_is_never_followed_by_take_profit_close() {
    let first = bot_step(Position::Sell, SizeSign::Zero, 0, signals(true, false, false, false));
    assert_eq!(first.trade, Trade::Open);
    let next = bot_step(first.position, SizeSign::Positive, first.offset, signals(false, false, true, true));
    assert_eq!(next.trade, Trade::Hold);
    let after = bot_step(next.position, SizeSign::Positive, next.offset, signals(false, false, true, true));
    assert_eq!(after.trade, Trade::Close);
}
