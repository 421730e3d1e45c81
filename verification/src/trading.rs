//! The trading rules of the live bot: where it starts, and what it does on
//! each new candle. Prices are compared by the caller; these rules see the
//! outcome of each comparison.

use vstd::prelude::*;

verus! {

/// The side the bot trades on: after a buy signal it holds (or waits to hold)
/// a long position, after a sell signal a short one. Before the first signal
/// the side is undecided and the bot does nothing.
#[derive(Clone, Copy, Debug, PartialEq, Eq, Structural)]
pub enum Position {
    Buy,
    Sell,
    Undecided,
}

/// The sign of the size of the open position: zero when no position is held,
/// positive while one is; any other value (negative, not a number) blocks trading.
#[derive(Clone, Copy, Debug, PartialEq, Eq, Structural)]
pub enum SizeSign {
    Zero,
    Positive,
    Other,
}

/// The price comparisons that drive a decision.
/// `open_above_sar` / `open_below_sar`: the last open price is strictly
/// above / below the SAR value. `low_below_line` / `high_above_line`: the
/// candle's low is strictly below / its high strictly above the profit line
/// (the WMA mirrored away from the SAR).
#[derive(Clone, Copy, Debug, PartialEq, Eq, Structural)]
pub struct Signals {
    pub open_above_sar: bool,
    pub open_below_sar: bool,
    pub low_below_line: bool,
    pub high_above_line: bool,
}

/// What happens to the money.
/// `Reverse`: close the held position at the current price and open one of the
/// whole sum on the opposite side. `Close`: close the held position and stay
/// out of the market. `Open`: open a position of the whole sum. `Hold`: nothing.
#[derive(Clone, Copy, Debug, PartialEq, Eq, Structural)]
pub enum Trade {
    Hold,
    Close,
    Open,
    Reverse,
}

/// The outcome of one step of the live bot: the trade, the side afterwards,
/// and the new guard flag (`1` right after a position was opened, which
/// forbids a take-profit close on the following step).
#[derive(Clone, Copy, Debug, PartialEq, Eq, Structural)]
pub struct Decision {
    pub trade: Trade,
    pub position: Position,
    pub offset: i32,
}

/// The other side.
pub open spec fn opposite(pos: Position) -> Position {
    match pos {
        Position::Buy => Position::Sell,
        Position::Sell => Position::Buy,
        Position::Undecided => Position::Undecided,
    }
}

/// The SAR crossed to the other side of the price: a short is reversed when the
/// open rises above the SAR, a long when it falls below.
pub open spec fn reversal_signal(pos: Position, sig: Signals) -> bool {
    match pos {
        Position::Sell => sig.open_above_sar,
        Position::Buy => sig.open_below_sar,
        Position::Undecided => false,
    }
}

/// The price reached the profit line: a short takes profit when the low falls
/// below it, a long when the high rises above it.
pub open spec fn take_profit_signal(pos: Position, sig: Signals) -> bool {
    match pos {
        Position::Sell => sig.low_below_line,
        Position::Buy => sig.high_above_line,
        Position::Undecided => false,
    }
}

/// One step of the live bot.
pub open spec fn bot_decision(pos: Position, size: SizeSign, offset: i32, sig: Signals) -> Decision {
    if pos is Undecided {
        Decision { trade: Trade::Hold, position: pos, offset }
    } else {
        match size {
            SizeSign::Positive => if reversal_signal(pos, sig) {
                Decision { trade: Trade::Reverse, position: opposite(pos), offset: 1 }
            } else if take_profit_signal(pos, sig) && offset == 0 {
                Decision { trade: Trade::Close, position: pos, offset }
            } else {
                Decision { trade: Trade::Hold, position: pos, offset: 0 }
            },
            SizeSign::Zero => if reversal_signal(pos, sig) {
                Decision { trade: Trade::Open, position: opposite(pos), offset: 1 }
            } else {
                Decision { trade: Trade::Hold, position: pos, offset }
            },
            SizeSign::Other => Decision { trade: Trade::Hold, position: pos, offset },
        }
    }
}

/// The side the bot starts on: the side of the last open price relative to the
/// last SAR value; unchanged when they are equal.
pub open spec fn spec_start_position(current: Position, open_above_sar: bool, open_below_sar: bool) -> Position {
    if open_above_sar {
        Position::Buy
    } else if open_below_sar {
        Position::Sell
    } else {
        current
    }
}

/// Chooses the starting side from the last candle (the decision of the bot's
/// start-up step).
pub fn start_position(current: Position, open_above_sar: bool, open_below_sar: bool) -> (pos: Position)
    ensures
        pos == spec_start_position(current, open_above_sar, open_below_sar),
{
    if open_above_sar {
        Position::Buy
    } else if open_below_sar {
        Position::Sell
    } else {
        current
    }
}

/// Decides one step of the live bot from its state (side, sign of the size,
/// guard flag) and the signals of the latest candles.
pub fn bot_step(pos: Position, size: SizeSign, offset: i32, sig: Signals) -> (d: Decision)
    ensures
        d == bot_decision(pos, size, offset, sig),
        pos == Position::Sell && size == SizeSign::Positive && sig.open_above_sar ==> d
            == (Decision { trade: Trade::Reverse, position: Position::Buy, offset: 1 }),
        pos == Position::Buy && size == SizeSign::Positive && sig.open_below_sar ==> d
            == (Decision { trade: Trade::Reverse, position: Position::Sell, offset: 1 }),
        d.trade == Trade::Close ==> size == SizeSign::Positive && offset == 0 && d.position == pos
            && ((pos == Position::Sell && sig.low_below_line) || (pos == Position::Buy
            && sig.high_above_line)),
{
    match pos {
        Position::Sell => match size {
            SizeSign::Positive => {
                if sig.open_above_sar {
                    Decision { trade: Trade::Reverse, position: Position::Buy, offset: 1 }
                } else if sig.low_below_line && offset == 0 {
                    Decision { trade: Trade::Close, position: Position::Sell, offset }
                } else {
                    Decision { trade: Trade::Hold, position: Position::Sell, offset: 0 }
                }
            },
            SizeSign::Zero => {
                if sig.open_above_sar {
                    Decision { trade: Trade::Open, position: Position::Buy, offset: 1 }
                } else {
                    Decision { trade: Trade::Hold, position: Position::Sell, offset }
                }
            },
            SizeSign::Other => Decision { trade: Trade::Hold, position: Position::Sell, offset },
        },
        Position::Buy => match size {
            SizeSign::Positive => {
                if sig.open_below_sar {
                    Decision { trade: Trade::Reverse, position: Position::Sell, offset: 1 }
                } else if sig.high_above_line && offset == 0 {
                    Decision { trade: Trade::Close, position: Position::Buy, offset }
                } else {
                    Decision { trade: Trade::Hold, position: Position::Buy, offset: 0 }
                }
            },
            SizeSign::Zero => {
                if sig.open_below_sar {
                    Decision { trade: Trade::Open, position: Position::Sell, offset: 1 }
                } else {
                    Decision { trade: Trade::Hold, position: Position::Buy, offset }
                }
            },
            SizeSign::Other => Decision { trade: Trade::Hold, position: Position::Buy, offset },
        },
        Position::Undecided => Decision { trade: Trade::Hold, position: Position::Undecided, offset },
    }
}

/// Right after the bot opens a position (fresh or by reversal), the next step
/// never closes it on the profit line, whatever the next candle shows.
pub proof fn entry_blocks_take_profit_next_step(
    pos: Position,
    size: SizeSign,
    offset: i32,
    sig: Signals,
    next_size: SizeSign,
    next_sig: Signals,
)
    requires
        bot_decision(pos, size, offset, sig).trade is Open || bot_decision(pos, size, offset, sig).trade is Reverse,
    ensures
        bot_decision(pos, size, offset, sig).offset == 1,
        !(bot_decision(
            bot_decision(pos, size, offset, sig).position,
            next_size,
            bot_decision(pos, size, offset, sig).offset,
            next_sig,
        ).trade is Close),
{
}

/// A SAR crossing against a held position always reverses it, whatever the
/// guard flag: the guard delays only the take-profit close.
pub proof fn reversal_overrides_guard(offset: i32, sig: Signals)
    ensures
        sig.open_above_sar ==> bot_decision(Position::Sell, SizeSign::Positive, offset, sig)
            == (Decision { trade: Trade::Reverse, position: Position::Buy, offset: 1 }),
        sig.open_below_sar ==> bot_decision(Position::Buy, SizeSign::Positive, offset, sig)
            == (Decision { trade: Trade::Reverse, position: Position::Sell, offset: 1 }),
{
}

/// A take-profit close happens only on the held side's own line (a short when
/// the low falls below it, a long when the high rises above it), only while the
/// guard is clear and the SAR has not crossed, and then it always happens.
pub proof fn take_profit_on_own_line(pos: Position, size: SizeSign, offset: i32, sig: Signals)
    ensures
        bot_decision(pos, size, offset, sig).trade == Trade::Close ==> {
            &&& size == SizeSign::Positive
            &&& offset == 0
            &&& bot_decision(pos, size, offset, sig).position == pos
            &&& (pos == Position::Sell && sig.low_below_line && !sig.open_above_sar)
                || (pos == Position::Buy && sig.high_above_line && !sig.open_below_sar)
        },
        size == SizeSign::Positive && offset == 0 && !sig.open_above_sar && sig.low_below_line
            ==> bot_decision(Position::Sell, size, offset, sig).trade == Trade::Close,
        size == SizeSign::Positive && offset == 0 && !sig.open_below_sar && sig.high_above_line
            ==> bot_decision(Position::Buy, size, offset, sig).trade == Trade::Close,
{
}

/// The side changes only when a position is opened, and then it flips to the
/// opposite side; an undecided bot never trades and stays undecided.
pub proof fn side_changes_only_on_entry(pos: Position, size: SizeSign, offset: i32, sig: Signals)
    ensures
        ({
            let d = bot_decision(pos, size, offset, sig);
            &&& (d.trade is Open || d.trade is Reverse) ==> d.position == opposite(pos) && d.position != pos
            &&& (d.trade is Hold || d.trade is Close) ==> d.position == pos
            &&& pos is Undecided ==> d.trade is Hold && d.position is Undecided
        }),
{
}

/// A position is closed (or reversed) only while one is held, and opened only
/// while none is held.
pub proof fn trades_match_holdings(pos: Position, size: SizeSign, offset: i32, sig: Signals)
    ensures
        ({
            let d = bot_decision(pos, size, offset, sig);
            &&& (d.trade is Close || d.trade is Reverse) ==> size is Positive
            &&& d.trade is Open ==> size is Zero
            &&& d.trade is Close ==> offset == 0
        }),
{
}

/// The guard flag only ever holds 0 or 1, starting from either.
pub proof fn offset_stays_binary(pos: Position, size: SizeSign, offset: i32, sig: Signals)
    requires
        offset == 0 || offset == 1,
    ensures
        bot_decision(pos, size, offset, sig).offset == 0 || bot_decision(pos, size, offset, sig).offset == 1,
{
}

} // verus!
