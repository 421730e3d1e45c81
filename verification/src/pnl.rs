//! The rules of the back-test that scores a choice of indicator parameters
//! over past candles: the same entries and exits as the live bot, without the
//! guard that delays a take-profit close, and a count of winning and losing trades.

use vstd::prelude::*;
use crate::trading::{
    Position, SizeSign, Signals, Trade, bot_decision, opposite, reversal_signal,
    take_profit_signal,
};

verus! {

/// The side the back-test starts on: long when the first open is above the
/// first SAR value, short otherwise.
pub open spec fn spec_opening_position(open_above_sar: bool) -> Position {
    if open_above_sar {
        Position::Buy
    } else {
        Position::Sell
    }
}

/// One step of the back-test: the trade and the side afterwards.
pub open spec fn pnl_decision(pos: Position, size: SizeSign, sig: Signals) -> (Trade, Position) {
    if pos is Undecided {
        (Trade::Hold, pos)
    } else {
        match size {
            SizeSign::Positive => if reversal_signal(pos, sig) {
                (Trade::Reverse, opposite(pos))
            } else if take_profit_signal(pos, sig) {
                (Trade::Close, pos)
            } else {
                (Trade::Hold, pos)
            },
            SizeSign::Zero => if reversal_signal(pos, sig) {
                (Trade::Open, opposite(pos))
            } else {
                (Trade::Hold, pos)
            },
            SizeSign::Other => (Trade::Hold, pos),
        }
    }
}

/// Chooses the side the back-test starts on from the first candle.
pub fn opening_position(open_above_sar: bool) -> (pos: Position)
    ensures
        pos == spec_opening_position(open_above_sar),
{
    if open_above_sar {
        Position::Buy
    } else {
        Position::Sell
    }
}

/// Decides one candle of the back-test.
pub fn pnl_step(pos: Position, size: SizeSign, sig: Signals) -> (res: (Trade, Position))
    ensures
        res == pnl_decision(pos, size, sig),
        pos == Position::Sell && size == SizeSign::Positive && sig.open_above_sar ==> res == (
        Trade::Reverse, Position::Buy),
        pos == Position::Buy && size == SizeSign::Positive && sig.open_below_sar ==> res == (
        Trade::Reverse, Position::Sell),
        res.0 == Trade::Close ==> size == SizeSign::Positive && res.1 == pos && ((pos
            == Position::Sell && sig.low_below_line) || (pos == Position::Buy
            && sig.high_above_line)),
{
    match pos {
        Position::Sell => match size {
            SizeSign::Positive => {
                if sig.open_above_sar {
                    (Trade::Reverse, Position::Buy)
                } else if sig.low_below_line {
                    (Trade::Close, Position::Sell)
                } else {
                    (Trade::Hold, Position::Sell)
                }
            },
            SizeSign::Zero => {
                if sig.open_above_sar {
                    (Trade::Open, Position::Buy)
                } else {
                    (Trade::Hold, Position::Sell)
                }
            },
            SizeSign::Other => (Trade::Hold, Position::Sell),
        },
        Position::Buy => match size {
            SizeSign::Positive => {
                if sig.open_below_sar {
                    (Trade::Reverse, Position::Sell)
                } else if sig.high_above_line {
                    (Trade::Close, Position::Buy)
                } else {
                    (Trade::Hold, Position::Buy)
                }
            },
            SizeSign::Zero => {
                if sig.open_below_sar {
                    (Trade::Open, Position::Sell)
                } else {
                    (Trade::Hold, Position::Buy)
                }
            },
            SizeSign::Other => (Trade::Hold, Position::Buy),
        },
        Position::Undecided => (Trade::Hold, Position::Undecided),
    }
}

/// The number of closed trades that made a profit and that did not.
#[derive(Clone, Copy, Debug, PartialEq, Eq, Structural)]
pub struct TradeTally {
    pub profit_trades: i32,
    pub loss_trades: i32,
}

impl TradeTally {
    /// No trade closed yet.
    pub fn new() -> (t: TradeTally)
        ensures
            t.profit_trades == 0,
            t.loss_trades == 0,
    {
        TradeTally { profit_trades: 0, loss_trades: 0 }
    }

    /// Counts one closed trade: a winner when its profit was strictly positive,
    /// a loser otherwise.
    pub fn record(&mut self, profitable: bool)
        requires
            profitable ==> old(self).profit_trades < i32::MAX,
            !profitable ==> old(self).loss_trades < i32::MAX,
        ensures
            profitable ==> final(self).profit_trades == old(self).profit_trades + 1
                && final(self).loss_trades == old(self).loss_trades,
            !profitable ==> final(self).loss_trades == old(self).loss_trades + 1
                && final(self).profit_trades == old(self).profit_trades,
            final(self).profit_trades + final(self).loss_trades == old(self).profit_trades
                + old(self).loss_trades + 1,
    {
        if profitable {
            self.profit_trades = self.profit_trades + 1;
        } else {
            self.loss_trades = self.loss_trades + 1;
        }
    }
}

/// The back-test trades exactly as the live bot does whenever the live bot's
/// guard flag is clear.
pub proof fn backtest_matches_bot_when_unguarded(pos: Position, size: SizeSign, sig: Signals)
    ensures
        pnl_decision(pos, size, sig).0 == bot_decision(pos, size, 0, sig).trade,
        pnl_decision(pos, size, sig).1 == bot_decision(pos, size, 0, sig).position,
{
}

/// In the back-test a held position is reversed on every SAR crossing against
/// it, and closed on the profit line only on its own side's line: a short when
/// the low falls below it, a long when the high rises above it.
pub proof fn backtest_exits(pos: Position, size: SizeSign, sig: Signals)
    ensures
        sig.open_above_sar ==> pnl_decision(Position::Sell, SizeSign::Positive, sig) == (
        Trade::Reverse, Position::Buy),
        sig.open_below_sar ==> pnl_decision(Position::Buy, SizeSign::Positive, sig) == (
        Trade::Reverse, Position::Sell),
        pnl_decision(pos, size, sig).0 == Trade::Close ==> {
            &&& size == SizeSign::Positive
            &&& pnl_decision(pos, size, sig).1 == pos
            &&& (pos == Position::Sell && sig.low_below_line && !sig.open_above_sar)
                || (pos == Position::Buy && sig.high_above_line && !sig.open_below_sar)
        },
        !sig.open_above_sar && sig.low_below_line ==> pnl_decision(
            Position::Sell,
            SizeSign::Positive,
            sig,
        ).0 == Trade::Close,
        !sig.open_below_sar && sig.high_above_line ==> pnl_decision(
            Position::Buy,
            SizeSign::Positive,
            sig,
        ).0 == Trade::Close,
{
}

/// The back-test closes only held positions, opens only when none is held,
/// and changes side only by opening a position on the opposite side.
pub proof fn backtest_trades_match_holdings(pos: Position, size: SizeSign, sig: Signals)
    ensures
        ({
            let (trade, next) = pnl_decision(pos, size, sig);
            &&& (trade is Close || trade is Reverse) ==> size is Positive
            &&& trade is Open ==> size is Zero
            &&& (trade is Open || trade is Reverse) ==> next == opposite(pos) && next != pos
            &&& (trade is Hold || trade is Close) ==> next == pos
        }),
{
}

/// What is held after a trade when prices are positive: an entry leaves a
/// position of positive size, a close leaves none, holding changes nothing.
pub open spec fn holding_after(size: SizeSign, trade: Trade) -> SizeSign {
    match trade {
        Trade::Open | Trade::Reverse => SizeSign::Positive,
        Trade::Close => SizeSign::Zero,
        Trade::Hold => size,
    }
}

/// The trades of the back-test over successive candles, from side `pos` and
/// holding `size`.
pub open spec fn backtest_run(pos: Position, size: SizeSign, sigs: Seq<Signals>) -> Seq<Trade>
    decreases sigs.len(),
{
    if sigs.len() == 0 {
        Seq::empty()
    } else {
        let (trade, next) = pnl_decision(pos, size, sigs[0]);
        seq![trade] + backtest_run(next, holding_after(size, trade), sigs.drop_first())
    }
}

/// Whether a trade closes a position (alone or by reversing it).
pub open spec fn is_close(trade: Trade) -> bool {
    trade is Close || trade is Reverse
}

/// How many trades close a position.
pub open spec fn closes(trades: Seq<Trade>) -> nat
    decreases trades.len(),
{
    if trades.len() == 0 {
        0
    } else {
        (if is_close(trades[0]) { 1nat } else { 0nat }) + closes(trades.drop_first())
    }
}

/// No SAR crossing on any candle: the open is never strictly above nor below the SAR.
pub open spec fn no_crossing(sigs: Seq<Signals>) -> bool {
    forall|i: int| 0 <= i < sigs.len() ==> !(#[trigger] sigs[i]).open_above_sar && !sigs[i].open_below_sar
}

proof fn run_len(pos: Position, size: SizeSign, sigs: Seq<Signals>)
    ensures
        backtest_run(pos, size, sigs).len() == sigs.len(),
    decreases sigs.len(),
{
    if sigs.len() > 0 {
        let (trade, next) = pnl_decision(pos, size, sigs[0]);
        run_len(next, holding_after(size, trade), sigs.drop_first());
    }
}

/// The back-test starts with nothing held, so its first candle never closes a
/// position.
pub proof fn backtest_first_candle_never_closes(open_above_sar: bool, sigs: Seq<Signals>)
    requires
        sigs.len() > 0,
    ensures
        !is_close(backtest_run(spec_opening_position(open_above_sar), SizeSign::Zero, sigs)[0]),
{
}

proof fn closes_bound(pos: Position, size: SizeSign, sigs: Seq<Signals>)
    requires
        sigs.len() > 0,
    ensures
        size is Positive ==> closes(backtest_run(pos, size, sigs)) <= sigs.len(),
        !(size is Positive) ==> closes(backtest_run(pos, size, sigs)) <= sigs.len() - 1,
    decreases sigs.len(),
{
    let (trade, next) = pnl_decision(pos, size, sigs[0]);
    let rest = sigs.drop_first();
    let run = backtest_run(pos, size, sigs);
    assert(run.drop_first() =~= backtest_run(next, holding_after(size, trade), rest));
    if rest.len() > 0 {
        closes_bound(next, holding_after(size, trade), rest);
    } else {
        assert(backtest_run(next, holding_after(size, trade), rest) =~= Seq::<Trade>::empty());
    }
}

/// Starting with nothing held, the back-test closes at most one position per
/// candle after the first.
pub proof fn backtest_closes_at_most_candles_minus_one(pos: Position, sigs: Seq<Signals>)
    requires
        sigs.len() > 0,
    ensures
        closes(backtest_run(pos, SizeSign::Zero, sigs)) <= sigs.len() - 1,
{
    closes_bound(pos, SizeSign::Zero, sigs);
}

/// Without a SAR crossing the back-test never opens or reverses a position.
pub proof fn backtest_no_entry_without_crossing(pos: Position, size: SizeSign, sigs: Seq<Signals>)
    requires
        no_crossing(sigs),
    ensures
        forall|i: int| 0 <= i < sigs.len() ==> {
            let t = #[trigger] backtest_run(pos, size, sigs)[i];
            !(t is Open) && !(t is Reverse)
        },
    decreases sigs.len(),
{
    run_len(pos, size, sigs);
    if sigs.len() > 0 {
        let (trade, next) = pnl_decision(pos, size, sigs[0]);
        let rest = sigs.drop_first();
        assert(no_crossing(rest)) by {
            assert forall|i: int| 0 <= i < rest.len() implies !(#[trigger] rest[i]).open_above_sar && !rest[i].open_below_sar by {
                assert(rest[i] == sigs[i + 1]);
            }
        }
        backtest_no_entry_without_crossing(next, holding_after(size, trade), rest);
        let run = backtest_run(pos, size, sigs);
        assert(sigs[0] == sigs[0]);
        assert forall|i: int| 0 <= i < sigs.len() implies {
            let t = #[trigger] run[i];
            !(t is Open) && !(t is Reverse)
        } by {
            if i > 0 {
                assert(run[i] == backtest_run(next, holding_after(size, trade), rest)[i - 1]);
            }
        }
    }
}

} // verus!
