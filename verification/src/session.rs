use std::collections::VecDeque;
use vstd::prelude::*;

use crate::signal::TradingSignal;

verus! {

/// Trades kept on the tape.
pub const MAX_TRADES: usize = 200;

/// Liquidations kept on the liquidation feed.
pub const MAX_LIQS: usize = 100;

/// Prices kept in the price history.
pub const MAX_PRICE_HIST: usize = 300;

/// A signal is due on every trade whose running count is a multiple of this.
pub const SIGNAL_EVERY: u64 = 30;

/// Frames for which a large liquidation keeps the alert lit.
pub const LIQ_ALERT_TICKS: u32 = 60;

/// Prices the signal engine needs before it computes anything.
pub const MIN_SIGNAL_HISTORY: usize = 20;

/// A newest-first log after `x` arrives: `x` in front, at most `cap` entries.
pub open spec fn push_newest<X>(log: Seq<X>, x: X, cap: nat) -> Seq<X> {
    let grown = seq![x] + log;
    if grown.len() > cap {
        grown.take(cap as int)
    } else {
        grown
    }
}

/// A chronological window after `x` arrives: `x` at the end, the oldest
/// entries dropped so that at most `cap` remain.
pub open spec fn push_oldest_out<X>(hist: Seq<X>, x: X, cap: nat) -> Seq<X> {
    let grown = hist.push(x);
    if grown.len() > cap {
        grown.skip(grown.len() - cap)
    } else {
        grown
    }
}

/// Whether a liquidation's order side marks a long position being closed.
pub open spec fn is_long_side(side: Seq<char>) -> bool {
    side == "SELL"@
}

/// An order side of "SELL" means a long position was liquidated; "BUY",
/// and any other side, counts as a short one.
pub proof fn law_liq_sides(side: Seq<char>)
    ensures
        is_long_side("SELL"@),
        !is_long_side("BUY"@),
        side != "SELL"@ ==> !is_long_side(side),
{
    reveal_strlit("SELL");
    reveal_strlit("BUY");
    assert("SELL"@.len() != "BUY"@.len());
}

/// The alert counter after one frame.
pub open spec fn tick_down(a: nat) -> nat {
    if a > 0 {
        (a - 1) as nat
    } else {
        0
    }
}


/// The newest-first log left by recording `xs` in order into an empty log.
pub open spec fn tape_of<X>(xs: Seq<X>, cap: nat) -> Seq<X>
    decreases xs.len(),
{
    if xs.len() == 0 {
        Seq::empty()
    } else {
        push_newest(tape_of(xs.drop_last(), cap), xs.last(), cap)
    }
}

/// The chronological window left by recording `xs` in order into an empty one.
pub open spec fn window_of<X>(xs: Seq<X>, cap: nat) -> Seq<X>
    decreases xs.len(),
{
    if xs.len() == 0 {
        Seq::empty()
    } else {
        push_oldest_out(window_of(xs.drop_last(), cap), xs.last(), cap)
    }
}

/// How many of the first `n` trades of a session make a signal due.
pub open spec fn signals_due(n: nat) -> nat
    decreases n,
{
    if n == 0 {
        0
    } else {
        signals_due((n - 1) as nat) + if n % (SIGNAL_EVERY as nat) == 0 {
            1nat
        } else {
            0nat
        }
    }
}

/// The alert counter after `k` frames.
pub open spec fn ticks_down(a: nat, k: nat) -> nat
    decreases k,
{
    if k == 0 {
        a
    } else {
        tick_down(ticks_down(a, (k - 1) as nat))
    }
}

/// A tape shows the newest `cap` records, newest first: after recording `xs`
/// it holds `min(cap, |xs|)` entries, and entry `i` is the `i`-th most recent
/// record.
pub proof fn law_tape_keeps_newest<X>(xs: Seq<X>, cap: nat)
    ensures
        tape_of(xs, cap).len() == if xs.len() < cap {
            xs.len()
        } else {
            cap
        },
        forall|i: int|
            0 <= i < tape_of(xs, cap).len() ==> #[trigger] tape_of(xs, cap)[i] == xs[xs.len() - 1
                - i],
    decreases xs.len(),
{
    if xs.len() > 0 {
        law_tape_keeps_newest(xs.drop_last(), cap);
    }
}

/// A window shows the latest `cap` records in arrival order: after recording
/// `xs` it is the last `min(cap, |xs|)` of them.
pub proof fn law_window_keeps_latest<X>(xs: Seq<X>, cap: nat)
    ensures
        window_of(xs, cap) == xs.skip(
            xs.len() - if xs.len() < cap {
                xs.len()
            } else {
                cap
            },
        ),
    decreases xs.len(),
{
    if xs.len() > 0 {
        let prev = xs.drop_last();
        law_window_keeps_latest(prev, cap);
        let m = if prev.len() < cap {
            prev.len()
        } else {
            cap
        };
        let w = prev.skip(prev.len() - m);
        let grown = w.push(xs.last());
        assert(grown =~= xs.skip(prev.len() - m));
        if grown.len() > cap {
            assert(grown.skip(grown.len() - cap) =~= xs.skip(xs.len() - cap));
        }
    } else {
        assert(xs.skip(0) =~= xs);
    }
}

/// A signal is due exactly once in every `SIGNAL_EVERY` trades: of the first
/// `n` trades of a session, `n / SIGNAL_EVERY` make one due.
pub proof fn law_signal_cadence(n: nat)
    ensures
        signals_due(n) == n / (SIGNAL_EVERY as nat),
    decreases n,
{
    if n > 0 {
        law_signal_cadence((n - 1) as nat);
        let m = (n - 1) as nat;
        assert(n / 30 == if n % 30 == 0 { m / 30 + 1 } else { m / 30 }) by (nonlinear_arith)
            requires n == m + 1;
    }
}

/// The alert fades one frame at a time and stops at zero: after `k` frames
/// it is `a - k`, or zero once `k` reaches `a`.
pub proof fn law_alert_fades(a: nat, k: nat)
    ensures
        ticks_down(a, k) == if k <= a {
            (a - k) as nat
        } else {
            0nat
        },
    decreases k,
{
    if k > 0 {
        law_alert_fades(a, (k - 1) as nat);
    }
}

/// The session state of the terminal: the trade tape, the liquidation feed,
/// the price history and the counters of the current session.
pub struct Session<T, L, P> {
    trades: VecDeque<T>,
    liquidations: VecDeque<L>,
    price_history: VecDeque<P>,
    whale_count: u32,
    liq_count_long: u32,
    liq_count_short: u32,
    signal: Option<TradingSignal<P>>,
    signal_tick: u64,
    liq_alert_ticks: u32,
}

impl<T, L, P> Session<T, L, P> {
    /// Trades on the tape, newest first.
    pub closed spec fn trade_log(&self) -> Seq<T> {
        self.trades@
    }

    /// Liquidations on the feed, newest first.
    pub closed spec fn liq_log(&self) -> Seq<L> {
        self.liquidations@
    }

    /// Recent trade prices, oldest first.
    pub closed spec fn price_log(&self) -> Seq<P> {
        self.price_history@
    }

    /// Whale trades seen in this session.
    pub closed spec fn whales(&self) -> nat {
        self.whale_count as nat
    }

    /// Liquidated long positions seen in this session.
    pub closed spec fn long_liqs(&self) -> nat {
        self.liq_count_long as nat
    }

    /// Liquidated short positions seen in this session.
    pub closed spec fn short_liqs(&self) -> nat {
        self.liq_count_short as nat
    }

    /// Trades seen in this session.
    pub closed spec fn trades_seen(&self) -> nat {
        self.signal_tick as nat
    }

    /// Frames left on the large-liquidation alert.
    pub closed spec fn alert_ticks(&self) -> nat {
        self.liq_alert_ticks as nat
    }

    /// The last signal computed in this session.
    pub closed spec fn current_signal(&self) -> Option<TradingSignal<P>> {
        self.signal
    }

    /// What every state of a session satisfies.
    pub closed spec fn wf(&self) -> bool {
        &&& self.trades@.len() <= MAX_TRADES
        &&& self.liquidations@.len() <= MAX_LIQS
        &&& self.price_history@.len() <= MAX_PRICE_HIST
        &&& self.liquidations@.len() <= self.liq_count_long + self.liq_count_short
        &&& self.whale_count <= self.signal_tick
        &&& self.liq_alert_ticks <= LIQ_ALERT_TICKS
    }

    /// What holds of every session: the logs stay within their capacities,
    /// the liquidation feed never shows more entries than liquidations counted
    /// in the session, whale trades never outnumber trades, and the alert never
    /// exceeds its full length.
    pub proof fn law_session_bounds(&self)
        requires
            self.wf(),
        ensures
            self.trade_log().len() <= MAX_TRADES,
            self.liq_log().len() <= MAX_LIQS,
            self.price_log().len() <= MAX_PRICE_HIST,
            self.liq_log().len() <= self.long_liqs() + self.short_liqs(),
            self.whales() <= self.trades_seen(),
            self.alert_ticks() <= LIQ_ALERT_TICKS,
    {
    }

    /// An empty session.
    pub fn new() -> (s: Self)
        ensures
            s.wf(),
            s.trade_log() == Seq::<T>::empty(),
            s.liq_log() == Seq::<L>::empty(),
            s.price_log() == Seq::<P>::empty(),
            s.whales() == 0,
            s.long_liqs() == 0,
            s.short_liqs() == 0,
            s.trades_seen() == 0,
            s.alert_ticks() == 0,
            s.current_signal() is None,
    {
        Session {
            trades: VecDeque::with_capacity(MAX_TRADES),
            liquidations: VecDeque::with_capacity(MAX_LIQS),
            price_history: VecDeque::with_capacity(MAX_PRICE_HIST),
            whale_count: 0,
            liq_count_long: 0,
            liq_count_short: 0,
            signal: None,
            signal_tick: 0,
            liq_alert_ticks: 0,
        }
    }

    /// Records a trade at `price`; `is_whale` marks a whale trade. Returns
    /// whether a new signal is due after this trade.
    pub fn add_trade(&mut self, trade: T, price: P, is_whale: bool) -> (signal_due: bool)
        requires
            old(self).wf(),
            old(self).trades_seen() < u64::MAX,
            is_whale ==> old(self).whales() < u32::MAX,
        ensures
            final(self).wf(),
            final(self).trade_log() == push_newest(old(self).trade_log(), trade, MAX_TRADES as nat),
            final(self).price_log() == push_oldest_out(
                old(self).price_log(),
                price,
                MAX_PRICE_HIST as nat,
            ),
            final(self).whales() == old(self).whales() + if is_whale {
                1nat
            } else {
                0nat
            },
            final(self).trades_seen() == old(self).trades_seen() + 1,
            signal_due == (final(self).trades_seen() % (SIGNAL_EVERY as nat) == 0),
            final(self).liq_log() == old(self).liq_log(),
            final(self).long_liqs() == old(self).long_liqs(),
            final(self).short_liqs() == old(self).short_liqs(),
            final(self).alert_ticks() == old(self).alert_ticks(),
            final(self).current_signal() == old(self).current_signal(),
    {
        if is_whale {
            self.whale_count = self.whale_count + 1;
        }
        self.price_history.push_back(price);
        if self.price_history.len() > MAX_PRICE_HIST {
            self.price_history.pop_front();
        }
        self.trades.push_front(trade);
        if self.trades.len() > MAX_TRADES {
            self.trades.pop_back();
        }
        self.signal_tick = self.signal_tick + 1;
        proof {
            let ghost old_prices = old(self).price_history@;
            let ghost grown = old_prices.push(price);
            if grown.len() > MAX_PRICE_HIST {
                assert(grown.skip(grown.len() - MAX_PRICE_HIST) =~= grown.subrange(1, grown.len() as int));
            }
            let ghost old_trades = old(self).trades@;
            let ghost grown_t = seq![trade] + old_trades;
            if grown_t.len() > MAX_TRADES {
                assert(grown_t.take(MAX_TRADES as int) =~= grown_t.subrange(0, grown_t.len() - 1));
            }
        }
        self.signal_tick % SIGNAL_EVERY == 0
    }

    /// Records a liquidation whose order side is `side`; `is_large` marks one
    /// large enough to light the alert.
    pub fn add_liq(&mut self, liq: L, side: &str, is_large: bool)
        requires
            old(self).wf(),
            is_long_side(side@) ==> old(self).long_liqs() < u32::MAX,
            !is_long_side(side@) ==> old(self).short_liqs() < u32::MAX,
        ensures
            final(self).wf(),
            final(self).liq_log() == push_newest(old(self).liq_log(), liq, MAX_LIQS as nat),
            final(self).long_liqs() == old(self).long_liqs() + if is_long_side(side@) {
                1nat
            } else {
                0nat
            },
            final(self).short_liqs() == old(self).short_liqs() + if is_long_side(side@) {
                0nat
            } else {
                1nat
            },
            final(self).alert_ticks() == if is_large {
                LIQ_ALERT_TICKS as nat
            } else {
                old(self).alert_ticks()
            },
            final(self).trade_log() == old(self).trade_log(),
            final(self).price_log() == old(self).price_log(),
            final(self).whales() == old(self).whales(),
            final(self).trades_seen() == old(self).trades_seen(),
            final(self).current_signal() == old(self).current_signal(),
    {
        if crate::text::text_eq(side, "SELL") {
            self.liq_count_long = self.liq_count_long + 1;
        } else {
            self.liq_count_short = self.liq_count_short + 1;
        }
        if is_large {
            self.liq_alert_ticks = LIQ_ALERT_TICKS;
        }
        self.liquidations.push_front(liq);
        if self.liquidations.len() > MAX_LIQS {
            self.liquidations.pop_back();
        }
        proof {
            let ghost grown = seq![liq] + old(self).liquidations@;
            if grown.len() > MAX_LIQS {
                assert(grown.take(MAX_LIQS as int) =~= grown.subrange(0, grown.len() - 1));
            }
        }
    }

    /// Advances the alert by one frame.
    pub fn tick(&mut self)
        requires
            old(self).wf(),
        ensures
            final(self).wf(),
            final(self).alert_ticks() == tick_down(old(self).alert_ticks()),
            final(self).trade_log() == old(self).trade_log(),
            final(self).liq_log() == old(self).liq_log(),
            final(self).price_log() == old(self).price_log(),
            final(self).whales() == old(self).whales(),
            final(self).long_liqs() == old(self).long_liqs(),
            final(self).short_liqs() == old(self).short_liqs(),
            final(self).trades_seen() == old(self).trades_seen(),
            final(self).current_signal() == old(self).current_signal(),
    {
        if self.liq_alert_ticks > 0 {
            self.liq_alert_ticks = self.liq_alert_ticks - 1;
        }
    }

    /// Starts a new session: the counters, the signal and the liquidation
    /// feed are cleared; the trade tape and the price history stay.
    pub fn reset_session(&mut self)
        requires
            old(self).wf(),
        ensures
            final(self).wf(),
            final(self).whales() == 0,
            final(self).long_liqs() == 0,
            final(self).short_liqs() == 0,
            final(self).trades_seen() == 0,
            final(self).current_signal() is None,
            final(self).liq_log() == Seq::<L>::empty(),
            final(self).trade_log() == old(self).trade_log(),
            final(self).price_log() == old(self).price_log(),
            final(self).alert_ticks() == old(self).alert_ticks(),
    {
        self.whale_count = 0;
        self.liq_count_long = 0;
        self.liq_count_short = 0;
        self.signal = None;
        self.signal_tick = 0;
        self.liquidations.clear();
    }

    /// Stores a freshly computed signal.
    pub fn set_signal(&mut self, signal: TradingSignal<P>)
        requires
            old(self).wf(),
        ensures
            final(self).wf(),
            final(self).current_signal() == Some(signal),
            final(self).trade_log() == old(self).trade_log(),
            final(self).liq_log() == old(self).liq_log(),
            final(self).price_log() == old(self).price_log(),
            final(self).whales() == old(self).whales(),
            final(self).long_liqs() == old(self).long_liqs(),
            final(self).short_liqs() == old(self).short_liqs(),
            final(self).trades_seen() == old(self).trades_seen(),
            final(self).alert_ticks() == old(self).alert_ticks(),
    {
        self.signal = Some(signal);
    }

    /// Whether the price history is long enough for the signal engine.
    pub fn has_signal_history(&self) -> (b: bool)
        ensures
            b == (self.price_log().len() >= MIN_SIGNAL_HISTORY),
    {
        self.price_history.len() >= MIN_SIGNAL_HISTORY
    }

    /// Liquidations of either side seen in this session.
    pub fn liquidation_count(&self) -> (n: u32)
        requires
            self.long_liqs() + self.short_liqs() <= u32::MAX,
        ensures
            n == self.long_liqs() + self.short_liqs(),
    {
        self.liq_count_long + self.liq_count_short
    }

    /// The trade tape, newest first.
    pub fn trades(&self) -> (r: &VecDeque<T>)
        ensures
            r@ == self.trade_log(),
    {
        &self.trades
    }

    /// The liquidation feed, newest first.
    pub fn liquidations(&self) -> (r: &VecDeque<L>)
        ensures
            r@ == self.liq_log(),
    {
        &self.liquidations
    }

    /// The price history, oldest first.
    pub fn price_history(&self) -> (r: &VecDeque<P>)
        ensures
            r@ == self.price_log(),
    {
        &self.price_history
    }

    /// Whale trades in this session.
    pub fn whale_count(&self) -> (n: u32)
        ensures
            n == self.whales(),
    {
        self.whale_count
    }

    /// Long liquidations in this session.
    pub fn liq_count_long(&self) -> (n: u32)
        ensures
            n == self.long_liqs(),
    {
        self.liq_count_long
    }

    /// Short liquidations in this session.
    pub fn liq_count_short(&self) -> (n: u32)
        ensures
            n == self.short_liqs(),
    {
        self.liq_count_short
    }

    /// Trades in this session.
    pub fn signal_tick(&self) -> (n: u64)
        ensures
            n == self.trades_seen(),
    {
        self.signal_tick
    }

    /// Frames left on the large-liquidation alert.
    pub fn liq_alert_ticks(&self) -> (n: u32)
        ensures
            n == self.alert_ticks(),
    {
        self.liq_alert_ticks
    }

    /// The last signal of this session.
    pub fn signal(&self) -> (r: &Option<TradingSignal<P>>)
        ensures
            *r == self.current_signal(),
    {
        &self.signal
    }
}

} // verus!
