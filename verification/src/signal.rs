use vstd::prelude::*;

verus! {

/// Direction of a trading signal.
#[derive(Clone, Copy, Debug, PartialEq, Eq, Structural)]
pub enum SignalType {
    Long,
    Short,
    Neutral,
}

/// The text shown for each direction.
pub open spec fn signal_label(t: SignalType) -> Seq<char> {
    match t {
        SignalType::Long => "LONG  ▲"@,
        SignalType::Short => "SHORT ▼"@,
        SignalType::Neutral => "NEUTRAL"@,
    }
}

/// Each direction is shown by its own name (with an arrow for long and
/// short), all three labels are seven characters wide, and no two directions
/// share a label.
pub proof fn law_labels(t: SignalType, u: SignalType)
    ensures
        signal_label(t).len() == 7,
        t != u ==> signal_label(t) != signal_label(u),
        signal_label(SignalType::Long).take(4) == "LONG"@,
        signal_label(SignalType::Short).take(5) == "SHORT"@,
        signal_label(SignalType::Neutral) == "NEUTRAL"@,
{
    reveal_strlit("LONG  ▲");
    reveal_strlit("SHORT ▼");
    reveal_strlit("NEUTRAL");
    reveal_strlit("LONG");
    reveal_strlit("SHORT");
    assert("LONG  ▲"@.take(4) =~= "LONG"@);
    assert("SHORT ▼"@.take(5) =~= "SHORT"@);
    assert("LONG  ▲"@[0] != "SHORT ▼"@[0]);
    assert("LONG  ▲"@[0] != "NEUTRAL"@[0]);
    assert("SHORT ▼"@[0] != "NEUTRAL"@[0]);
}

impl SignalType {
    /// The display text of the direction.
    pub fn label(&self) -> (text: String)
        ensures
            text@ == signal_label(*self),
    {
        match self {
            SignalType::Long => String::from_str("LONG  ▲"),
            SignalType::Short => String::from_str("SHORT ▼"),
            SignalType::Neutral => String::from_str("NEUTRAL"),
        }
    }
}

/// A trading signal. The numeric fields are carried, not computed, by this
/// library, so their type is a parameter.
#[derive(Clone, Debug)]
pub struct TradingSignal<P> {
    pub signal_type: SignalType,
    pub entry_price: P,
    pub stop_loss: P,
    pub take_profit_1: P,
    pub take_profit_2: P,
    pub take_profit_3: P,
    pub risk_reward: P,
    pub confidence: P,
    pub reasoning: String,
    pub timestamp: u64,
}

/// Whether the signal calls for a long position.
pub fn is_bullish<P>(s: &TradingSignal<P>) -> (b: bool)
    ensures
        b <==> s.signal_type == SignalType::Long,
{
    s.signal_type == SignalType::Long
}

/// Whether the signal calls for a short position.
pub fn is_bearish<P>(s: &TradingSignal<P>) -> (b: bool)
    ensures
        b <==> s.signal_type == SignalType::Short,
{
    s.signal_type == SignalType::Short
}

/// No signal is both bullish and bearish, and a neutral signal is neither.
pub proof fn law_direction_exclusive<P>(s: TradingSignal<P>)
    ensures
        !(s.signal_type == SignalType::Long && s.signal_type == SignalType::Short),
        s.signal_type == SignalType::Neutral ==> !(s.signal_type == SignalType::Long)
            && !(s.signal_type == SignalType::Short),
{
}

/// The conditions behind a signal, each judged by the signal engine.
#[derive(Clone, Copy, Debug, PartialEq, Eq, Structural)]
pub struct SignalFactors {
    pub bid_heavy: bool,
    pub ask_heavy: bool,
    pub buy_pressure: bool,
    pub sell_pressure: bool,
    pub upward_momentum: bool,
    pub downward_momentum: bool,
    pub short_liqs: bool,
    pub long_liqs: bool,
}

/// `s` with `label` appended when `on` holds.
pub open spec fn add_label(s: Seq<Seq<char>>, on: bool, label: Seq<char>) -> Seq<Seq<char>> {
    if on {
        s.push(label)
    } else {
        s
    }
}

/// The names of the conditions that hold, in a fixed order.
pub open spec fn reason_labels(f: SignalFactors) -> Seq<Seq<char>> {
    let s1 = add_label(Seq::empty(), f.bid_heavy, "Bid-heavy"@);
    let s2 = add_label(s1, f.ask_heavy, "Ask-heavy"@);
    let s3 = add_label(s2, f.buy_pressure, "Buy pressure"@);
    let s4 = add_label(s3, f.sell_pressure, "Sell pressure"@);
    let s5 = add_label(s4, f.upward_momentum, "Upward momentum"@);
    let s6 = add_label(s5, f.downward_momentum, "Downward momentum"@);
    let s7 = add_label(s6, f.short_liqs, "Short liqs"@);
    add_label(s7, f.long_liqs, "Long liqs"@)
}

/// The characters of each part.
pub open spec fn part_views(parts: Seq<&str>) -> Seq<Seq<char>> {
    parts.map_values(|p: &str| p@)
}

fn push_label(parts: &mut Vec<&'static str>, on: bool, label: &'static str)
    ensures
        part_views(final(parts)@) == add_label(part_views(old(parts)@), on, label@),
{
    if on {
        parts.push(label);
        assert(part_views(parts@) =~= part_views(old(parts)@).push(label@));
    }
}

/// The parts joined in order, with `sep` between neighbours.
pub open spec fn joined(parts: Seq<Seq<char>>, sep: Seq<char>) -> Seq<char>
    decreases parts.len(),
{
    if parts.len() == 0 {
        Seq::empty()
    } else if parts.len() == 1 {
        parts[0]
    } else {
        joined(parts.drop_last(), sep) + sep + parts.last()
    }
}

/// The explanation attached to a signal.
pub open spec fn reasoning_text(f: SignalFactors) -> Seq<char> {
    if reason_labels(f).len() == 0 {
        "Weak — wait for setup"@
    } else {
        joined(reason_labels(f), " + "@)
    }
}

/// Whether `part` appears as a run of consecutive characters in `text`.
pub open spec fn occurs_in(text: Seq<char>, part: Seq<char>) -> bool {
    exists|i: int|
        0 <= i && i + part.len() <= text.len() && #[trigger] text.subrange(i, i + part.len())
            == part
}

proof fn lemma_joined_has_part(parts: Seq<Seq<char>>, sep: Seq<char>, j: int)
    requires
        0 <= j < parts.len(),
    ensures
        occurs_in(joined(parts, sep), parts[j]),
    decreases parts.len(),
{
    let t = joined(parts, sep);
    if parts.len() == 1 {
        let i: int = 0;
        assert(t.subrange(i, i + parts[j].len()) =~= parts[j]);
        assert(occurs_in(t, parts[j]));
    } else {
        let pre = parts.drop_last();
        let a = joined(pre, sep);
        assert(t == a + sep + parts.last());
        if j == parts.len() - 1 {
            let i: int = (a.len() + sep.len()) as int;
            assert(t.subrange(i, i + parts[j].len()) =~= parts[j]);
            assert(occurs_in(t, parts[j]));
        } else {
            lemma_joined_has_part(pre, sep, j);
            let i = choose|i: int|
                0 <= i && i + pre[j].len() <= a.len() && #[trigger] a.subrange(
                    i,
                    i + pre[j].len(),
                ) == pre[j];
            assert(t.subrange(i, i + parts[j].len()) =~= a.subrange(i, i + pre[j].len()));
            assert(occurs_in(t, parts[j]));
        }
    }
}

proof fn lemma_label_named(f: SignalFactors, label: Seq<char>)
    requires
        reason_labels(f).contains(label),
    ensures
        occurs_in(reasoning_text(f), label),
{
    let j = choose|j: int| 0 <= j < reason_labels(f).len() && reason_labels(f)[j] == label;
    lemma_joined_has_part(reason_labels(f), " + "@, j);
}

/// Every condition that holds is named in the explanation of a signal, and
/// the "wait for setup" notice is given exactly when no condition holds.
pub proof fn law_reasoning_names_every_condition(f: SignalFactors)
    ensures
        f.bid_heavy ==> occurs_in(reasoning_text(f), "Bid-heavy"@),
        f.ask_heavy ==> occurs_in(reasoning_text(f), "Ask-heavy"@),
        f.buy_pressure ==> occurs_in(reasoning_text(f), "Buy pressure"@),
        f.sell_pressure ==> occurs_in(reasoning_text(f), "Sell pressure"@),
        f.upward_momentum ==> occurs_in(reasoning_text(f), "Upward momentum"@),
        f.downward_momentum ==> occurs_in(reasoning_text(f), "Downward momentum"@),
        f.short_liqs ==> occurs_in(reasoning_text(f), "Short liqs"@),
        f.long_liqs ==> occurs_in(reasoning_text(f), "Long liqs"@),
        !(f.bid_heavy || f.ask_heavy || f.buy_pressure || f.sell_pressure || f.upward_momentum
            || f.downward_momentum || f.short_liqs || f.long_liqs) ==> reasoning_text(f)
            == "Weak — wait for setup"@,
{
    broadcast use vstd::seq_lib::lemma_seq_contains_after_push;

    if f.bid_heavy {
        lemma_label_named(f, "Bid-heavy"@);
    }
    if f.ask_heavy {
        lemma_label_named(f, "Ask-heavy"@);
    }
    if f.buy_pressure {
        lemma_label_named(f, "Buy pressure"@);
    }
    if f.sell_pressure {
        lemma_label_named(f, "Sell pressure"@);
    }
    if f.upward_momentum {
        lemma_label_named(f, "Upward momentum"@);
    }
    if f.downward_momentum {
        lemma_label_named(f, "Downward momentum"@);
    }
    if f.short_liqs {
        lemma_label_named(f, "Short liqs"@);
    }
    if f.long_liqs {
        lemma_label_named(f, "Long liqs"@);
    }
}

/// How many of the conditions hold.
pub open spec fn flag_count(f: SignalFactors) -> nat {
    (if f.bid_heavy { 1nat } else { 0nat }) + (if f.ask_heavy { 1nat } else { 0nat }) + (
    if f.buy_pressure { 1nat } else { 0nat }) + (if f.sell_pressure { 1nat } else { 0nat }) + (
    if f.upward_momentum { 1nat } else { 0nat }) + (if f.downward_momentum { 1nat } else { 0nat })
        + (if f.short_liqs { 1nat } else { 0nat }) + (if f.long_liqs { 1nat } else { 0nat })
}

/// The characters in the names of the conditions that hold.
pub open spec fn named_chars(f: SignalFactors) -> nat {
    (if f.bid_heavy { 9nat } else { 0nat }) + (if f.ask_heavy { 9nat } else { 0nat }) + (
    if f.buy_pressure { 12nat } else { 0nat }) + (if f.sell_pressure { 13nat } else { 0nat }) + (
    if f.upward_momentum { 15nat } else { 0nat }) + (if f.downward_momentum { 17nat } else { 0nat })
        + (if f.short_liqs { 10nat } else { 0nat }) + (if f.long_liqs { 9nat } else { 0nat })
}

spec fn lengths_sum(parts: Seq<Seq<char>>) -> nat
    decreases parts.len(),
{
    if parts.len() == 0 {
        0
    } else {
        lengths_sum(parts.drop_last()) + parts.last().len()
    }
}

proof fn lemma_joined_len(parts: Seq<Seq<char>>, sep: Seq<char>)
    requires
        parts.len() > 0,
    ensures
        joined(parts, sep).len() == lengths_sum(parts) + sep.len() * (parts.len() - 1),
    decreases parts.len(),
{
    if parts.len() > 1 {
        lemma_joined_len(parts.drop_last(), sep);
        assert(sep.len() * (parts.len() - 1) == sep.len() * (parts.len() - 2) + sep.len())
            by (nonlinear_arith)
            requires parts.len() > 1;
        assert(joined(parts, sep).len() == joined(parts.drop_last(), sep).len() + sep.len()
            + parts.last().len());
    } else {
        assert(parts.drop_last().len() == 0);
        assert(lengths_sum(parts.drop_last()) == 0);
        assert(parts.last() == parts[0]);
    }
}

proof fn lemma_add_label(s: Seq<Seq<char>>, on: bool, label: Seq<char>)
    ensures
        add_label(s, on, label).len() == s.len() + if on { 1nat } else { 0nat },
        lengths_sum(add_label(s, on, label)) == lengths_sum(s) + if on { label.len() } else { 0nat },
{
    if on {
        assert(s.push(label).drop_last() =~= s);
    }
}

/// The explanation names each condition that holds once and nothing else:
/// it has one name per condition that holds, and its length is the length of
/// those names plus one " + " between neighbours (or the length of the notice
/// when none holds).
pub proof fn law_reasoning_length(f: SignalFactors)
    ensures
        reason_labels(f).len() == flag_count(f),
        reasoning_text(f).len() == if flag_count(f) == 0 {
            21
        } else {
            named_chars(f) + 3 * (flag_count(f) - 1)
        },
{
    reveal_strlit("Bid-heavy");
    reveal_strlit("Ask-heavy");
    reveal_strlit("Buy pressure");
    reveal_strlit("Sell pressure");
    reveal_strlit("Upward momentum");
    reveal_strlit("Downward momentum");
    reveal_strlit("Short liqs");
    reveal_strlit("Long liqs");
    reveal_strlit(" + ");
    reveal_strlit("Weak — wait for setup");
    let s0 = Seq::<Seq<char>>::empty();
    let s1 = add_label(s0, f.bid_heavy, "Bid-heavy"@);
    let s2 = add_label(s1, f.ask_heavy, "Ask-heavy"@);
    let s3 = add_label(s2, f.buy_pressure, "Buy pressure"@);
    let s4 = add_label(s3, f.sell_pressure, "Sell pressure"@);
    let s5 = add_label(s4, f.upward_momentum, "Upward momentum"@);
    let s6 = add_label(s5, f.downward_momentum, "Downward momentum"@);
    let s7 = add_label(s6, f.short_liqs, "Short liqs"@);
    let s8 = add_label(s7, f.long_liqs, "Long liqs"@);
    assert(lengths_sum(s0) == 0);
    lemma_add_label(s0, f.bid_heavy, "Bid-heavy"@);
    lemma_add_label(s1, f.ask_heavy, "Ask-heavy"@);
    lemma_add_label(s2, f.buy_pressure, "Buy pressure"@);
    lemma_add_label(s3, f.sell_pressure, "Sell pressure"@);
    lemma_add_label(s4, f.upward_momentum, "Upward momentum"@);
    lemma_add_label(s5, f.downward_momentum, "Downward momentum"@);
    lemma_add_label(s6, f.short_liqs, "Short liqs"@);
    lemma_add_label(s7, f.long_liqs, "Long liqs"@);
    assert(s8 == reason_labels(f));
    assert(lengths_sum(s8) == named_chars(f));
    if flag_count(f) > 0 {
        lemma_joined_len(s8, " + "@);
    }
}

/// Explains a signal: the names of the conditions that hold, joined by
/// " + ", or a notice that there is no setup yet.
pub fn reasoning(f: &SignalFactors) -> (text: String)
    ensures
        text@ == reasoning_text(*f),
        f.bid_heavy ==> occurs_in(text@, "Bid-heavy"@),
        f.ask_heavy ==> occurs_in(text@, "Ask-heavy"@),
        f.buy_pressure ==> occurs_in(text@, "Buy pressure"@),
        f.sell_pressure ==> occurs_in(text@, "Sell pressure"@),
        f.upward_momentum ==> occurs_in(text@, "Upward momentum"@),
        f.downward_momentum ==> occurs_in(text@, "Downward momentum"@),
        f.short_liqs ==> occurs_in(text@, "Short liqs"@),
        f.long_liqs ==> occurs_in(text@, "Long liqs"@),
{
    let text = reasoning_joined(f);
    proof {
        law_reasoning_names_every_condition(*f);
    }
    text
}

fn reasoning_joined(f: &SignalFactors) -> (text: String)
    ensures
        text@ == reasoning_text(*f),
{
    let mut parts: Vec<&'static str> = Vec::new();
    assert(part_views(parts@) =~= Seq::<Seq<char>>::empty());
    push_label(&mut parts, f.bid_heavy, "Bid-heavy");
    push_label(&mut parts, f.ask_heavy, "Ask-heavy");
    push_label(&mut parts, f.buy_pressure, "Buy pressure");
    push_label(&mut parts, f.sell_pressure, "Sell pressure");
    push_label(&mut parts, f.upward_momentum, "Upward momentum");
    push_label(&mut parts, f.downward_momentum, "Downward momentum");
    push_label(&mut parts, f.short_liqs, "Short liqs");
    push_label(&mut parts, f.long_liqs, "Long liqs");
    let ghost views = part_views(parts@);
    if parts.len() == 0 {
        return String::from_str("Weak — wait for setup");
    }
    let mut text = String::new();
    let n = parts.len();
    for i in 0..n
        invariant
            n == parts.len(),
            views == part_views(parts@),
            text@ == joined(views.take(i as int), " + "@),
    {
        if i != 0 {
            text.append(" + ");
        }
        text.append(parts[i]);
        assert(views.take(i + 1).drop_last() =~= views.take(i as int));
    }
    assert(views.take(n as int) =~= views);
    text
}

/// Prices that one momentum window averages.
pub const MOMENTUM_SPAN: usize = 5;

/// Steps of price change that the average true range covers.
pub const ATR_PERIOD: usize = 14;

/// Where the average true range starts reading a price history of `len`
/// entries: the last `period + 1` prices, or all of them when there are fewer;
/// nothing when fewer than two prices would be read.
pub open spec fn atr_start(len: nat, period: nat) -> Option<nat> {
    if len < 2 {
        None
    } else {
        let start: nat = if len > period + 1 { (len - (period + 1)) as nat } else { 0 };
        if len - start < 2 {
            None
        } else {
            Some(start)
        }
    }
}

/// The start of the price window that the average true range reads.
pub fn atr_window_start(len: usize, period: usize) -> (start: Option<usize>)
    requires
        period < usize::MAX,
    ensures
        match start {
            Some(s) => atr_start(len as nat, period as nat) == Some(s as nat),
            None => atr_start(len as nat, period as nat) is None,
        },
{
    if len < 2 {
        return None;
    }
    let s = len.saturating_sub(period + 1);
    if len - s < 2 {
        return None;
    }
    Some(s)
}

/// The window read by the average true range is the last `min(len, period + 1)`
/// prices, and it always spans at least one step of change.
pub proof fn law_atr_window(len: nat, period: nat)
    ensures
        atr_start(len, period) matches Some(s) ==> {
            &&& len - s == if len < period + 1 { len } else { period + 1 }
            &&& len - s >= 2
        },
        atr_start(len, period) is None <==> (len < 2 || period == 0),
{
}

/// The starts of the two momentum windows over a history of `n` prices: the
/// latest `MOMENTUM_SPAN` prices, and the `MOMENTUM_SPAN` prices before them;
/// a window is absent when the history is too short for it.
pub fn momentum_windows(n: usize) -> (w: (Option<usize>, Option<usize>))
    ensures
        w.0 == if n >= MOMENTUM_SPAN { Some((n - MOMENTUM_SPAN) as usize) } else { None::<usize> },
        w.1 == if n >= 2 * MOMENTUM_SPAN { Some((n - 2 * MOMENTUM_SPAN) as usize) } else { None::<usize> },
{
    let recent = if n >= MOMENTUM_SPAN { Some(n - MOMENTUM_SPAN) } else { None };
    let prior = if n >= 2 * MOMENTUM_SPAN { Some(n - 2 * MOMENTUM_SPAN) } else { None };
    (recent, prior)
}

} // verus!
