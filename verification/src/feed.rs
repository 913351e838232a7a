use vstd::prelude::*;

use crate::layout::{dot_text, status_dot};
use crate::text::text_eq;

verus! {

/// A field of a feed message, as the readers below see it.
#[derive(Clone, Debug, PartialEq, Eq)]
pub enum Field {
    /// A JSON number, with its value when that is an unsigned integer that
    /// fits in `u64`.
    Number(Option<u64>),
    /// A JSON string.
    Text(String),
    /// Anything else, a missing field included.
    Other,
}

/// Whether `c` is an ASCII decimal digit.
pub open spec fn is_digit(c: char) -> bool {
    '0' <= c && c <= '9'
}

/// Whether every character of `ds` is a decimal digit.
pub open spec fn all_digits(ds: Seq<char>) -> bool {
    forall|i: int| 0 <= i < ds.len() ==> is_digit(#[trigger] ds[i])
}

/// The value of a string of decimal digits, most significant first.
pub open spec fn decimal_value(ds: Seq<char>) -> nat
    decreases ds.len(),
{
    if ds.len() == 0 {
        0
    } else {
        decimal_value(ds.drop_last()) * 10 + (ds.last() as nat - '0' as nat) as nat
    }
}

/// The digits of an unsigned number: the text without one leading `+`.
pub open spec fn unsigned_digits(s: Seq<char>) -> Seq<char> {
    if s.len() > 0 && s[0] == '+' {
        s.drop_first()
    } else {
        s
    }
}

/// The unsigned integer that a text denotes: an optional `+` followed by one
/// or more decimal digits, whose value fits in `u64`; nothing otherwise.
pub open spec fn parse_u64_spec(s: Seq<char>) -> Option<u64> {
    let ds = unsigned_digits(s);
    if ds.len() > 0 && all_digits(ds) && decimal_value(ds) <= u64::MAX {
        Some(decimal_value(ds) as u64)
    } else {
        None
    }
}

proof fn lemma_decimal_prefix_le(ds: Seq<char>, k: int)
    requires
        0 <= k <= ds.len(),
        all_digits(ds),
    ensures
        decimal_value(ds.take(k)) <= decimal_value(ds),
    decreases ds.len(),
{
    if k < ds.len() {
        let prev = ds.drop_last();
        assert(prev.take(k) =~= ds.take(k));
        lemma_decimal_prefix_le(prev, k);
    } else {
        assert(ds.take(k) =~= ds);
    }
}

/// A single digit reads as its own value.
pub proof fn law_parse_single_digit(c: char)
    requires
        is_digit(c),
    ensures
        parse_u64_spec(seq![c]) == Some((c as int - '0' as int) as u64),
{
    let ds = seq![c];
    assert(unsigned_digits(ds) =~= ds);
    assert(ds.drop_last() =~= Seq::<char>::empty());
    assert(ds.last() == c);
    assert(decimal_value(ds.drop_last()) == 0);
    assert(decimal_value(ds) == (c as nat - '0' as nat) as nat);
    assert(all_digits(ds));
    assert(decimal_value(ds) <= 9);
}

/// Appending a digit to a readable number multiplies its value by ten and
/// adds the digit, unless that no longer fits in `u64`.
pub proof fn law_parse_append_digit(ds: Seq<char>, c: char, n: u64)
    requires
        is_digit(c),
        parse_u64_spec(ds) == Some(n),
    ensures
        parse_u64_spec(ds.push(c)) == if 10 * n + (c as int - '0' as int) <= u64::MAX {
            Some((10 * n + (c as int - '0' as int)) as u64)
        } else {
            None::<u64>
        },
{
    let u = unsigned_digits(ds);
    let u2 = unsigned_digits(ds.push(c));
    if ds[0] == '+' {
        assert(u2 =~= u.push(c));
    } else {
        assert(u2 =~= u.push(c));
    }
    assert(u2.drop_last() =~= u);
    assert(all_digits(u2));
}

/// A leading `+` does not change what a text reads as.
pub proof fn law_parse_plus_sign(ds: Seq<char>)
    requires
        ds.len() > 0,
        ds[0] != '+',
    ensures
        parse_u64_spec(seq!['+'] + ds) == parse_u64_spec(ds),
{
    assert((seq!['+'] + ds).drop_first() =~= ds);
}

/// Empty text, and text with a character other than a digit after its first
/// position, read as nothing.
pub proof fn law_parse_rejects(ds: Seq<char>, i: int)
    requires
        0 < i < ds.len(),
        !is_digit(ds[i]),
    ensures
        parse_u64_spec(Seq::<char>::empty()) is None,
        parse_u64_spec(ds) is None,
{
    let u = unsigned_digits(ds);
    if ds[0] == '+' {
        assert(u[i - 1] == ds[i]);
    } else {
        assert(u[i] == ds[i]);
    }
}

/// Reads an unsigned integer from text: an optional `+` followed by decimal
/// digits whose value fits in `u64`.
pub fn parse_u64_text(s: &str) -> (r: Option<u64>)
    ensures
        r == parse_u64_spec(s@),
{
    let n = s.unicode_len();
    let start: usize = if n > 0 && s.get_char(0) == '+' { 1 } else { 0 };
    let ghost ds = unsigned_digits(s@);
    assert(ds =~= s@.skip(start as int));
    if start >= n {
        return None;
    }
    let mut acc: u64 = 0;
    let mut i: usize = start;
    while i < n
        invariant
            start <= i <= n,
            n == s@.len(),
            start < n,
            ds =~= s@.skip(start as int),
            ds == unsigned_digits(s@),
            forall|j: int| 0 <= j < i - start ==> is_digit(#[trigger] ds[j]),
            acc as nat == decimal_value(ds.take(i - start)),
        decreases n - i,
    {
        let c = s.get_char(i);
        assert(c == ds[i - start]);
        if !('0' <= c && c <= '9') {
            assert(!is_digit(ds[i - start]));
            return None;
        }
        let d = (c as u32 - '0' as u32) as u64;
        assert(d == (c as nat - '0' as nat));
        assert(ds.take(i - start + 1).drop_last() =~= ds.take(i - start));
        assert(ds.take(i - start + 1).last() == c);
        assert(decimal_value(ds.take(i - start + 1)) == acc * 10 + d);
        if acc > (u64::MAX - d) / 10 {
            proof {
                let k: int = i - start + 1;
                assert(acc * 10 + d > u64::MAX) by (nonlinear_arith)
                    requires acc > (u64::MAX - d) / 10, d <= 9;
                if all_digits(ds) {
                    lemma_decimal_prefix_le(ds, k);
                    assert(decimal_value(ds) > u64::MAX);
                }
                assert(parse_u64_spec(s@) is None);
            }
            return None;
        }
        assert(acc * 10 + d <= u64::MAX) by (nonlinear_arith)
            requires acc <= (u64::MAX - d) / 10, d <= 9;
        acc = acc * 10 + d;
        i = i + 1;
    }
    assert(ds.take(n - start) =~= ds);
    Some(acc)
}

/// The unsigned integer a field holds: a number's integer value, or the value
/// of a text that reads as one; zero otherwise.
pub open spec fn field_u64(v: Field) -> u64 {
    match v {
        Field::Number(Some(n)) => n,
        Field::Text(s) => match parse_u64_spec(s@) {
            Some(n) => n,
            None => 0,
        },
        _ => 0,
    }
}

/// The number read from a text by `parse_u64_text`.
pub open spec fn parse_u64_text_result(s: Seq<char>) -> Option<u64> {
    parse_u64_spec(s)
}

/// A number field is read as its own value, whatever its size; a number that
/// is not an unsigned integer, and a field that is neither number nor text,
/// read as zero.
pub proof fn law_pu64_numbers(n: u64)
    ensures
        field_u64(Field::Number(Some(n))) == n,
        field_u64(Field::Number(None)) == 0,
        field_u64(Field::Other) == 0,
{
}

/// Reads an unsigned integer from a field, zero when it holds none.
pub fn pu64(v: &Field) -> (n: u64)
    ensures
        n == field_u64(*v),
        *v matches Field::Number(Some(k)) ==> n == k,
        *v == Field::Number(None) || *v == Field::Other ==> n == 0,
        *v matches Field::Text(s) ==> n == match parse_u64_text_result(s@) {
            Some(k) => k,
            None => 0u64,
        },
{
    match v {
        Field::Number(n) => match n {
            Some(x) => *x,
            None => 0,
        },
        Field::Text(s) => match parse_u64_text(s.as_str()) {
            Some(x) => x,
            None => 0,
        },
        Field::Other => 0,
    }
}

/// The text a field holds, or `d` when it holds none.
pub open spec fn field_str(v: Field, d: Seq<char>) -> Seq<char> {
    match v {
        Field::Text(s) => s@,
        _ => d,
    }
}

/// Reads the text of a field, or `d` when it holds none.
pub fn pstr<'a>(v: &'a Field, d: &'a str) -> (r: &'a str)
    ensures
        r@ == field_str(*v, d@),
        match *v {
            Field::Text(s) => r@ == s@,
            _ => r@ == d@,
        },
{
    match v {
        Field::Text(s) => s.as_str(),
        _ => d,
    }
}

/// Whether a trade message's event type is one the trade stream takes: no
/// type at all, or an aggregate trade.
pub fn is_trade_event(etype: &str) -> (b: bool)
    ensures
        b == (etype@.len() == 0 || etype@ == "aggTrade"@),
{
    etype.is_empty() || text_eq(etype, "aggTrade")
}

/// Where a liquidation message keeps its order.
#[derive(Clone, Copy, Debug, PartialEq, Eq, Structural)]
pub enum OrderAt {
    /// Under the key "o".
    Nested,
    /// At the top level.
    Root,
}

/// Finds the order of a liquidation message: under "o" when that is an
/// object, else at the top level when the message names a symbol; nowhere
/// otherwise.
pub fn locate_order(o_is_object: bool, s_is_string: bool) -> (r: Option<OrderAt>)
    ensures
        r == if o_is_object {
            Some(OrderAt::Nested)
        } else if s_is_string {
            Some(OrderAt::Root)
        } else {
            None::<OrderAt>
        },
{
    if o_is_object {
        Some(OrderAt::Nested)
    } else if s_is_string {
        Some(OrderAt::Root)
    } else {
        None
    }
}

/// The symbol and side of a liquidation order: each read as text with
/// "UNKNOWN" in its place; nothing when the side is unknown.
pub open spec fn liq_identity_spec(symbol: Field, side: Field) -> Option<(Seq<char>, Seq<char>)> {
    let sd = field_str(side, "UNKNOWN"@);
    if sd == "UNKNOWN"@ {
        None
    } else {
        Some((field_str(symbol, "UNKNOWN"@), sd))
    }
}

/// The text of a symbol field, "UNKNOWN" when it holds none.
pub open spec fn symbol_or_unknown(symbol: Field) -> Seq<char> {
    match symbol {
        Field::Text(t) => t@,
        _ => "UNKNOWN"@,
    }
}

/// A liquidation order is kept whatever its side is, "SELL" (a long position
/// closed) or "BUY" (a short one) alike: it is dropped exactly when its side
/// is missing or reads "UNKNOWN", and otherwise the side text is handed back
/// unchanged together with the symbol text ("UNKNOWN" when there is none).
pub proof fn law_liq_identity_keeps_sides(symbol: Field, side: Field)
    ensures
        match side {
            Field::Text(s) => if s@ == "UNKNOWN"@ {
                liq_identity_spec(symbol, side) is None
            } else {
                liq_identity_spec(symbol, side) == Some((symbol_or_unknown(symbol), s@))
            },
            _ => liq_identity_spec(symbol, side) is None,
        },
{
}

/// Both sides of the exchange's liquidation orders are kept.
pub proof fn law_liq_identity_both_sides(symbol: Field, s: String)
    requires
        s@ == "SELL"@ || s@ == "BUY"@,
    ensures
        liq_identity_spec(symbol, Field::Text(s)) == Some((symbol_or_unknown(symbol), s@)),
{
    reveal_strlit("SELL");
    reveal_strlit("BUY");
    reveal_strlit("UNKNOWN");
    assert(s@ != "UNKNOWN"@) by {
        assert(s@.len() != "UNKNOWN"@.len());
    }
    law_liq_identity_keeps_sides(symbol, Field::Text(s));
}

/// Reads the symbol and side of a liquidation order.
pub fn liq_identity(symbol: &Field, side: &Field) -> (r: Option<(String, String)>)
    ensures
        match r {
            Some((sym, sd)) => liq_identity_spec(*symbol, *side) == Some((sym@, sd@)),
            None => liq_identity_spec(*symbol, *side) is None,
        },
        r is None <==> match *side {
            Field::Text(s) => s@ == "UNKNOWN"@,
            _ => true,
        },
        match *side {
            Field::Text(s) => s@ != "UNKNOWN"@ ==> match r {
                Some((sym, sd)) => sd@ == s@ && sym@ == symbol_or_unknown(*symbol),
                None => false,
            },
            _ => true,
        },
{
    proof {
        law_liq_identity_keeps_sides(*symbol, *side);
    }
    let sd = pstr(side, "UNKNOWN");
    if text_eq(sd, "UNKNOWN") {
        return None;
    }
    let sym = pstr(symbol, "UNKNOWN");
    Some((sym.to_owned(), sd.to_owned()))
}

/// The connection line of the header: a mark per stream, trade, book,
/// liquidations and ticker in turn.
pub open spec fn health_text(h: StreamHealth) -> Seq<char> {
    "T:"@ + dot_text(h.trade) + " B:"@ + dot_text(h.depth) + " L:"@ + dot_text(h.liq) + " K:"@
        + dot_text(h.ticker)
}

/// The mark of one stream as a character.
pub open spec fn mark(ok: bool) -> char {
    if ok { '●' } else { '○' }
}

/// The header line is "T:", "B:", "L:", "K:" in turn, each followed by the
/// mark of its own stream: trade, book (depth), liquidations, ticker.
pub proof fn law_health_marks(h: StreamHealth)
    ensures
        health_text(h) == seq![
            'T', ':', mark(h.trade),
            ' ', 'B', ':', mark(h.depth),
            ' ', 'L', ':', mark(h.liq),
            ' ', 'K', ':', mark(h.ticker),
        ],
{
    reveal_strlit("T:");
    reveal_strlit(" B:");
    reveal_strlit(" L:");
    reveal_strlit(" K:");
    reveal_strlit("●");
    reveal_strlit("○");
    assert(dot_text(h.trade) =~= seq![mark(h.trade)]);
    assert(dot_text(h.depth) =~= seq![mark(h.depth)]);
    assert(dot_text(h.liq) =~= seq![mark(h.liq)]);
    assert(dot_text(h.ticker) =~= seq![mark(h.ticker)]);
    assert(health_text(h) =~= seq![
        'T', ':', mark(h.trade),
        ' ', 'B', ':', mark(h.depth),
        ' ', 'L', ':', mark(h.liq),
        ' ', 'K', ':', mark(h.ticker),
    ]);
}

/// Connection state of the four market streams.
#[derive(Clone, Copy, Debug, PartialEq, Eq, Structural)]
pub struct StreamHealth {
    pub trade: bool,
    pub depth: bool,
    pub liq: bool,
    pub ticker: bool,
}

impl StreamHealth {
    /// No stream connected.
    pub fn new() -> (h: Self)
        ensures
            h == (StreamHealth { trade: false, depth: false, liq: false, ticker: false }),
    {
        StreamHealth { trade: false, depth: false, liq: false, ticker: false }
    }

    /// The connection line shown in the header.
    pub fn summary(&self) -> (text: String)
        ensures
            text@ == health_text(*self),
            text@ == seq![
                'T', ':', mark(self.trade),
                ' ', 'B', ':', mark(self.depth),
                ' ', 'L', ':', mark(self.liq),
                ' ', 'K', ':', mark(self.ticker),
            ],
    {
        proof {
            law_health_marks(*self);
        }
        let mut text = String::from_str("T:");
        text.append(status_dot(self.trade));
        text.append(" B:");
        text.append(status_dot(self.depth));
        text.append(" L:");
        text.append(status_dot(self.liq));
        text.append(" K:");
        text.append(status_dot(self.ticker));
        text
    }

    /// Records a status report of the stream named `stream`; a report of any
    /// other name changes nothing.
    pub fn apply(&mut self, stream: &str, ok: bool)
        ensures
            final(self).trade == if stream@ == "trade"@ { ok } else { old(self).trade },
            final(self).depth == if stream@ == "depth"@ { ok } else { old(self).depth },
            final(self).liq == if stream@ == "liq"@ { ok } else { old(self).liq },
            final(self).ticker == if stream@ == "ticker"@ { ok } else { old(self).ticker },
    {
        proof {
            reveal_strlit("trade");
            reveal_strlit("depth");
            reveal_strlit("liq");
            reveal_strlit("ticker");
            assert("trade"@[0] != "depth"@[0] && "trade"@[0] != "liq"@[0]);
            assert("trade"@[1] != "ticker"@[1] && "depth"@[0] != "liq"@[0]);
            assert("depth"@[0] != "ticker"@[0] && "liq"@[0] != "ticker"@[0]);
        }
        if text_eq(stream, "trade") {
            self.trade = ok;
        } else if text_eq(stream, "depth") {
            self.depth = ok;
        } else if text_eq(stream, "liq") {
            self.liq = ok;
        } else if text_eq(stream, "ticker") {
            self.ticker = ok;
        }
    }
}

} // verus!
