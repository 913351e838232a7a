use vstd::prelude::*;

verus! {

/// Rows of the order book drawn on each side of the spread at most.
pub const MAX_BOOK_SIDE_ROWS: usize = 12;

/// Rows of the order book panel besides the levels: header, spread, balance.
pub const BOOK_FIXED_ROWS: usize = 3;

/// Rows of levels per side in an order book panel of `height` rows: none when
/// the panel is too small to draw, else half of what the fixed rows leave,
/// capped.
pub open spec fn book_side_rows_spec(height: nat) -> Option<nat> {
    if height < 5 {
        None
    } else {
        let half = ((height - BOOK_FIXED_ROWS) / 2) as nat;
        Some(if half < MAX_BOOK_SIDE_ROWS { half } else { MAX_BOOK_SIDE_ROWS as nat })
    }
}

/// How many levels of each side the order book panel shows.
pub fn book_side_rows(height: u16) -> (r: Option<usize>)
    ensures
        match r {
            Some(n) => book_side_rows_spec(height as nat) == Some(n as nat),
            None => book_side_rows_spec(height as nat) is None,
        },
{
    if height < 5 {
        return None;
    }
    let avail = height as usize;
    let half = avail.saturating_sub(BOOK_FIXED_ROWS) / 2;
    Some(if half < MAX_BOOK_SIDE_ROWS { half } else { MAX_BOOK_SIDE_ROWS })
}

/// The levels of both sides and the fixed rows always fit in the panel.
pub proof fn law_book_rows_fit(height: nat)
    ensures
        book_side_rows_spec(height) matches Some(n) ==> 2 * n + BOOK_FIXED_ROWS <= height
            && n <= MAX_BOOK_SIDE_ROWS,
        book_side_rows_spec(height) is None <==> height < 5,
{
}

/// The panel shows as many levels per side as fit, up to the cap: one more
/// level on each side would either pass the cap or overflow the panel.
pub proof fn law_book_rows_fill(height: nat)
    ensures
        book_side_rows_spec(height) matches Some(n) ==> n == MAX_BOOK_SIDE_ROWS || 2 * (n + 1)
            + BOOK_FIXED_ROWS > height,
{
}

/// The share on each side of a centred box that takes `percent` of a span.
pub fn centered_margin(percent: u16) -> (m: u16)
    requires
        percent <= 100,
    ensures
        m == (100 - percent) / 2,
        2 * m + percent <= 100,
{
    (100 - percent) / 2
}

/// A bar of `cells` blocks, cut to `width`.
pub open spec fn bar_spec(cells: nat, width: nat) -> Seq<char> {
    Seq::new(if cells < width { cells } else { width }, |i: int| '█')
}

/// Draws a bar of `cells` blocks, at most `width` long.
pub fn block_bar(cells: usize, width: usize) -> (bar: String)
    ensures
        bar@ == bar_spec(cells as nat, width as nat),
        bar@.len() == if cells < width { cells } else { width },
        forall|i: int| 0 <= i < bar@.len() ==> bar@[i] == '█',
{
    let n = if cells < width { cells } else { width };
    let mut bar = String::new();
    let mut i: usize = 0;
    while i < n
        invariant
            i <= n,
            bar@ == Seq::new(i as nat, |j: int| '█'),
        decreases n - i,
    {
        bar.append("█");
        proof {
            reveal_strlit("█");
        }
        assert(bar@ =~= Seq::new((i + 1) as nat, |j: int| '█'));
        i = i + 1;
    }
    assert(bar@ =~= bar_spec(cells as nat, width as nat));
    bar
}

/// The connection mark of a stream: filled when connected.
pub open spec fn dot_text(ok: bool) -> Seq<char> {
    if ok { "●"@ } else { "○"@ }
}

/// The connection mark of a stream.
pub fn status_dot(ok: bool) -> (d: &'static str)
    ensures
        d@ == dot_text(ok),
        d@ == if ok { seq!['●'] } else { seq!['○'] },
{
    proof {
        reveal_strlit("●");
        reveal_strlit("○");
        assert("●"@ =~= seq!['●']);
        assert("○"@ =~= seq!['○']);
    }
    if ok { "●" } else { "○" }
}

} // verus!
