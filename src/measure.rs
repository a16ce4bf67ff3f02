use vstd::prelude::*;
use unicode_width::UnicodeWidthStr;

verus! {

/// The number of terminal columns that the text `s` takes on screen.
pub uninterp spec fn display_width(s: Seq<char>) -> nat;

/// Relies on `unicode_width::UnicodeWidthStr::width` for `str`: the display
/// width of a string depends on its characters alone.
#[verifier::external_body]
pub(crate) fn str_width(s: &str) -> (r: usize)
    ensures
        r == display_width(s@),
{
    UnicodeWidthStr::width(s)
}

/// The largest of `ws`, or 0 where there is none.
pub open spec fn max_of(ws: Seq<int>) -> int
    decreases ws.len(),
{
    if ws.len() == 0 {
        0
    } else {
        let rest = max_of(ws.drop_last());
        if ws.last() > rest { ws.last() } else { rest }
    }
}

/// The display width of each line.
pub open spec fn line_widths(lines: Seq<Seq<char>>) -> Seq<int> {
    lines.map_values(|l: Seq<char>| display_width(l) as int)
}

/// The display width of the widest line, 0 for no lines.
pub open spec fn widest(lines: Seq<Seq<char>>) -> int {
    max_of(line_widths(lines))
}

/// `n` as a `u16`, held at `u16::MAX` where it is larger.
pub open spec fn sat_u16(n: int) -> u16 {
    if n <= u16::MAX as int { n as u16 } else { u16::MAX }
}

/// The widest line is never narrower than nothing.
pub(crate) proof fn lemma_widest_nonneg(lines: Seq<Seq<char>>)
    ensures
        widest(lines) >= 0,
{
    lemma_max_of_bounds(line_widths(lines));
}

proof fn lemma_max_of_bounds(ws: Seq<int>)
    ensures
        max_of(ws) >= 0,
        forall|i: int| 0 <= i < ws.len() ==> ws[i] <= max_of(ws),
    decreases ws.len(),
{
    if ws.len() > 0 {
        lemma_max_of_bounds(ws.drop_last());
        assert(forall|i: int| 0 <= i < ws.len() - 1 ==> ws[i] == ws.drop_last()[i]);
    }
}

/// Measures text from the display widths of its lines: the widest one and how
/// many there are, each held at `u16::MAX`.
pub fn measure_widths(widths: &Vec<usize>) -> (r: (u16, u16))
    ensures
        r.0 == sat_u16(max_of(widths@.map_values(|w: usize| w as int))),
        r.1 == sat_u16(widths@.len() as int),
{
    let ghost ws = widths@.map_values(|w: usize| w as int);
    let mut max_w: u16 = 0;
    let mut i: usize = 0;
    while i < widths.len()
        invariant
            i <= widths@.len(),
            ws == widths@.map_values(|w: usize| w as int),
            max_w == sat_u16(max_of(ws.take(i as int))),
        decreases widths@.len() - i,
    {
        proof {
            assert(ws.take(i as int + 1).drop_last() == ws.take(i as int));
            lemma_max_of_bounds(ws.take(i as int));
        }
        let w: u16 = if widths[i] <= u16::MAX as usize { widths[i] as u16 } else { u16::MAX };
        if w > max_w {
            max_w = w;
        }
        i = i + 1;
    }
    assert(ws.take(widths@.len() as int) == ws);
    let h: u16 = if widths.len() <= u16::MAX as usize { widths.len() as u16 } else { u16::MAX };
    (max_w, h)
}

/// Measures text: the display width of its widest line and its number of
/// lines, each held at `u16::MAX`. No line is expected to hold a line break.
pub fn measure_lines(lines: &Vec<String>) -> (r: (u16, u16))
    ensures
        r.0 == sat_u16(widest(lines@.map_values(|l: String| l@))),
        r.1 == sat_u16(lines@.len() as int),
{
    let mut widths: Vec<usize> = Vec::new();
    let mut i: usize = 0;
    while i < lines.len()
        invariant
            i <= lines@.len(),
            widths@.len() == i,
            forall|j: int| 0 <= j < i ==> widths@[j] == display_width(lines@[j]@),
        decreases lines@.len() - i,
    {
        let w: usize = str_width(lines[i].as_str());
        widths.push(w);
        i = i + 1;
    }
    let r = measure_widths(&widths);
    assert(widths@.map_values(|w: usize| w as int) =~= line_widths(lines@.map_values(|l: String| l@)));
    r
}

} // verus!
