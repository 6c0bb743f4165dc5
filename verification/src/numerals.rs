//! The CJK numeral interpreter: turns a run of Chinese numeral characters
//! into an integer.
//!
//! The scan keeps a pending digit and a running total.  A digit character
//! overwrites the pending digit; a unit character (ten / hundred / thousand)
//! adds `pending * unit` to the total, or the unit alone when no digit is
//! pending (so that "ten-one" reads as eleven without a leading "one"); a
//! trailing pending digit is added at the end.  The result is absent only
//! when no recognized character was seen and the total stayed zero.

use vstd::prelude::*;

verus! {

/// Value of a single CJK digit character; formal ("banker's") glyphs are
/// aliases of the common ones.
pub open spec fn cn_digit_value(c: char) -> Option<int> {
    if c == '零' || c == '〇' {
        Some(0int)
    } else if c == '一' || c == '壹' {
        Some(1int)
    } else if c == '二' || c == '贰' || c == '两' {
        Some(2int)
    } else if c == '三' || c == '叁' {
        Some(3int)
    } else if c == '四' || c == '肆' {
        Some(4int)
    } else if c == '五' || c == '伍' {
        Some(5int)
    } else if c == '六' || c == '陆' {
        Some(6int)
    } else if c == '七' || c == '柒' {
        Some(7int)
    } else if c == '八' || c == '捌' {
        Some(8int)
    } else if c == '九' || c == '玖' {
        Some(9int)
    } else {
        None
    }
}

/// Value of a single CJK unit character, formal glyphs included.
pub open spec fn cn_unit_value(c: char) -> Option<int> {
    if c == '十' || c == '拾' {
        Some(10int)
    } else if c == '百' || c == '佰' {
        Some(100int)
    } else if c == '千' || c == '仟' {
        Some(1000int)
    } else {
        None
    }
}

/// One step of the scan: `st` is `(total, pending digit, seen a digit)`.
pub open spec fn numeral_step(st: (int, int, bool), c: char) -> (int, int, bool) {
    match cn_digit_value(c) {
        Some(d) => (st.0, d, true),
        None => match cn_unit_value(c) {
            Some(u) => ((st.0 + if st.1 > 0 { st.1 * u } else { u }), 0int, st.2),
            None => st,
        },
    }
}

/// Scan state after the first `n` characters of `s`.
pub open spec fn numeral_scan(s: Seq<char>, n: int) -> (int, int, bool)
    decreases n,
{
    if n <= 0 {
        (0int, 0int, false)
    } else {
        numeral_step(numeral_scan(s, n - 1), s[n - 1])
    }
}

/// The value of a CJK numeral string: the final total, with a trailing
/// ones-place digit added; absent when nothing was recognized and the
/// total stayed zero.
pub open spec fn numeral_value(s: Seq<char>) -> Option<int> {
    let st = numeral_scan(s, s.len() as int);
    let total = st.0 + if st.1 > 0 { st.1 } else { 0int };
    if st.2 || total > 0 {
        Some(total)
    } else {
        None
    }
}

/// Every character contributes at most `9 * 1000` to the total, and the
/// pending digit stays a single digit.
pub proof fn lemma_numeral_scan_bounds(s: Seq<char>, n: int)
    requires
        0 <= n <= s.len(),
    ensures
        0 <= numeral_scan(s, n).0 <= 9000 * n,
        0 <= numeral_scan(s, n).1 <= 9,
    decreases n,
{
    if n > 0 {
        lemma_numeral_scan_bounds(s, n - 1);
        let st = numeral_scan(s, n - 1);
        let c = s[n - 1];
        if cn_digit_value(c) is None && cn_unit_value(c) is Some {
            let u = cn_unit_value(c)->0;
            assert(st.1 * u <= 9000) by (nonlinear_arith)
                requires
                    0 <= st.1 <= 9,
                    u == 10 || u == 100 || u == 1000,
            ;
        }
    }
}

/// Each formal ("banker's") glyph carries the same value as its common
/// counterpart.
pub proof fn lemma_formal_glyph_aliases()
    ensures
        cn_digit_value('壹') == cn_digit_value('一'),
        cn_digit_value('贰') == cn_digit_value('二'),
        cn_digit_value('叁') == cn_digit_value('三'),
        cn_digit_value('肆') == cn_digit_value('四'),
        cn_digit_value('伍') == cn_digit_value('五'),
        cn_digit_value('陆') == cn_digit_value('六'),
        cn_digit_value('柒') == cn_digit_value('七'),
        cn_digit_value('捌') == cn_digit_value('八'),
        cn_digit_value('玖') == cn_digit_value('九'),
        cn_digit_value('〇') == cn_digit_value('零'),
        cn_unit_value('拾') == cn_unit_value('十'),
        cn_unit_value('佰') == cn_unit_value('百'),
        cn_unit_value('仟') == cn_unit_value('千'),
{
}

/// Two strings whose characters agree in digit and unit value, position
/// by position — for instance one written with common glyphs and the
/// other with their formal aliases.
pub open spec fn same_numeral_chars(a: Seq<char>, b: Seq<char>) -> bool {
    &&& a.len() == b.len()
    &&& forall|j: int| 0 <= j < a.len()
        ==> cn_digit_value(#[trigger] a[j]) == cn_digit_value(b[j]) && cn_unit_value(a[j])
            == cn_unit_value(b[j])
}

proof fn lemma_scan_glyph_invariance(a: Seq<char>, b: Seq<char>, n: int)
    requires
        same_numeral_chars(a, b),
        0 <= n <= a.len(),
    ensures
        numeral_scan(a, n) == numeral_scan(b, n),
    decreases n,
{
    if n > 0 {
        lemma_scan_glyph_invariance(a, b, n - 1);
    }
}

/// Replacing glyphs by their aliases never changes the parsed value: the
/// scan consults only the value tables, under which aliases agree.
pub proof fn lemma_numeral_glyph_invariance(a: Seq<char>, b: Seq<char>)
    requires
        same_numeral_chars(a, b),
    ensures
        numeral_value(a) == numeral_value(b),
{
    lemma_scan_glyph_invariance(a, b, a.len() as int);
}

fn cn_digit(c: char) -> (r: Option<i64>)
    ensures
        r is Some <==> cn_digit_value(c) is Some,
        r is Some ==> cn_digit_value(c) == Some(r->0 as int),
{
    if c == '零' || c == '〇' {
        Some(0)
    } else if c == '一' || c == '壹' {
        Some(1)
    } else if c == '二' || c == '贰' || c == '两' {
        Some(2)
    } else if c == '三' || c == '叁' {
        Some(3)
    } else if c == '四' || c == '肆' {
        Some(4)
    } else if c == '五' || c == '伍' {
        Some(5)
    } else if c == '六' || c == '陆' {
        Some(6)
    } else if c == '七' || c == '柒' {
        Some(7)
    } else if c == '八' || c == '捌' {
        Some(8)
    } else if c == '九' || c == '玖' {
        Some(9)
    } else {
        None
    }
}

fn cn_unit(c: char) -> (r: Option<i64>)
    ensures
        r is Some <==> cn_unit_value(c) is Some,
        r is Some ==> cn_unit_value(c) == Some(r->0 as int),
        r is Some ==> 10 <= r->0 <= 1000,
{
    if c == '十' || c == '拾' {
        Some(10)
    } else if c == '百' || c == '佰' {
        Some(100)
    } else if c == '千' || c == '仟' {
        Some(1000)
    } else {
        None
    }
}

/// Parse a run of CJK numeral characters into an integer.  Characters
/// outside the digit and unit tables are skipped.  Returns nothing only
/// when the text contains no recognized digit and the total stayed zero;
/// the literal zero numeral parses as zero.
pub fn parse_chinese_chapter_number(text: &str) -> (r: Option<i64>)
    requires
        9000 * text@.len() + 9 <= i64::MAX,
    ensures
        r is Some <==> numeral_value(text@) is Some,
        r is Some ==> numeral_value(text@) == Some(r->0 as int),
{
    let n = text.unicode_len();
    let mut total: i64 = 0;
    let mut pending: i64 = 0;
    let mut seen: bool = false;
    let mut i: usize = 0;
    while i < n
        invariant
            n == text@.len(),
            9000 * text@.len() + 9 <= i64::MAX,
            0 <= i <= n,
            (total as int, pending as int, seen) == numeral_scan(text@, i as int),
            0 <= total <= 9000 * i,
            0 <= pending <= 9,
        decreases n - i,
    {
        proof {
            lemma_numeral_scan_bounds(text@, i + 1);
        }
        let c = text.get_char(i);
        if let Some(d) = cn_digit(c) {
            pending = d;
            seen = true;
        } else if let Some(u) = cn_unit(c) {
            proof {
                assert(pending * u <= 9000) by (nonlinear_arith)
                    requires
                        0 <= pending <= 9,
                        10 <= u <= 1000,
                ;
            }
            if pending > 0 {
                total = total + pending * u;
            } else {
                total = total + u;
            }
            pending = 0;
        }
        i = i + 1;
    }
    let result: i64 = if pending > 0 {
        total + pending
    } else {
        total
    };
    if seen || result > 0 {
        Some(result)
    } else {
        None
    }
}

} // verus!
