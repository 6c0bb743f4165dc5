//! The chapter-number extractor: finds a chapter number inside a heading
//! line that the segmenter has already accepted.
//!
//! The search looks for the leftmost occurrence of an optional "第"
//! marker, whitespace, a digit run, whitespace, and a unit word — first
//! with ASCII digits, then with CJK numerals.  The ASCII digit run is read
//! as a base-10 integer; a CJK numeral run is handed to the numeral
//! interpreter.  An unparseable heading yields no number, never a failure:
//! the result is optional metadata, not an input to the segmenter's own
//! boundary decisions.

use vstd::prelude::*;

use crate::chars::ascii_digit_pred;
use crate::chars::ascii_digit_run;
use crate::chars::cjk_numeral_pred;
use crate::chars::cjk_numeral_run;
use crate::chars::is_ascii_digit_char;
use crate::chars::is_unit_word_char;
use crate::chars::lemma_run_end;
use crate::chars::run_end;
use crate::chars::space_pred;
use crate::chars::space_run;
use crate::chars::unit_word_char;
use crate::numerals::numeral_value;
use crate::numerals::parse_chinese_chapter_number;

verus! {

broadcast use vstd::seq::group_seq_axioms;

/// The base-10 value of a run of ASCII digits.
pub open spec fn decimal_value(s: Seq<char>) -> int
    decreases s.len(),
{
    if s.len() == 0 {
        0
    } else {
        10 * decimal_value(s.drop_last()) + (s.last() as u32 - '0' as u32)
    }
}

/// The digit span `(start, end)` when `第? ws* digits+ ws* unit` matches
/// with its digit run of class `digits` starting at position `s` of `t`.
pub open spec fn number_span_at(t: Seq<char>, s: int, digits: spec_fn(char) -> bool) -> Option<
    (int, int),
> {
    let i = if t[s] == '第' {
        s + 1
    } else {
        s
    };
    let j = run_end(t, i, space_pred());
    let k = run_end(t, j, digits);
    if k > j {
        let m = run_end(t, k, space_pred());
        if m < t.len() && is_unit_word_char(t[m]) {
            Some((j, k))
        } else {
            None
        }
    } else {
        None
    }
}

/// The leftmost digit span of the pattern, searching from position `s`.
pub open spec fn find_number_span(t: Seq<char>, s: int, digits: spec_fn(char) -> bool) -> Option<
    (int, int),
>
    decreases t.len() - s,
{
    if !(0 <= s < t.len()) {
        None
    } else if number_span_at(t, s, digits) is Some {
        number_span_at(t, s, digits)
    } else {
        find_number_span(t, s + 1, digits)
    }
}

/// The chapter number of a heading: the value of the leftmost ASCII-digit
/// pattern if one occurs (absent on overflow), otherwise the interpreted
/// value of the leftmost CJK-numeral pattern, otherwise absent.
pub open spec fn extract_spec(t: Seq<char>) -> Option<int> {
    match find_number_span(t, 0, ascii_digit_pred()) {
        Some(p) => {
            let v = decimal_value(t.subrange(p.0, p.1));
            if v <= i64::MAX {
                Some(v)
            } else {
                None
            }
        },
        None => match find_number_span(t, 0, cjk_numeral_pred()) {
            Some(p) => numeral_value(t.subrange(p.0, p.1)),
            None => None,
        },
    }
}

/// A digit run's value only grows as the run extends to the right.
proof fn lemma_decimal_prefix_le(s: Seq<char>, m: int)
    requires
        0 <= m <= s.len(),
        forall|j: int| 0 <= j < s.len() ==> is_ascii_digit_char(#[trigger] s[j]),
    ensures
        0 <= decimal_value(s.subrange(0, m)) <= decimal_value(s),
    decreases s.len(),
{
    lemma_decimal_nonneg(s);
    if m == s.len() {
        assert(s.subrange(0, m) =~= s);
    } else {
        lemma_decimal_prefix_le(s.drop_last(), m);
        assert(s.drop_last().subrange(0, m) =~= s.subrange(0, m));
        lemma_decimal_nonneg(s.drop_last());
        assert(s.last() as u32 - '0' as u32 >= 0);
    }
}

proof fn lemma_decimal_nonneg(s: Seq<char>)
    requires
        forall|j: int| 0 <= j < s.len() ==> is_ascii_digit_char(#[trigger] s[j]),
    ensures
        decimal_value(s) >= 0,
    decreases s.len(),
{
    if s.len() > 0 {
        lemma_decimal_nonneg(s.drop_last());
    }
}

/// Read the digit span `[ds, de)` of `t` as a base-10 number, absent when
/// it does not fit an `i64`.
fn parse_decimal_span(t: &str, ds: usize, de: usize) -> (r: Option<i64>)
    requires
        ds <= de <= t@.len(),
        forall|j: int| ds <= j < de ==> is_ascii_digit_char(#[trigger] t@[j]),
    ensures
        r is Some <==> decimal_value(t@.subrange(ds as int, de as int)) <= i64::MAX,
        r is Some ==> r->0 as int == decimal_value(t@.subrange(ds as int, de as int)),
{
    let ghost span = t@.subrange(ds as int, de as int);
    proof {
        assert(forall|j: int| 0 <= j < span.len() ==> is_ascii_digit_char(#[trigger] span[j]));
    }
    let mut value: i64 = 0;
    let mut j = ds;
    while j < de
        invariant
            ds <= j <= de <= t@.len(),
            span == t@.subrange(ds as int, de as int),
            forall|q: int| ds <= q < de ==> is_ascii_digit_char(#[trigger] t@[q]),
            forall|q: int| 0 <= q < span.len() ==> is_ascii_digit_char(#[trigger] span[q]),
            value as int == decimal_value(t@.subrange(ds as int, j as int)),
            0 <= value,
        decreases de - j,
    {
        let c = t.get_char(j);
        let d: u32 = c as u32 - '0' as u32;
        let next: i128 = value as i128 * 10 + d as i128;
        proof {
            assert(t@.subrange(ds as int, j + 1).drop_last() =~= t@.subrange(ds as int, j as int));
            assert(t@.subrange(ds as int, j + 1).last() == t@[j as int]);
        }
        if next > i64::MAX as i128 {
            proof {
                assert(t@.subrange(ds as int, j + 1) =~= span.subrange(0, j + 1 - ds));
                lemma_decimal_prefix_le(span, j + 1 - ds);
            }
            return None;
        }
        value = next as i64;
        j = j + 1;
    }
    proof {
        assert(t@.subrange(ds as int, de as int) == span);
    }
    Some(value)
}

/// Search `t` from the left for the digit span of an ASCII-digit chapter
/// pattern.
fn find_arabic_span(t: &str) -> (r: Option<(usize, usize)>)
    ensures
        r is Some <==> find_number_span(t@, 0, ascii_digit_pred()) is Some,
        r matches Some(p) ==> ({
            &&& find_number_span(t@, 0, ascii_digit_pred()) == Some((p.0 as int, p.1 as int))
            &&& p.0 < p.1 <= t@.len()
            &&& forall|j: int| p.0 <= j < p.1 ==> is_ascii_digit_char(#[trigger] t@[j])
        }),
{
    let n = t.unicode_len();
    let mut s: usize = 0;
    while s < n
        invariant
            0 <= s <= n,
            n == t@.len(),
            find_number_span(t@, 0, ascii_digit_pred()) == find_number_span(
                t@,
                s as int,
                ascii_digit_pred(),
            ),
        decreases n - s,
    {
        let i: usize = if t.get_char(s) == '第' {
            s + 1
        } else {
            s
        };
        let j = space_run(t, i);
        let k = ascii_digit_run(t, j);
        if k > j {
            let m = space_run(t, k);
            if m < n && unit_word_char(t.get_char(m)) {
                proof {
                    assert(number_span_at(t@, s as int, ascii_digit_pred()) == Some(
                        (j as int, k as int),
                    ));
                    lemma_run_end(t@, j as int, ascii_digit_pred());
                }
                return Some((j, k));
            }
        }
        proof {
            assert(number_span_at(t@, s as int, ascii_digit_pred()) is None);
        }
        s = s + 1;
    }
    None
}

/// Search `t` from the left for the digit span of a CJK-numeral chapter
/// pattern.
fn find_cjk_span(t: &str) -> (r: Option<(usize, usize)>)
    ensures
        r is Some <==> find_number_span(t@, 0, cjk_numeral_pred()) is Some,
        r matches Some(p) ==> ({
            &&& find_number_span(t@, 0, cjk_numeral_pred()) == Some((p.0 as int, p.1 as int))
            &&& p.0 < p.1 <= t@.len()
        }),
{
    let n = t.unicode_len();
    let mut s: usize = 0;
    while s < n
        invariant
            0 <= s <= n,
            n == t@.len(),
            find_number_span(t@, 0, cjk_numeral_pred()) == find_number_span(
                t@,
                s as int,
                cjk_numeral_pred(),
            ),
        decreases n - s,
    {
        let i: usize = if t.get_char(s) == '第' {
            s + 1
        } else {
            s
        };
        let j = space_run(t, i);
        let k = cjk_numeral_run(t, j);
        if k > j {
            let m = space_run(t, k);
            if m < n && unit_word_char(t.get_char(m)) {
                proof {
                    assert(number_span_at(t@, s as int, cjk_numeral_pred()) == Some(
                        (j as int, k as int),
                    ));
                }
                return Some((j, k));
            }
        }
        proof {
            assert(number_span_at(t@, s as int, cjk_numeral_pred()) is None);
        }
        s = s + 1;
    }
    None
}

/// Extract the chapter number from a heading line: the ASCII-digit
/// pattern takes precedence; otherwise the CJK-numeral pattern is
/// interpreted.  Yields nothing when neither pattern occurs, when the
/// ASCII number overflows, or when the CJK run has no readable value.
pub fn extract_chapter_number(title: &str) -> (r: Option<i64>)
    requires
        9000 * title@.len() + 9 <= i64::MAX,
    ensures
        r is Some <==> extract_spec(title@) is Some,
        r is Some ==> extract_spec(title@) == Some(r->0 as int),
{
    if let Some((ds, de)) = find_arabic_span(title) {
        parse_decimal_span(title, ds, de)
    } else if let Some((ds, de)) = find_cjk_span(title) {
        let span = title.substring_char(ds, de);
        proof {
            assert(span@ == title@.subrange(ds as int, de as int));
            assert(span@.len() <= title@.len());
        }
        parse_chinese_chapter_number(span)
    } else {
        None
    }
}

} // verus!
