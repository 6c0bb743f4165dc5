//! Character classes shared by the heading grammar and the numeral parser.

use vstd::prelude::*;

verus! {

/// Unicode whitespace, the set that `char::is_whitespace` accepts.
pub open spec fn is_space_char(c: char) -> bool {
    c == ' ' || c == '\t' || c == '\n' || c == '\u{0b}' || c == '\u{0c}' || c == '\r'
        || c == '\u{85}' || c == '\u{a0}' || c == '\u{1680}'
        || ('\u{2000}' <= c && c <= '\u{200a}')
        || c == '\u{2028}' || c == '\u{2029}' || c == '\u{202f}' || c == '\u{205f}'
        || c == '\u{3000}'
}

pub fn space_char(c: char) -> (b: bool)
    ensures
        b == is_space_char(c),
{
    c == ' ' || c == '\t' || c == '\n' || c == '\u{0b}' || c == '\u{0c}' || c == '\r'
        || c == '\u{85}' || c == '\u{a0}' || c == '\u{1680}'
        || ('\u{2000}' <= c && c <= '\u{200a}')
        || c == '\u{2028}' || c == '\u{2029}' || c == '\u{202f}' || c == '\u{205f}'
        || c == '\u{3000}'
}

/// An ASCII decimal digit.
pub open spec fn is_ascii_digit_char(c: char) -> bool {
    '0' <= c && c <= '9'
}

pub fn ascii_digit_char(c: char) -> (b: bool)
    ensures
        b == is_ascii_digit_char(c),
{
    '0' <= c && c <= '9'
}

/// A character that may appear in the numeral token of a chapter heading:
/// the CJK numerals, their formal ("banker's") variants, and the large
/// units up to ten thousand.
pub open spec fn is_cjk_numeral_char(c: char) -> bool {
    c == '〇' || c == '零' || c == '一' || c == '二' || c == '两' || c == '三'
        || c == '四' || c == '五' || c == '六' || c == '七' || c == '八' || c == '九'
        || c == '十' || c == '百' || c == '千' || c == '万'
        || c == '壹' || c == '贰' || c == '叁' || c == '肆' || c == '伍' || c == '陆'
        || c == '柒' || c == '捌' || c == '玖' || c == '拾' || c == '佰' || c == '仟'
}

pub fn cjk_numeral_char(c: char) -> (b: bool)
    ensures
        b == is_cjk_numeral_char(c),
{
    c == '〇' || c == '零' || c == '一' || c == '二' || c == '两' || c == '三'
        || c == '四' || c == '五' || c == '六' || c == '七' || c == '八' || c == '九'
        || c == '十' || c == '百' || c == '千' || c == '万'
        || c == '壹' || c == '贰' || c == '叁' || c == '肆' || c == '伍' || c == '陆'
        || c == '柒' || c == '捌' || c == '玖' || c == '拾' || c == '佰' || c == '仟'
}

/// Either kind of numbering token character: ASCII digits or CJK numerals.
pub open spec fn is_numbering_char(c: char) -> bool {
    is_ascii_digit_char(c) || is_cjk_numeral_char(c)
}

pub fn numbering_char(c: char) -> (b: bool)
    ensures
        b == is_numbering_char(c),
{
    ascii_digit_char(c) || cjk_numeral_char(c)
}

/// A chapter unit word: the character that closes a numbered heading.
pub open spec fn is_unit_word_char(c: char) -> bool {
    c == '章' || c == '节' || c == '卷' || c == '集' || c == '部' || c == '篇'
}

pub fn unit_word_char(c: char) -> (b: bool)
    ensures
        b == is_unit_word_char(c),
{
    c == '章' || c == '节' || c == '卷' || c == '集' || c == '部' || c == '篇'
}

/// The whitespace class as a predicate value, for use with `run_end`.
pub open spec fn space_pred() -> spec_fn(char) -> bool {
    |c: char| is_space_char(c)
}

/// The ASCII-digit class as a predicate value.
pub open spec fn ascii_digit_pred() -> spec_fn(char) -> bool {
    |c: char| is_ascii_digit_char(c)
}

/// The numbering-token class as a predicate value.
pub open spec fn numbering_pred() -> spec_fn(char) -> bool {
    |c: char| is_numbering_char(c)
}

/// The CJK-numeral class as a predicate value.
pub open spec fn cjk_numeral_pred() -> spec_fn(char) -> bool {
    |c: char| is_cjk_numeral_char(c)
}

/// First index at or after `i` where `f` no longer holds (or the end of `s`).
/// The maximal run of `f`-characters starting at `i` ends here.
pub open spec fn run_end(s: Seq<char>, i: int, f: spec_fn(char) -> bool) -> int
    decreases s.len() - i,
{
    if 0 <= i < s.len() && f(s[i]) {
        run_end(s, i + 1, f)
    } else {
        i
    }
}

pub proof fn lemma_run_end(s: Seq<char>, i: int, f: spec_fn(char) -> bool)
    requires
        0 <= i <= s.len(),
    ensures
        i <= run_end(s, i, f) <= s.len(),
        forall|j: int| i <= j < run_end(s, i, f) ==> f(s[j]),
        run_end(s, i, f) < s.len() ==> !f(s[run_end(s, i, f)]),
    decreases s.len() - i,
{
    if i < s.len() && f(s[i]) {
        lemma_run_end(s, i + 1, f);
    }
}

/// End of the maximal run of whitespace starting at `i`.
pub fn space_run(s: &str, i: usize) -> (r: usize)
    requires
        i <= s@.len(),
    ensures
        r as int == run_end(s@, i as int, space_pred()),
        i <= r <= s@.len(),
{
    let n = s.unicode_len();
    let mut j = i;
    while j < n && space_char(s.get_char(j))
        invariant
            i <= j <= n,
            n == s@.len(),
            run_end(s@, i as int, space_pred()) == run_end(s@, j as int, space_pred()),
        decreases n - j,
    {
        j = j + 1;
    }
    proof {
        assert(run_end(s@, j as int, space_pred()) == j as int);
    }
    j
}

/// End of the maximal run of ASCII digits starting at `i`.
pub fn ascii_digit_run(s: &str, i: usize) -> (r: usize)
    requires
        i <= s@.len(),
    ensures
        r as int == run_end(s@, i as int, ascii_digit_pred()),
        i <= r <= s@.len(),
{
    let n = s.unicode_len();
    let mut j = i;
    while j < n && ascii_digit_char(s.get_char(j))
        invariant
            i <= j <= n,
            n == s@.len(),
            run_end(s@, i as int, ascii_digit_pred()) == run_end(s@, j as int, ascii_digit_pred()),
        decreases n - j,
    {
        j = j + 1;
    }
    proof {
        assert(run_end(s@, j as int, ascii_digit_pred()) == j as int);
    }
    j
}

/// End of the maximal run of numbering-token characters starting at `i`.
pub fn numbering_run(s: &str, i: usize) -> (r: usize)
    requires
        i <= s@.len(),
    ensures
        r as int == run_end(s@, i as int, numbering_pred()),
        i <= r <= s@.len(),
{
    let n = s.unicode_len();
    let mut j = i;
    while j < n && numbering_char(s.get_char(j))
        invariant
            i <= j <= n,
            n == s@.len(),
            run_end(s@, i as int, numbering_pred()) == run_end(s@, j as int, numbering_pred()),
        decreases n - j,
    {
        j = j + 1;
    }
    proof {
        assert(run_end(s@, j as int, numbering_pred()) == j as int);
    }
    j
}

/// End of the maximal run of CJK-numeral characters starting at `i`.
pub fn cjk_numeral_run(s: &str, i: usize) -> (r: usize)
    requires
        i <= s@.len(),
    ensures
        r as int == run_end(s@, i as int, cjk_numeral_pred()),
        i <= r <= s@.len(),
{
    let n = s.unicode_len();
    let mut j = i;
    while j < n && cjk_numeral_char(s.get_char(j))
        invariant
            i <= j <= n,
            n == s@.len(),
            run_end(s@, i as int, cjk_numeral_pred()) == run_end(s@, j as int, cjk_numeral_pred()),
        decreases n - j,
    {
        j = j + 1;
    }
    proof {
        assert(run_end(s@, j as int, cjk_numeral_pred()) == j as int);
    }
    j
}

} // verus!
