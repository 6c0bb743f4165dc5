//! The heading heuristic: decides whether a trimmed line of text begins a
//! new chapter.
//!
//! A line is a heading when, anchored at its start, it is one of a fixed
//! set of structural keywords (prologue, preface, frontispiece, interlude,
//! epilogue, afterword, extra-chapter markers), or an optional "第" marker
//! followed by a numbering token (ASCII digits or CJK numerals, with up to
//! four characters of internal whitespace on either side) followed by a
//! unit word (章/节/卷/集/部/篇) — in either case followed by at most 30
//! further characters before the end of the line.  The cap guards against
//! body text that merely contains a chapter-like phrase.

use vstd::prelude::*;

use crate::chars::is_space_char;
use crate::chars::is_unit_word_char;
use crate::chars::numbering_pred;
use crate::chars::run_end;
use crate::chars::space_char;
use crate::chars::space_pred;
use crate::chars::space_run;
use crate::chars::numbering_run;
use crate::chars::unit_word_char;

verus! {

/// Index of the first character that is not leading whitespace.
pub open spec fn trim_start_idx(s: Seq<char>) -> int {
    run_end(s, 0, space_pred())
}

/// Index just after the last character that is not trailing whitespace,
/// scanning down from `e`.
pub open spec fn trim_end_idx(s: Seq<char>, e: int) -> int
    decreases e,
{
    if 0 < e <= s.len() && is_space_char(s[e - 1]) {
        trim_end_idx(s, e - 1)
    } else {
        e
    }
}

/// The line with surrounding whitespace removed.
pub open spec fn trim_spec(s: Seq<char>) -> Seq<char> {
    let a = trim_start_idx(s);
    let b = trim_end_idx(s, s.len() as int);
    if a <= b {
        s.subrange(a, b)
    } else {
        Seq::empty()
    }
}

/// Length of the structural keyword standing at the start of `t`, if any:
/// 序章, 序言, 卷首语, 扉页, 楔子, 正文, 终章, 后记, 尾声, 番外.
pub open spec fn keyword_len_at(t: Seq<char>) -> Option<int> {
    if t.len() >= 3 && t[0] == '卷' && t[1] == '首' && t[2] == '语' {
        Some(3int)
    } else if t.len() >= 2 && ((t[0] == '序' && (t[1] == '章' || t[1] == '言'))
        || (t[0] == '扉' && t[1] == '页') || (t[0] == '楔' && t[1] == '子')
        || (t[0] == '正' && t[1] == '文') || (t[0] == '终' && t[1] == '章')
        || (t[0] == '后' && t[1] == '记') || (t[0] == '尾' && t[1] == '声')
        || (t[0] == '番' && t[1] == '外')) {
        Some(2int)
    } else {
        None
    }
}

/// Index just after the unit word when the numbered pattern
/// `第? ws{0,4} numbering+ ws{0,4} unit` matches at the start of `t`.
pub open spec fn numbered_heading_end(t: Seq<char>) -> Option<int> {
    let i = if t.len() > 0 && t[0] == '第' {
        1int
    } else {
        0int
    };
    let j = run_end(t, i, space_pred());
    if j - i > 4 {
        None
    } else {
        let k = run_end(t, j, numbering_pred());
        if k <= j {
            None
        } else {
            let m = run_end(t, k, space_pred());
            if m - k <= 4 && m < t.len() && is_unit_word_char(t[m]) {
                Some(m + 1)
            } else {
                None
            }
        }
    }
}

/// The heading heuristic over an already trimmed line.
pub open spec fn is_heading(t: Seq<char>) -> bool {
    (match keyword_len_at(t) {
        Some(k) => t.len() <= k + 30,
        None => false,
    }) || (match numbered_heading_end(t) {
        Some(e) => t.len() <= e + 30,
        None => false,
    })
}

/// Decide the heading heuristic for a trimmed line.
pub fn heading_line(t: &str) -> (b: bool)
    ensures
        b == is_heading(t@),
{
    let n = t.unicode_len();

    let keyword: Option<usize> = if n >= 3 && t.get_char(0) == '卷' && t.get_char(1) == '首'
        && t.get_char(2) == '语' {
        Some(3)
    } else if n >= 2 {
        let c0 = t.get_char(0);
        let c1 = t.get_char(1);
        if (c0 == '序' && (c1 == '章' || c1 == '言')) || (c0 == '扉' && c1 == '页')
            || (c0 == '楔' && c1 == '子') || (c0 == '正' && c1 == '文')
            || (c0 == '终' && c1 == '章') || (c0 == '后' && c1 == '记')
            || (c0 == '尾' && c1 == '声') || (c0 == '番' && c1 == '外') {
            Some(2)
        } else {
            None
        }
    } else {
        None
    };
    let keyword_ok: bool = match keyword {
        Some(k) => n <= k + 30,
        None => false,
    };

    let i: usize = if n > 0 && t.get_char(0) == '第' {
        1
    } else {
        0
    };
    let j = space_run(t, i);
    let numbered_ok: bool = if j - i > 4 {
        false
    } else {
        let k = numbering_run(t, j);
        if k <= j {
            false
        } else {
            let m = space_run(t, k);
            if m - k <= 4 && m < n && unit_word_char(t.get_char(m)) {
                n - m <= 31
            } else {
                false
            }
        }
    };

    keyword_ok || numbered_ok
}

pub proof fn lemma_trim_end(s: Seq<char>, e: int)
    requires
        0 <= e <= s.len(),
    ensures
        0 <= trim_end_idx(s, e) <= e,
        forall|j: int| trim_end_idx(s, e) <= j < e ==> is_space_char(s[j]),
        trim_end_idx(s, e) > 0 ==> !is_space_char(s[trim_end_idx(s, e) - 1]),
    decreases e,
{
    if 0 < e && is_space_char(s[e - 1]) {
        lemma_trim_end(s, e - 1);
    }
}

/// Bounds of the line after trimming: `trim_spec` is the subrange they cut.
pub fn trim_bounds(s: &str) -> (r: (usize, usize))
    ensures
        r.0 <= r.1 <= s@.len(),
        trim_spec(s@) == s@.subrange(r.0 as int, r.1 as int),
{
    let n = s.unicode_len();
    let a = space_run(s, 0);
    if a == n {
        proof {
            crate::chars::lemma_run_end(s@, 0, space_pred());
            lemma_trim_end(s@, n as int);
            if trim_end_idx(s@, n as int) > 0 {
                assert(is_space_char(s@[trim_end_idx(s@, n as int) - 1]));
            }
            assert(trim_end_idx(s@, n as int) == 0);
            assert(trim_spec(s@) =~= s@.subrange(a as int, a as int));
        }
        (a, a)
    } else {
        proof {
            crate::chars::lemma_run_end(s@, 0, space_pred());
            assert(!is_space_char(s@[a as int]));
        }
        let mut b = n;
        while b > a && space_char(s.get_char(b - 1))
            invariant
                a < n,
                a < b <= n,
                n == s@.len(),
                !is_space_char(s@[a as int]),
                trim_end_idx(s@, n as int) == trim_end_idx(s@, b as int),
            decreases b,
        {
            b = b - 1;
        }
        proof {
            assert(a < b);
            assert(trim_end_idx(s@, b as int) == b as int);
        }
        (a, b)
    }
}

} // verus!
