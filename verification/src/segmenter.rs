//! The text segmenter: scans the full text of a book line by line and
//! produces the ordered chapter list.
//!
//! The first line with visible content is always emitted as chapter 0,
//! whether or not it looks like a heading (it is taken to be the book or
//! author title line).  Every later line that satisfies the heading
//! heuristic opens a further chapter.  The scan never fails: a document
//! without headings yields just the synthesized chapter 0, and a document
//! without visible content yields an empty list.  Each offset is the
//! character index at which the chapter's line starts — the unit the
//! content-reading interface addresses, so an offset can never point into
//! the middle of a multi-byte character.

use vstd::prelude::*;

use crate::chars::lemma_run_end;
use crate::chars::run_end;
use crate::headings::heading_line;
use crate::headings::is_heading;
use crate::headings::trim_bounds;
use crate::headings::trim_spec;

verus! {

broadcast use vstd::seq::group_seq_axioms;

/// Everything but the newline that ends a line.
pub open spec fn not_newline_pred() -> spec_fn(char) -> bool {
    |c: char| c != '\n'
}

/// Index of the newline that ends the line starting at `i`, or the end of
/// the text.
pub open spec fn line_end(text: Seq<char>, i: int) -> int {
    run_end(text, i, not_newline_pred())
}

/// The trimmed content of the line starting at `i`.
pub open spec fn line_at(text: Seq<char>, i: int) -> Seq<char> {
    trim_spec(text.subrange(i, line_end(text, i)))
}

/// Chapters contributed by the lines from character index `i` on, once
/// chapter 0 has already been emitted: one entry per line that satisfies
/// the heading heuristic, at the character index where its line starts.
pub open spec fn headings_from(text: Seq<char>, i: int) -> Seq<(Seq<char>, int)>
    decreases text.len() - i,
        when 0 <= i <= text.len()
        via headings_from_decreases
{
    let e = line_end(text, i);
    let this = if is_heading(line_at(text, i)) {
        seq![(line_at(text, i), i)]
    } else {
        Seq::<(Seq<char>, int)>::empty()
    };
    if e >= text.len() {
        this
    } else {
        this + headings_from(text, e + 1)
    }
}

#[via_fn]
proof fn headings_from_decreases(text: Seq<char>, i: int) {
    lemma_run_end(text, i, not_newline_pred());
}

/// The character index of the first line from `i` on whose trimmed
/// content is non-empty.
pub open spec fn first_content(text: Seq<char>, i: int) -> Option<int>
    decreases text.len() - i,
        when 0 <= i <= text.len()
        via first_content_decreases
{
    let e = line_end(text, i);
    if line_at(text, i).len() > 0 {
        Some(i)
    } else if e >= text.len() {
        None
    } else {
        first_content(text, e + 1)
    }
}

#[via_fn]
proof fn first_content_decreases(text: Seq<char>, i: int) {
    lemma_run_end(text, i, not_newline_pred());
}

/// Chapters still to be produced when the scan stands at character index
/// `i`: before chapter 0 has been found (`found` false) the next content
/// line becomes chapter 0 and the lines after it are tested; afterwards
/// only the heading test applies.
pub open spec fn chapters_rest(text: Seq<char>, i: int, found: bool) -> Seq<(Seq<char>, int)> {
    if found {
        headings_from(text, i)
    } else {
        match first_content(text, i) {
            None => Seq::<(Seq<char>, int)>::empty(),
            Some(f) => {
                let e = line_end(text, f);
                let head = seq![(line_at(text, f), f)];
                if e >= text.len() {
                    head
                } else {
                    head + headings_from(text, e + 1)
                }
            },
        }
    }
}

/// The chapter list of a document: trimmed titles, each with the
/// character index of its line's start.
pub open spec fn chapters_spec(text: Seq<char>) -> Seq<(Seq<char>, int)> {
    chapters_rest(text, 0, false)
}

/// Segmenting the same text twice yields the same chapter list: the
/// chapter list is a function of the text alone.
pub proof fn lemma_segmentation_deterministic(t1: Seq<char>, t2: Seq<char>)
    requires
        t1 == t2,
    ensures
        chapters_spec(t1) == chapters_spec(t2),
{
}

/// When the document has a line with visible content, the chapter list is
/// non-empty and chapter 0 is exactly that first content line, whether or
/// not it matches any heading pattern; without one the list is empty.
pub proof fn lemma_chapter_zero(text: Seq<char>)
    ensures
        chapters_spec(text).len() > 0 <==> first_content(text, 0) is Some,
        first_content(text, 0) matches Some(f) ==> chapters_spec(text)[0] == (
            line_at(text, f),
            f,
        ),
{
}

/// Offsets in `headings_from` start at `i` and are strictly increasing.
proof fn lemma_headings_from_offsets(text: Seq<char>, i: int)
    requires
        0 <= i <= text.len(),
    ensures
        forall|q: int| #![trigger headings_from(text, i)[q]]
            0 <= q < headings_from(text, i).len() ==> i <= headings_from(text, i)[q].1,
        forall|q: int| #![trigger headings_from(text, i)[q]]
            0 <= q && q + 1 < headings_from(text, i).len()
            ==> headings_from(text, i)[q].1 < headings_from(text, i)[q + 1].1,
    decreases text.len() - i,
{
    lemma_run_end(text, i, not_newline_pred());
    let e = line_end(text, i);
    let hs = headings_from(text, i);
    let this = if is_heading(line_at(text, i)) {
        seq![(line_at(text, i), i)]
    } else {
        Seq::<(Seq<char>, int)>::empty()
    };
    if e >= text.len() {
        assert(hs == this);
    } else {
        lemma_headings_from_offsets(text, e + 1);
        let rest = headings_from(text, e + 1);
        assert(hs == this + rest);
        assert forall|q: int| #![trigger hs[q]] 0 <= q < hs.len() implies i <= hs[q].1 by {
            assert(hs[q] == (this + rest)[q]);
            if q < this.len() {
                assert(hs[q] == this[q]);
            } else {
                assert(hs[q] == rest[q - this.len()]);
                assert(e + 1 <= rest[q - this.len()].1);
            }
        }
        assert forall|q: int| #![trigger hs[q]] 0 <= q && q + 1 < hs.len() implies hs[q].1 < hs[q
            + 1].1 by {
            assert(hs[q] == (this + rest)[q]);
            assert(hs[q + 1] == (this + rest)[q + 1]);
            if this.len() == 1 {
                if q == 0 {
                    assert(hs[0] == this[0]);
                    assert(hs[1] == rest[0]);
                    assert(e + 1 <= rest[0].1);
                } else {
                    assert(hs[q] == rest[q - 1]);
                    assert(hs[q + 1] == rest[q]);
                    assert(rest[q - 1].1 < rest[q].1);
                }
            } else {
                assert(hs[q] == rest[q]);
                assert(hs[q + 1] == rest[q + 1]);
                assert(rest[q].1 < rest[q + 1].1);
            }
        }
    }
}

/// Chapter offsets are strictly increasing in document order.
pub proof fn lemma_chapter_offsets_monotonic(text: Seq<char>)
    ensures
        forall|q: int| #![trigger chapters_spec(text)[q]]
            0 <= q && q + 1 < chapters_spec(text).len()
            ==> chapters_spec(text)[q].1 < chapters_spec(text)[q + 1].1,
{
    let cs = chapters_spec(text);
    if first_content(text, 0) is Some {
        let f = first_content(text, 0)->0;
        lemma_first_content_in_range(text, 0);
        let e = line_end(text, f);
        lemma_run_end(text, f, not_newline_pred());
        let head = seq![(line_at(text, f), f)];
        if e >= text.len() {
            assert(cs == head);
        } else {
            lemma_headings_from_offsets(text, e + 1);
            let rest = headings_from(text, e + 1);
            assert(cs == head + rest);
            assert forall|q: int| #![trigger cs[q]] 0 <= q && q + 1 < cs.len() implies cs[q].1
                < cs[q + 1].1 by {
                assert(cs[q] == (head + rest)[q]);
                assert(cs[q + 1] == (head + rest)[q + 1]);
                if q == 0 {
                    assert(cs[0] == head[0]);
                    assert(cs[1] == rest[0]);
                    assert(e + 1 <= rest[0].1);
                } else {
                    assert(cs[q] == rest[q - 1]);
                    assert(cs[q + 1] == rest[q]);
                    assert(rest[q - 1].1 < rest[q].1);
                }
            }
        }
    }
}

/// `first_content` finds a line start inside the text, at or after where
/// it started looking.
proof fn lemma_first_content_in_range(text: Seq<char>, i: int)
    requires
        0 <= i <= text.len(),
    ensures
        first_content(text, i) matches Some(f) ==> i <= f <= text.len(),
    decreases text.len() - i,
{
    lemma_run_end(text, i, not_newline_pred());
    let e = line_end(text, i);
    if line_at(text, i).len() > 0 {
    } else if e < text.len() {
        lemma_first_content_in_range(text, e + 1);
    }
}

/// End of the line starting at `i`: the next newline, or the end of `s`.
fn line_run(s: &str, i: usize) -> (r: usize)
    requires
        i <= s@.len(),
    ensures
        r as int == line_end(s@, i as int),
        i <= r <= s@.len(),
{
    let n = s.unicode_len();
    let mut j = i;
    while j < n && s.get_char(j) != '\n'
        invariant
            i <= j <= n,
            n == s@.len(),
            run_end(s@, i as int, not_newline_pred()) == run_end(s@, j as int, not_newline_pred()),
        decreases n - j,
    {
        j = j + 1;
    }
    proof {
        assert(run_end(s@, j as int, not_newline_pred()) == j as int);
    }
    j
}

/// Split a book's text into its ordered chapter list: `(title, offset)`
/// pairs, the offset being the character index of the heading's line
/// start.  The first content line is always chapter 0; later lines are
/// chapters exactly when the heading heuristic accepts them.  Never fails
/// for any input.
pub fn extract_chapters(content: &str) -> (r: Vec<(String, usize)>)
    ensures
        r@.len() == chapters_spec(content@).len(),
        forall|q: int| 0 <= q < r@.len() ==> #[trigger] r@[q].0@ == chapters_spec(content@)[q].0
            && r@[q].1 as int == chapters_spec(content@)[q].1,
        forall|q: int| 0 <= q && q + 1 < r@.len() ==> #[trigger] r@[q].1 < r@[q + 1].1,
{
    let n = content.unicode_len();
    let mut result: Vec<(String, usize)> = Vec::new();
    let mut i: usize = 0;
    let mut found_first: bool = false;
    let mut more: bool = true;
    while more
        invariant
            n == content@.len(),
            0 <= i <= n,
            result@.len() + chapters_rest(content@, i as int, found_first).len()
                == chapters_spec(content@).len(),
            forall|q: int| #![trigger result@[q]]
                0 <= q < result@.len()
                    ==> result@[q].0@ == chapters_spec(content@)[q].0
                        && result@[q].1 as int == chapters_spec(content@)[q].1,
            forall|q: int| #![trigger chapters_rest(content@, i as int, found_first)[q]]
                0 <= q < chapters_rest(content@, i as int, found_first).len()
                    ==> chapters_rest(content@, i as int, found_first)[q]
                        == chapters_spec(content@)[result@.len() + q],
            !more ==> chapters_rest(content@, i as int, found_first).len() == 0,
        decreases n - i + (if more { 1int } else { 0int }),
    {
        let ghost text = content@;
        let ghost i0 = i as int;
        let ghost found0 = found_first;
        let ghost res0 = result@;
        let ghost rest0 = chapters_rest(text, i0, found0);
        let ghost spec_all = chapters_spec(text);

        let e = line_run(content, i);
        let line = content.substring_char(i, e);
        let (a, b) = trim_bounds(line);
        let trimmed = line.substring_char(a, b);
        proof {
            assert(line@ == text.subrange(i0, line_end(text, i0)));
            assert(trimmed@ == line_at(text, i0));
        }
        let is_chapter: bool = if !found_first {
            b > a
        } else {
            heading_line(trimmed)
        };
        if is_chapter {
            let title = trimmed.to_owned();
            result.push((title, i));
            proof {
                assert(result@.len() == res0.len() + 1);
                assert(forall|q: int| 0 <= q < res0.len() ==> result@[q] == res0[q]);
                assert(result@[res0.len() as int].0@ == line_at(text, i0));
                assert(result@[res0.len() as int].1 == i);
            }
        }
        if !found_first && is_chapter {
            found_first = true;
        }
        if e == n {
            more = false;
            i = n;
        } else {
            i = e + 1;
        }
        proof {
            let rest1 = chapters_rest(text, i as int, found_first);
            let e0 = line_end(text, i0);
            assert(e0 == e as int);
            if e0 >= text.len() {
                lemma_line_at_end_empty(text, found_first);
                assert(rest1.len() == 0);
            }
            // The old remainder splits into what this line contributed and
            // the new remainder.
            if is_chapter {
                if !found0 {
                    assert(line_at(text, i0).len() > 0);
                    assert(first_content(text, i0) == Some(i0));
                } else {
                    assert(is_heading(line_at(text, i0)));
                }
                if e0 >= text.len() {
                    assert(rest0 =~= seq![(line_at(text, i0), i0)] + rest1);
                } else {
                    assert(rest1 == headings_from(text, e0 + 1));
                    assert(rest0 == seq![(line_at(text, i0), i0)] + rest1);
                }
                assert(rest0[0] == (line_at(text, i0), i0));
                assert(rest0[0] == spec_all[res0.len() as int]);
                assert forall|q: int| #![trigger result@[q]] 0 <= q < result@.len() implies
                    result@[q].0@ == spec_all[q].0 && result@[q].1 as int == spec_all[q].1 by {
                    if q < res0.len() {
                        assert(result@[q] == res0[q]);
                    } else {
                        assert(q == res0.len());
                        assert(result@[q].0@ == line_at(text, i0));
                        assert(result@[q].1 == i0 as usize);
                    }
                }
                assert forall|q: int| #![trigger rest1[q]] 0 <= q < rest1.len() implies
                    rest1[q] == spec_all[result@.len() + q] by {
                    assert(rest1[q] == rest0[q + 1]);
                    assert(rest0[q + 1] == spec_all[res0.len() + q + 1]);
                }
            } else {
                assert(result@ == res0);
                if !found0 {
                    assert(line_at(text, i0).len() == 0);
                    if e0 >= text.len() {
                        assert(first_content(text, i0) is None);
                        assert(rest0.len() == 0);
                    } else {
                        assert(first_content(text, i0) == first_content(text, e0 + 1));
                        assert(rest1 =~= rest0);
                    }
                } else {
                    assert(!is_heading(line_at(text, i0)));
                    if e0 >= text.len() {
                        assert(rest0.len() == 0);
                    } else {
                        assert(rest0 == Seq::<(Seq<char>, int)>::empty()
                            + headings_from(text, e0 + 1));
                        assert(rest1 =~= rest0);
                    }
                }
                assert forall|q: int| #![trigger rest1[q]] 0 <= q < rest1.len() implies
                    rest1[q] == spec_all[result@.len() + q] by {
                    assert(rest1[q] == rest0[q]);
                }
            }
        }
    }
    proof {
        lemma_chapter_offsets_monotonic(content@);
    }
    result
}

/// At the very end of the text there is no further line: the rest of the
/// chapter list is empty.
proof fn lemma_line_at_end_empty(text: Seq<char>, found: bool)
    ensures
        chapters_rest(text, text.len() as int, found).len() == 0,
{
    let n = text.len() as int;
    assert(line_end(text, n) == n);
    assert(line_at(text, n) =~= Seq::<char>::empty());
    assert(trim_spec(Seq::<char>::empty()).len() == 0);
    assert(!is_heading(Seq::<char>::empty()));
}

} // verus!
