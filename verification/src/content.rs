//! Reading a window of book content, and paging through lists.
//!
//! Positions and window bounds are counted in characters, the same unit
//! the segmenter records chapter offsets in, so a window can never cut a
//! multi-byte character in half.

use vstd::prelude::*;
use vstd::string::StrSliceExecFns;
use vstd::string::StringExecFns;

use crate::errors::AppError;
use crate::models::BookContentResponse;
use crate::models::ContentParams;
use crate::models::PaginationParams;
use crate::models::RandomPublicParams;

verus! {

/// The window length a content read uses: the requested length, defaulted
/// to 4000 and clamped into [100, 10000].
pub open spec fn requested_length(length: Option<i64>) -> int {
    let l: int = match length {
        Some(v) => v as int,
        None => 4000,
    };
    if l < 100 {
        100
    } else if l > 10000 {
        10000
    } else {
        l
    }
}

/// A negative requested position reads from the start.
pub open spec fn clamped_position(position: i64) -> int {
    if position < 0 {
        0
    } else {
        position as int
    }
}

/// Cut the requested window out of a book's text.  Succeeds exactly when
/// the (clamped) position lies inside the text; the window ends at the
/// requested length or the end of the text, whichever comes first, and
/// `next_position` is where the following read would start.
pub fn slice_content(content: &str, params: &ContentParams) -> (r: Result<
    BookContentResponse,
    AppError,
>)
    requires
        content@.len() <= i64::MAX,
    ensures
        r is Ok <==> clamped_position(params.position) < content@.len(),
        r matches Ok(resp) ==> ({
            let p = clamped_position(params.position);
            let e = vstd::math::min(p + requested_length(params.length), content@.len() as int);
            &&& resp.content@ == content@.subrange(p, e)
            &&& resp.next_position as int == e
        }),
        r matches Err(e) ==> e is BadRequest,
{
    let len = content.unicode_len();
    let position_i: i64 = if params.position < 0 {
        0
    } else {
        params.position
    };
    if position_i >= len as i64 {
        return Err(AppError::BadRequest(String::from_str("位置超出内容范围")));
    }
    let position: usize = position_i as usize;
    let length: usize = match params.length {
        Some(v) => if v < 100 {
            100
        } else if v > 10000 {
            10000
        } else {
            v as usize
        },
        None => 4000,
    };
    let end: usize = if len - position > length {
        position + length
    } else {
        len
    };
    let slice = content.substring_char(position, end);
    Ok(BookContentResponse { content: slice.to_owned(), next_position: end as i64 })
}

/// The page a list request asks for, starting at one.
pub open spec fn page_of(params: PaginationParams) -> int {
    match params.page {
        Some(p) => p as int,
        None => 1,
    }
}

/// The page size a list request asks for.
pub open spec fn limit_of(params: PaginationParams) -> int {
    match params.limit {
        Some(l) => l as int,
        None => 10,
    }
}

/// Resolve pagination parameters to `(page, limit, offset)`, where
/// `offset` counts the rows before the requested page.
pub fn page_offset(params: &PaginationParams) -> (r: (u32, u32, u32))
    requires
        page_of(*params) >= 1,
        (page_of(*params) - 1) * limit_of(*params) <= u32::MAX,
    ensures
        r.0 as int == page_of(*params),
        r.1 as int == limit_of(*params),
        r.2 as int == (page_of(*params) - 1) * limit_of(*params),
{
    let page: u32 = match params.page {
        Some(p) => p,
        None => 1,
    };
    let limit: u32 = match params.limit {
        Some(l) => l,
        None => 10,
    };
    (page, limit, (page - 1) * limit)
}

/// How many random public books to pick: the request, defaulted to one
/// and clamped into [1, 10].
pub fn random_count(params: &RandomPublicParams) -> (r: i64)
    ensures
        r as int == ({
            let c: int = match params.count {
                Some(v) => v as int,
                None => 1,
            };
            if c < 1 {
                1int
            } else if c > 10 {
                10int
            } else {
                c
            }
        }),
{
    let c: i64 = match params.count {
        Some(v) => v,
        None => 1,
    };
    if c < 1 {
        1
    } else if c > 10 {
        10
    } else {
        c
    }
}

} // verus!
