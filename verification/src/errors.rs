//! Domain errors and the status line and error code each one maps to.
//!
//! The classification keys on the variant and on marker phrases inside
//! the message, in a fixed order of precedence, so that, for instance, a
//! not-found error about a book answers with a different code than one
//! about a user.  Unclassified failures collapse into one opaque
//! server-error answer.

use vstd::prelude::*;
use vstd::string::StringExecFns;

verus! {

broadcast use vstd::seq::group_seq_axioms;

/// A domain-level failure.  Every variant carries its message; failures
/// of outside collaborators (store, token layer, file system) arrive
/// already rendered as text.
#[derive(Debug)]
pub enum AppError {
    Database(String),
    Auth(String),
    Jwt(String),
    Validation(String),
    NotFound(String),
    Forbidden(String),
    Io(String),
    Internal(String),
    BadRequest(String),
    ParseError(String),
}

/// The error body answered to clients.
pub struct ErrorResponse {
    pub code: i32,
    pub message: String,
}

/// `needle` occurs contiguously inside `hay`.
pub open spec fn contains_seq(hay: Seq<char>, needle: Seq<char>) -> bool {
    exists|i: int|
        #![trigger hay.subrange(i, i + needle.len() as int)]
        0 <= i <= hay.len() - needle.len() && hay.subrange(i, i + needle.len() as int) == needle
}

/// Whether `needle` occurs inside `hay`.
pub fn str_contains(hay: &str, needle: &str) -> (r: bool)
    ensures
        r == contains_seq(hay@, needle@),
{
    let n = hay.unicode_len();
    let m = needle.unicode_len();
    if m > n {
        return false;
    }
    let mut i: usize = 0;
    while i <= n - m
        invariant
            n == hay@.len(),
            m == needle@.len(),
            m <= n,
            0 <= i <= n - m + 1,
            forall|ii: int| #![trigger hay@.subrange(ii, ii + m as int)]
                0 <= ii < i ==> hay@.subrange(ii, ii + m as int) != needle@,
        decreases n - m + 1 - i,
    {
        let mut j: usize = 0;
        while j < m && hay.get_char(i + j) == needle.get_char(j)
            invariant
                n == hay@.len(),
                m == needle@.len(),
                i + m <= n,
                0 <= j <= m,
                forall|jj: int| 0 <= jj < j ==> hay@[i + jj] == needle@[jj],
            decreases m - j,
        {
            j = j + 1;
        }
        if j == m {
            proof {
                assert(hay@.subrange(i as int, i + m as int) =~= needle@);
            }
            return true;
        }
        proof {
            assert(hay@.subrange(i as int, i + m as int)[j as int] == hay@[i + j]);
            assert(hay@.subrange(i as int, i + m as int) != needle@);
        }
        i = i + 1;
    }
    proof {
        assert(forall|ii: int| #![trigger hay@.subrange(ii, ii + m as int)]
            0 <= ii <= n - m ==> hay@.subrange(ii, ii + m as int) != needle@);
    }
    false
}

/// The HTTP status the error answers with.
pub open spec fn error_status_spec(e: AppError) -> int {
    match e {
        AppError::Auth(_) => 401,
        AppError::Jwt(_) => 401,
        AppError::Validation(_) => 400,
        AppError::NotFound(_) => 404,
        AppError::Forbidden(_) => 403,
        AppError::BadRequest(_) => 400,
        _ => 500,
    }
}

/// The domain error code, classified by variant and marker phrase.
pub open spec fn error_code_spec(e: AppError) -> int {
    match e {
        AppError::Auth(_) => 1001,
        AppError::Jwt(_) => 1004,
        AppError::Validation(m) => {
            if contains_seq(m@, "邀请码"@) {
                1002
            } else if contains_seq(m@, "用户名已存在"@) {
                1003
            } else if contains_seq(m@, "管理员已设置"@) {
                1006
            } else if contains_seq(m@, "旧密码"@) {
                1007
            } else if contains_seq(m@, "格式"@) {
                2003
            } else if contains_seq(m@, "过大"@) {
                2004
            } else {
                400
            }
        },
        AppError::NotFound(m) => {
            if contains_seq(m@, "书籍"@) {
                2001
            } else if contains_seq(m@, "用户"@) {
                3001
            } else {
                404
            }
        },
        AppError::Forbidden(m) => {
            if contains_seq(m@, "管理员"@) {
                1005
            } else if contains_seq(m@, "书籍"@) {
                2002
            } else {
                403
            }
        },
        AppError::BadRequest(_) => 400,
        _ => 9999,
    }
}

/// The message the error answers with: the classified variants keep their
/// prefixed message, token failures and server-side failures answer a
/// fixed phrase.
pub open spec fn error_message_spec(e: AppError) -> Seq<char> {
    match e {
        AppError::Auth(m) => "身份验证错误: "@ + m@,
        AppError::Jwt(_) => "未登录或登录已过期"@,
        AppError::Validation(m) => "参数验证失败: "@ + m@,
        AppError::NotFound(m) => "资源不存在: "@ + m@,
        AppError::Forbidden(m) => "权限不足: "@ + m@,
        AppError::BadRequest(m) => "请求处理错误: "@ + m@,
        _ => "服务器内部错误"@,
    }
}

fn prefixed(prefix: &str, m: &String) -> (r: String)
    ensures
        r@ == prefix@ + m@,
{
    let s = String::from_str(prefix);
    s.concat(m.as_str())
}

/// Map an error to the status line and body it answers with.
pub fn error_response(e: &AppError) -> (r: (u16, ErrorResponse))
    ensures
        r.0 as int == error_status_spec(*e),
        r.1.code as int == error_code_spec(*e),
        r.1.message@ == error_message_spec(*e),
{
    match e {
        AppError::Auth(m) => (
            401,
            ErrorResponse { code: 1001, message: prefixed("身份验证错误: ", m) },
        ),
        AppError::Jwt(_) => (
            401,
            ErrorResponse { code: 1004, message: String::from_str("未登录或登录已过期") },
        ),
        AppError::Validation(m) => {
            let code: i32 = if str_contains(m.as_str(), "邀请码") {
                1002
            } else if str_contains(m.as_str(), "用户名已存在") {
                1003
            } else if str_contains(m.as_str(), "管理员已设置") {
                1006
            } else if str_contains(m.as_str(), "旧密码") {
                1007
            } else if str_contains(m.as_str(), "格式") {
                2003
            } else if str_contains(m.as_str(), "过大") {
                2004
            } else {
                400
            };
            (400, ErrorResponse { code, message: prefixed("参数验证失败: ", m) })
        },
        AppError::NotFound(m) => {
            let code: i32 = if str_contains(m.as_str(), "书籍") {
                2001
            } else if str_contains(m.as_str(), "用户") {
                3001
            } else {
                404
            };
            (404, ErrorResponse { code, message: prefixed("资源不存在: ", m) })
        },
        AppError::Forbidden(m) => {
            let code: i32 = if str_contains(m.as_str(), "管理员") {
                1005
            } else if str_contains(m.as_str(), "书籍") {
                2002
            } else {
                403
            };
            (403, ErrorResponse { code, message: prefixed("权限不足: ", m) })
        },
        AppError::BadRequest(m) => (
            400,
            ErrorResponse { code: 400, message: prefixed("请求处理错误: ", m) },
        ),
        _ => (
            500,
            ErrorResponse { code: 9999, message: String::from_str("服务器内部错误") },
        ),
    }
}

} // verus!
