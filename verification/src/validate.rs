//! Request validation: the rules a registration or an upload must pass
//! before any row is written, with the exact error each violation earns.

use vstd::prelude::*;
use vstd::utf8::encode_utf8;

use crate::errors::AppError;
use crate::models::CreateUserRequest;
use crate::models::InviteCode;

verus! {

/// Usernames are 2 to 20 bytes of UTF-8.
pub open spec fn username_len_ok(u: Seq<char>) -> bool {
    2 <= encode_utf8(u).len() <= 20
}

/// Whether an invite code still has uses left: a negative limit means
/// unlimited use.
pub open spec fn invite_usable_spec(limit_times: i64, used_times: i64) -> bool {
    !(limit_times >= 0 && used_times >= limit_times)
}

pub fn invite_usable(code: &InviteCode) -> (r: bool)
    ensures
        r == invite_usable_spec(code.limit_times, code.used_times),
{
    !(code.limit_times >= 0 && code.used_times >= code.limit_times)
}

/// Whether registration demands an invite code: only when a settings row
/// exists and asks for one.  A missing row turns the requirement off
/// here, although the admin settings view defaults the same absence to
/// requiring codes (see `models::settings_or_default`).
pub fn invite_required_at_registration(setting: Option<bool>) -> (r: bool)
    ensures
        r == (setting matches Some(v) && v),
{
    match setting {
        Some(v) => v,
        None => false,
    }
}

/// All conditions a registration must meet: username length, a password,
/// an invite code when the system demands one (and then a known, usable
/// one), and a free username.
pub open spec fn registration_ok(
    req: CreateUserRequest,
    invite_code_required: bool,
    invite: Option<InviteCode>,
    username_exists: bool,
) -> bool {
    &&& username_len_ok(req.username@)
    &&& req.password@.len() > 0
    &&& (invite_code_required ==> req.invite_code is Some)
    &&& (req.invite_code is Some ==> (invite matches Some(c) && invite_usable_spec(
        c.limit_times,
        c.used_times,
    )))
    &&& !username_exists
}

/// Check a registration request.  `invite` is the stored row for the
/// offered code, if the code exists; `username_exists` whether the name
/// is already taken.  Violations are reported in a fixed order, each with
/// its message.
pub fn validate_registration(
    req: &CreateUserRequest,
    invite_code_required: bool,
    invite: Option<&InviteCode>,
    username_exists: bool,
) -> (r: Result<(), AppError>)
    ensures
        r is Ok <==> registration_ok(
            *req,
            invite_code_required,
            match invite {
                Some(c) => Some(*c),
                None => None,
            },
            username_exists,
        ),
        !username_len_ok(req.username@) ==> (r matches Err(AppError::Validation(m))
            && m@ == "用户名长度必须在 2-20 个字符之间"@),
        (username_len_ok(req.username@) && req.password@.len() == 0) ==> (r matches Err(
            AppError::Validation(m),
        ) && m@ == "密码不能为空"@),
        (username_len_ok(req.username@) && req.password@.len() > 0 && invite_code_required
            && req.invite_code is None) ==> (r matches Err(AppError::Validation(m))
            && m@ == "注册需要邀请码"@),
        (username_len_ok(req.username@) && req.password@.len() > 0 && (invite_code_required
            ==> req.invite_code is Some) && req.invite_code is Some && invite is None) ==> (
        r matches Err(AppError::Validation(m)) && m@ == "邀请码无效"@),
        (username_len_ok(req.username@) && req.password@.len() > 0 && (invite_code_required
            ==> req.invite_code is Some) && req.invite_code is Some && (invite matches Some(c)
            && !invite_usable_spec(c.limit_times, c.used_times))) ==> (r matches Err(
        AppError::Validation(m),
        ) && m@ == "邀请码已用完"@),
        (username_len_ok(req.username@) && req.password@.len() > 0 && (invite_code_required
            ==> req.invite_code is Some) && (req.invite_code is Some ==> (invite matches Some(c)
            && invite_usable_spec(c.limit_times, c.used_times))) && username_exists) ==> (
        r matches Err(AppError::Validation(m)) && m@ == "用户名已存在"@),
{
    let ulen = req.username.as_str().as_bytes().len();
    if ulen < 2 || ulen > 20 {
        return Err(
            AppError::Validation(String::from_str("用户名长度必须在 2-20 个字符之间")),
        );
    }
    if req.password.as_str().is_empty() {
        return Err(AppError::Validation(String::from_str("密码不能为空")));
    }
    if invite_code_required && req.invite_code.is_none() {
        return Err(AppError::Validation(String::from_str("注册需要邀请码")));
    }
    if req.invite_code.is_some() {
        match invite {
            Some(code) => {
                if !invite_usable(code) {
                    return Err(AppError::Validation(String::from_str("邀请码已用完")));
                }
            },
            None => {
                return Err(AppError::Validation(String::from_str("邀请码无效")));
            },
        }
    }
    if username_exists {
        return Err(AppError::Validation(String::from_str("用户名已存在")));
    }
    Ok(())
}

/// New passwords must be at least six bytes of UTF-8.
pub open spec fn password_len_ok(p: Seq<char>) -> bool {
    encode_utf8(p).len() >= 6
}

/// Check a new password, as set by the user or by an admin reset.
pub fn validate_new_password(p: &str) -> (r: Result<(), AppError>)
    ensures
        r is Ok <==> password_len_ok(p@),
        !password_len_ok(p@) ==> (r matches Err(AppError::Validation(m))
            && m@ == "新密码长度必须大于6个字符"@),
{
    if p.as_bytes().len() < 6 {
        Err(AppError::Validation(String::from_str("新密码长度必须大于6个字符")))
    } else {
        Ok(())
    }
}

/// Check the one-time admin setup: a long-enough password, and no admin
/// set up yet.
pub fn validate_admin_setup(password: &str, admin_exists: bool) -> (r: Result<(), AppError>)
    ensures
        r is Ok <==> (password_len_ok(password@) && !admin_exists),
        !password_len_ok(password@) ==> (r matches Err(AppError::Validation(m))
            && m@ == "密码长度必须大于6个字符"@),
        (password_len_ok(password@) && admin_exists) ==> (r matches Err(AppError::Validation(m))
            && m@ == "管理员已设置，无法重复设置"@),
{
    if password.as_bytes().len() < 6 {
        return Err(AppError::Validation(String::from_str("密码长度必须大于6个字符")));
    }
    if admin_exists {
        return Err(
            AppError::Validation(String::from_str("管理员已设置，无法重复设置")),
        );
    }
    Ok(())
}

/// A file name that names a plain-text book: it ends in ".txt", the
/// suffix compared without regard to ASCII case.
pub open spec fn is_txt_name(name: Seq<char>) -> bool {
    let n = name.len() as int;
    &&& n >= 4
    &&& name[n - 4] == '.'
    &&& (name[n - 3] == 't' || name[n - 3] == 'T')
    &&& (name[n - 2] == 'x' || name[n - 2] == 'X')
    &&& (name[n - 1] == 't' || name[n - 1] == 'T')
}

fn txt_name(name: &str) -> (r: bool)
    ensures
        r == is_txt_name(name@),
{
    let n = name.unicode_len();
    n >= 4 && name.get_char(n - 4) == '.' && (name.get_char(n - 3) == 't' || name.get_char(n - 3)
        == 'T') && (name.get_char(n - 2) == 'x' || name.get_char(n - 2) == 'X') && (name.get_char(
        n - 1,
    ) == 't' || name.get_char(n - 1) == 'T')
}

/// All conditions an upload must meet before its text is decoded: a
/// title, a file, a size within the ten-megabyte cap, and a ".txt" name.
pub open spec fn upload_ok(
    title: Option<String>,
    file_len: Option<usize>,
    file_name: Option<String>,
) -> bool {
    &&& title is Some
    &&& file_len matches Some(l) && l <= 10485760
    &&& file_name matches Some(nm) && is_txt_name(nm@)
}

/// Check the fields of an upload.  `file_len` is the byte length of the
/// uploaded file, when one was sent.  Violations are reported in a fixed
/// order, each with its message; a missing file name fails the format
/// check.
pub fn validate_upload(
    title: &Option<String>,
    file_len: Option<usize>,
    file_name: &Option<String>,
) -> (r: Result<(), AppError>)
    ensures
        r is Ok <==> upload_ok(*title, file_len, *file_name),
        title is None ==> (r matches Err(AppError::Validation(m)) && m@ == "标题不能为空"@),
        (title is Some && file_len is None) ==> (r matches Err(AppError::Validation(m))
            && m@ == "文件不能为空"@),
        (title is Some && (file_len matches Some(l) && l > 10485760)) ==> (r matches Err(
            AppError::Validation(m),
        ) && m@ == "文件大小不能超过10MB"@),
        (title is Some && (file_len matches Some(l) && l <= 10485760) && !(file_name matches Some(
            nm,
        ) && is_txt_name(nm@))) ==> (r matches Err(AppError::Validation(m))
            && m@ == "只支持TXT格式的书籍"@),
{
    if title.is_none() {
        return Err(AppError::Validation(String::from_str("标题不能为空")));
    }
    let len: usize = match file_len {
        Some(l) => l,
        None => {
            return Err(AppError::Validation(String::from_str("文件不能为空")));
        },
    };
    if len > 10485760 {
        return Err(AppError::Validation(String::from_str("文件大小不能超过10MB")));
    }
    let name_ok: bool = match file_name {
        Some(nm) => txt_name(nm.as_str()),
        None => false,
    };
    if !name_ok {
        return Err(AppError::Validation(String::from_str("只支持TXT格式的书籍")));
    }
    Ok(())
}

} // verus!
