use reader_core::errors::error_response;
use reader_core::errors::str_contains;
use reader_core::errors::AppError;

#[test]
fn error_codes_by_marker_phrase() {
    let cases: Vec<(AppError, u16, i32)> = vec![
        (AppError::Auth("用户名或密码错误".to_string()), 401, 1001),
        (AppError::Validation("邀请码无效".to_string()), 400, 1002),
        (AppError::Validation("用户名已存在".to_string()), 400, 1003),
        (AppError::Jwt("token expired".to_string()), 401, 1004),
        (AppError::Forbidden("需要管理员权限".to_string()), 403, 1005),
        (AppError::Validation("管理员已设置，无法重复设置".to_string()), 400, 1006),
        (AppError::Validation("旧密码不正确".to_string()), 400, 1007),
        (AppError::NotFound("书籍不存在".to_string()), 404, 2001),
        (AppError::Forbidden("无权访问该书籍".to_string()), 403, 2002),
        (AppError::Validation("只支持TXT格式的书籍".to_string()), 400, 2003),
        (AppError::NotFound("用户不存在".to_string()), 404, 3001),
        (AppError::Validation("密码不能为空".to_string()), 400, 400),
        (AppError::NotFound("章节不存在".to_string()), 404, 404),
        (AppError::Forbidden("无权修改".to_string()), 403, 403),
        (AppError::BadRequest("位置超出内容范围".to_string()), 400, 400),
        (AppError::Database("connection lost".to_string()), 500, 9999),
        (AppError::Io("missing file".to_string()), 500, 9999),
        (AppError::Internal("oops".to_string()), 500, 9999),
        (AppError::ParseError("bad text".to_string()), 500, 9999),
    ];
    for (err, status, code) in cases {
        let (s, body) = error_response(&err);
        assert_eq!(s, status);
        assert_eq!(body.code, code);
    }
}

#[test]
fn error_messages_prefixed_or_fixed() {
    let (_, body) = error_response(&AppError::Validation("邀请码无效".to_string()));
    assert_eq!(body.message, "参数验证失败: 邀请码无效");
    let (_, body) = error_response(&AppError::NotFound("书籍不存在".to_string()));
    assert_eq!(body.message, "资源不存在: 书籍不存在");
    let (_, body) = error_response(&AppError::Jwt("anything".to_string()));
    assert_eq!(body.message, "未登录或登录已过期");
    let (_, body) = error_response(&AppError::Database("anything".to_string()));
    assert_eq!(body.message, "服务器内部错误");
}

#[test]
fn contains_finds_substrings() {
    assert!(str_contains("无权访问该书籍", "书籍"));
    assert!(str_contains("abc", ""));
    assert!(str_contains("abc", "abc"));
    assert!(!str_contains("ab", "abc"));
    assert!(!str_contains("书籍", "邀请码"));
    assert!(str_contains("xxabyaabcz", "abc"));
}
