use reader_core::extractor::extract_chapter_number;

#[test]
fn extract_arabic_number() {
    assert_eq!(extract_chapter_number("第1章 开始"), Some(1));
    assert_eq!(extract_chapter_number("第 42 节"), Some(42));
}

#[test]
fn extract_cjk_number() {
    assert_eq!(extract_chapter_number("第一百章"), Some(100));
    assert_eq!(extract_chapter_number("第二十三节 春天"), Some(23));
}

#[test]
fn extract_marker_optional() {
    assert_eq!(extract_chapter_number("3章 直接"), Some(3));
    assert_eq!(extract_chapter_number("十一卷"), Some(11));
}

#[test]
fn extract_none_without_pattern() {
    assert_eq!(extract_chapter_number("后记"), None);
    assert_eq!(extract_chapter_number("第章"), None);
    assert_eq!(extract_chapter_number("只是普通的一行字"), None);
}

#[test]
fn extract_arabic_overflow_yields_none() {
    // The digit run overflows an i64, and the CJK attempt is not made.
    assert_eq!(extract_chapter_number("第99999999999999999999章"), None);
}

#[test]
fn extract_arabic_takes_precedence() {
    // The leftmost ASCII-digit pattern wins even when a CJK pattern
    // stands earlier in the line.
    assert_eq!(extract_chapter_number("第一章 第2章"), Some(2));
}

#[test]
fn extract_mid_line_occurrence() {
    // Unlike the heading heuristic, extraction searches the whole line.
    assert_eq!(extract_chapter_number("番外：第7篇 尾声"), Some(7));
}

#[test]
fn extract_leading_zeros() {
    assert_eq!(extract_chapter_number("第007章"), Some(7));
}

#[test]
fn extract_bankers_numerals() {
    assert_eq!(extract_chapter_number("第拾壹章"), Some(11));
    assert_eq!(extract_chapter_number("第玖章"), Some(9));
    assert_eq!(extract_chapter_number("第壹仟章"), Some(1000));
}

#[test]
fn extract_unreadable_cjk_run_is_none() {
    // 万 belongs to the numbering class of the pattern but has no value in
    // the interpreter's tables, so the run reads as nothing.
    assert_eq!(extract_chapter_number("第万章"), None);
}
