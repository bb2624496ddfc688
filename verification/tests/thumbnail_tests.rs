use clippa::thumbnail::{
    best_thumbnail_url, hq_thumbnail_url, maxres_thumbnail_url, parse_decimal_u64,
    PLACEHOLDER_MAX_SIZE,
};

#[test]
fn thumbnail_urls() {
    assert_eq!(
        maxres_thumbnail_url("dQw4w9WgXcQ"),
        "https://i.ytimg.com/vi/dQw4w9WgXcQ/maxresdefault.jpg"
    );
    assert_eq!(
        hq_thumbnail_url("dQw4w9WgXcQ"),
        "https://i.ytimg.com/vi/dQw4w9WgXcQ/hqdefault.jpg"
    );
}

#[test]
fn large_maxres_is_used() {
    assert_eq!(
        best_thumbnail_url("dQw4w9WgXcQ", Some("123456")),
        "https://i.ytimg.com/vi/dQw4w9WgXcQ/maxresdefault.jpg"
    );
    assert_eq!(
        best_thumbnail_url("dQw4w9WgXcQ", Some("5001")),
        "https://i.ytimg.com/vi/dQw4w9WgXcQ/maxresdefault.jpg"
    );
}

#[test]
fn placeholder_sized_maxres_falls_back_to_hq() {
    assert_eq!(PLACEHOLDER_MAX_SIZE, 5000);
    assert_eq!(
        best_thumbnail_url("dQw4w9WgXcQ", Some("5000")),
        "https://i.ytimg.com/vi/dQw4w9WgXcQ/hqdefault.jpg"
    );
    assert_eq!(
        best_thumbnail_url("dQw4w9WgXcQ", Some("1097")),
        "https://i.ytimg.com/vi/dQw4w9WgXcQ/hqdefault.jpg"
    );
}

#[test]
fn missing_or_unreadable_size_falls_back_to_hq() {
    assert_eq!(
        best_thumbnail_url("dQw4w9WgXcQ", None),
        "https://i.ytimg.com/vi/dQw4w9WgXcQ/hqdefault.jpg"
    );
    assert_eq!(
        best_thumbnail_url("dQw4w9WgXcQ", Some("lots")),
        "https://i.ytimg.com/vi/dQw4w9WgXcQ/hqdefault.jpg"
    );
    assert_eq!(
        best_thumbnail_url("dQw4w9WgXcQ", Some("99999999999999999999999")),
        "https://i.ytimg.com/vi/dQw4w9WgXcQ/hqdefault.jpg"
    );
}

#[test]
fn decimal_parsing_cases() {
    assert_eq!(parse_decimal_u64("0"), Some(0));
    assert_eq!(parse_decimal_u64("+42"), Some(42));
    assert_eq!(parse_decimal_u64("007"), Some(7));
    assert_eq!(parse_decimal_u64("18446744073709551615"), Some(u64::MAX));
    assert_eq!(parse_decimal_u64("18446744073709551616"), None);
    assert_eq!(parse_decimal_u64(""), None);
    assert_eq!(parse_decimal_u64("+"), None);
    assert_eq!(parse_decimal_u64("-1"), None);
    assert_eq!(parse_decimal_u64("++1"), None);
    assert_eq!(parse_decimal_u64(" 1"), None);
    assert_eq!(parse_decimal_u64("1 "), None);
    assert_eq!(parse_decimal_u64("١٢"), None);
}

#[test]
fn decimal_parsing_agrees_with_std() {
    let texts = [
        "0", "1", "+1", "-0", "+", "-", "", "12a", "a12", "5000", "5001", "+005001",
        "18446744073709551615", "18446744073709551616", "99999999999999999999", "1_000",
        "0x10", " ", "4294967296",
    ];
    for t in texts {
        assert_eq!(parse_decimal_u64(t), t.parse::<u64>().ok(), "text: {t:?}");
    }
}
