use clippa::video_id::extract_video_id;
use regex::Regex;

fn id(url: &str) -> Option<String> {
    extract_video_id(url)
}

/// What the same patterns give through the regex crate, tried in order.
fn regex_id(url: &str) -> Option<String> {
    let patterns = [
        r"(?:youtube\.com/watch\?v=|youtu\.be/|youtube\.com/embed/|youtube\.com/v/)([a-zA-Z0-9_-]{11})",
        r"youtube\.com/shorts/([a-zA-Z0-9_-]{11})",
    ];
    for pattern in patterns {
        let re = Regex::new(pattern).unwrap();
        if let Some(caps) = re.captures(url) {
            if let Some(m) = caps.get(1) {
                return Some(m.as_str().to_string());
            }
        }
    }
    None
}

#[test]
fn watch_url() {
    assert_eq!(id("https://www.youtube.com/watch?v=dQw4w9WgXcQ"), Some("dQw4w9WgXcQ".to_string()));
}

#[test]
fn watch_url_with_more_parameters() {
    assert_eq!(
        id("https://www.youtube.com/watch?v=dQw4w9WgXcQ&t=42s&list=PL123"),
        Some("dQw4w9WgXcQ".to_string())
    );
}

#[test]
fn short_link() {
    assert_eq!(id("https://youtu.be/abc_DEF-123?si=xyz"), Some("abc_DEF-123".to_string()));
}

#[test]
fn embed_and_v_urls() {
    assert_eq!(id("https://www.youtube.com/embed/A1b2C3d4E5f"), Some("A1b2C3d4E5f".to_string()));
    assert_eq!(id("http://youtube.com/v/A1b2C3d4E5f?version=3"), Some("A1b2C3d4E5f".to_string()));
}

#[test]
fn shorts_url() {
    assert_eq!(id("https://www.youtube.com/shorts/Zz9_-yY8xX7"), Some("Zz9_-yY8xX7".to_string()));
}

#[test]
fn id_is_cut_at_eleven_characters() {
    assert_eq!(id("https://youtu.be/ABCDEFGHIJKLMNOP"), Some("ABCDEFGHIJK".to_string()));
}

#[test]
fn too_short_id_gives_none() {
    assert_eq!(id("https://youtu.be/ABCDEFGHIJ"), None);
    assert_eq!(id("https://www.youtube.com/watch?v=abc.defghijk"), None);
}

#[test]
fn not_a_youtube_url() {
    assert_eq!(id("https://vimeo.com/123456789"), None);
    assert_eq!(id(""), None);
}

#[test]
fn standard_form_wins_over_earlier_shorts() {
    let url = "https://www.youtube.com/shorts/SSSSSSSSSSS?from=https://youtu.be/WWWWWWWWWWW";
    assert_eq!(id(url), Some("WWWWWWWWWWW".to_string()));
}

#[test]
fn leftmost_match_wins() {
    let url = "youtube.com/v/FIRST123456 youtube.com/watch?v=SECOND12345";
    assert_eq!(id(url), Some("FIRST123456".to_string()));
}

#[test]
fn later_match_when_first_is_too_short() {
    let url = "youtu.be/short youtu.be/LONGENOUGH1";
    assert_eq!(id(url), Some("LONGENOUGH1".to_string()));
}

#[test]
fn non_ascii_text_around_the_url() {
    assert_eq!(
        id("Schau mal: ünd https://youtu.be/Ab_cD-eF123 ✓"),
        Some("Ab_cD-eF123".to_string())
    );
}

#[test]
fn agrees_with_the_regex_crate() {
    let urls = [
        "https://www.youtube.com/watch?v=dQw4w9WgXcQ",
        "https://m.youtube.com/watch?v=dQw4w9WgXcQ&feature=share",
        "https://youtu.be/dQw4w9WgXcQ",
        "youtu.be/dQw4w9WgX",
        "https://www.youtube.com/embed/dQw4w9WgXcQ?start=3",
        "https://www.youtube.com/v/dQw4w9WgXcQ",
        "https://www.youtube.com/shorts/dQw4w9WgXcQ",
        "https://www.youtube.com/shorts/short",
        "https://youtube.com/watch?v=",
        "youtube.com/watch?v=AAAAAAAAAAAyoutu.be/BBBBBBBBBBB",
        "youtu.beyoutu.be/CCCCCCCCCCC",
        "youtube.com/shorts/DDDDDDDDDDD youtube.com/embed/EEEEEEEEEE",
        "YOUTUBE.COM/watch?v=FFFFFFFFFFF",
        "https://www.youtube.com/watch?feature=x&v=GGGGGGGGGGG",
        "ééyoutu.be/HHHHHHHHHHH",
        "",
    ];
    for url in urls {
        assert_eq!(id(url), regex_id(url), "url: {url}");
    }
}
