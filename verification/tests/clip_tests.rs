use clippa::clip::{
    clip_file_name, database_error_message, download_args, download_outcome,
    download_succeeded, execute_error_message, plan_download, safe_title, saved_clip,
};
use clippa::metadata::YouTubeMetadata;

fn metadata(title: &str) -> YouTubeMetadata {
    YouTubeMetadata {
        video_id: "dQw4w9WgXcQ".to_string(),
        title: title.to_string(),
        channel: "Rick Astley".to_string(),
        thumbnail_url: "https://i.ytimg.com/vi/dQw4w9WgXcQ/maxresdefault.jpg".to_string(),
    }
}

#[test]
fn safe_title_drops_punctuation() {
    assert_eq!(safe_title("Never Gonna: Give You Up! (Official Video)"), "Never Gonna Give You Up Official Video");
    assert_eq!(safe_title("a/b\\c.d_e-f"), "abcd_e-f");
}

#[test]
fn safe_title_keeps_unicode_letters_and_digits() {
    assert_eq!(safe_title("Café 日本語 ① ½"), "Café 日本語 ① ½");
    assert_eq!(safe_title("tab\there\nnewline"), "tabherenewline");
}

#[test]
fn safe_title_is_cut_at_fifty_characters() {
    let long = "x".repeat(80);
    assert_eq!(safe_title(&long), "x".repeat(50));
    let mixed = "ab!".repeat(30);
    assert_eq!(safe_title(&mixed), "ab".repeat(25));
    let wide = "é".repeat(60);
    assert_eq!(safe_title(&wide).chars().count(), 50);
}

#[test]
fn safe_title_twice_is_once() {
    for t in ["Hello, World!", "", "!!!", "a b c", &"é?".repeat(70)] {
        assert_eq!(safe_title(&safe_title(t)), safe_title(t));
    }
}

#[test]
fn file_name_of_a_clip() {
    let name = clip_file_name("Hello, World!", "67e55044-10b1-426f-9247-bb680e5fe0c8");
    assert_eq!(name, "Hello World_67e55044.mp4");
    assert_eq!(clip_file_name("???", "0123456789"), "_01234567.mp4");
}

#[test]
fn plan_gives_a_uuid_and_its_file_name() {
    let p = plan_download(&metadata("Never Gonna Give You Up"));
    assert_eq!(p.clip_id.len(), 36);
    for (k, c) in p.clip_id.chars().enumerate() {
        if k == 8 || k == 13 || k == 18 || k == 23 {
            assert_eq!(c, '-');
        } else {
            assert!(c.is_ascii_hexdigit() && !c.is_ascii_uppercase());
        }
    }
    assert_eq!(&p.clip_id[14..15], "4");
    assert!("89ab".contains(&p.clip_id[19..20]));
    assert_eq!(p.file_name, format!("Never Gonna Give You Up_{}.mp4", &p.clip_id[..8]));
    let q = plan_download(&metadata("Never Gonna Give You Up"));
    assert_ne!(p.clip_id, q.clip_id);
}

#[test]
fn yt_dlp_download_arguments() {
    let args = download_args("00:01:00", "00:01:30", "/tmp/clips/x.mp4", "https://youtu.be/dQw4w9WgXcQ");
    assert_eq!(
        args,
        vec![
            "--download-sections",
            "*00:01:00-00:01:30",
            "--force-keyframes-at-cuts",
            "-f",
            "bestvideo[height<=1080]+bestaudio/best",
            "--merge-output-format",
            "mp4",
            "--postprocessor-args",
            "ffmpeg:-c:v h264_videotoolbox",
            "-o",
            "/tmp/clips/x.mp4",
            "https://youtu.be/dQw4w9WgXcQ",
        ]
    );
}

#[test]
fn saved_clip_and_result() {
    let clip = saved_clip(
        "67e55044-10b1-426f-9247-bb680e5fe0c8".to_string(),
        metadata("T"),
        "https://youtu.be/dQw4w9WgXcQ".to_string(),
        "10".to_string(),
        "20".to_string(),
        "/clips/T_67e55044.mp4".to_string(),
        2048,
    );
    assert_eq!(clip.id, "67e55044-10b1-426f-9247-bb680e5fe0c8");
    assert_eq!(clip.video_id, "dQw4w9WgXcQ");
    assert_eq!(clip.title, "T");
    assert_eq!(clip.channel, "Rick Astley");
    assert_eq!(clip.source_url, "https://youtu.be/dQw4w9WgXcQ");
    assert_eq!(clip.start_time, "10");
    assert_eq!(clip.end_time, "20");
    assert_eq!(clip.file_size, 2048);
    assert!(clip.transcript.is_none());
    assert!(clip.created_at.contains('T'));
    assert!(clip.created_at.ends_with("+00:00"));
    let shape = regex::Regex::new(
        r"^(\d{4}|[+-]\d{4,})-\d{2}-\d{2}T\d{2}:\d{2}:\d{2}(\.\d{3}|\.\d{6}|\.\d{9})?\+00:00$",
    )
    .unwrap();
    assert!(shape.is_match(&clip.created_at), "{}", clip.created_at);
    let r = download_succeeded(clip, "2.0 KB".to_string(), 7);
    assert!(r.success);
    assert_eq!(r.message, "Clip downloaded and saved");
    assert_eq!(r.file_path.as_deref(), Some("/clips/T_67e55044.mp4"));
    assert_eq!(r.file_size.as_deref(), Some("2.0 KB"));
    assert_eq!(r.duration_secs, 7);
    assert_eq!(r.clip.unwrap().file_path, "/clips/T_67e55044.mp4");
}

#[test]
fn error_messages() {
    assert_eq!(download_outcome(true, b"some warnings"), Ok(()));
    assert_eq!(
        download_outcome(false, b"ERROR: video unavailable\n"),
        Err("yt-dlp error: ERROR: video unavailable\n".to_string())
    );
    assert_eq!(download_outcome(false, &[b'x', 0xc3]), Err("yt-dlp error: x\u{fffd}".to_string()));
    assert_eq!(execute_error_message("not found"), "Failed to execute yt-dlp: not found");
    assert_eq!(database_error_message("disk full"), "Database error: disk full");
}

#[test]
fn safe_title_leaves_a_safe_title_alone() {
    assert_eq!(safe_title("Already_Safe-Title 42"), "Already_Safe-Title 42");
    let fifty = "y".repeat(50);
    assert_eq!(safe_title(&fifty), fifty);
}

#[test]
fn title_with_path_characters() {
    assert_eq!(safe_title("AC/DC: Live! ../x"), "ACDC Live x");
    let name = clip_file_name("AC/DC: Live! ../x", "0123abcd-0000-4000-8000-000000000000");
    assert_eq!(name, "ACDC Live x_0123abcd.mp4");
    assert!(!name.contains('/') && !name.contains('\\'));
    assert_eq!(safe_title("a\\b/c"), "abc");
}

#[test]
fn ascii_alphanumerics_are_letters_and_digits() {
    let all: String = (0u8..128).map(char::from).collect();
    let expected: String = all.chars().filter(|c| c.is_ascii_alphanumeric() || *c == ' ' || *c == '-' || *c == '_').collect();
    assert_eq!(safe_title(&all), expected.chars().take(50).collect::<String>());
}
