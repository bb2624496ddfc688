use clippa::metadata::{
    metadata_channel, metadata_title, parse_metadata_json, FetchAction, FetchEvent, FetchStage,
    MetadataFetch, YouTubeMetadata,
};

const URL: &str = "https://www.youtube.com/watch?v=dQw4w9WgXcQ";

fn started() -> MetadataFetch {
    let (fetch, _) = MetadataFetch::start(URL).unwrap();
    fetch
}

fn exited(stdout: &str) -> FetchEvent {
    FetchEvent::YtDlpExited { success: true, stdout: stdout.as_bytes().to_vec() }
}

fn done(action: FetchAction) -> Result<YouTubeMetadata, String> {
    match action {
        FetchAction::Done(r) => r,
        FetchAction::ProbeThumbnail(u) => panic!("expected the fetch to be over, got a probe of {u}"),
    }
}

fn probe_url(action: FetchAction) -> String {
    match action {
        FetchAction::ProbeThumbnail(u) => u,
        FetchAction::Done(_) => panic!("expected a probe"),
    }
}

#[test]
fn start_without_video_id_fails() {
    let r = MetadataFetch::start("https://example.com/video");
    assert_eq!(r.err(), Some("Could not extract video ID from URL".to_string()));
}

#[test]
fn start_runs_yt_dlp_for_the_url() {
    let (fetch, args) = MetadataFetch::start(URL).unwrap();
    assert_eq!(args, vec!["--dump-json", "--no-download", "--no-playlist", URL]);
    assert_eq!(fetch.video_id, "dQw4w9WgXcQ");
    assert_eq!(fetch.stage, FetchStage::AwaitingYtDlp);
}

#[test]
fn yt_dlp_not_run_fails() {
    let mut fetch = started();
    let action = fetch.on_event(FetchEvent::YtDlpNotRun("No such file or directory (os error 2)".to_string()));
    assert_eq!(
        done(action).err(),
        Some("Failed to run yt-dlp: No such file or directory (os error 2)".to_string())
    );
    assert_eq!(fetch.stage, FetchStage::Finished);
}

#[test]
fn yt_dlp_failure_gives_fallback_metadata_with_probed_thumbnail() {
    let mut fetch = started();
    let action = fetch.on_event(FetchEvent::YtDlpExited { success: false, stdout: b"{}".to_vec() });
    assert_eq!(probe_url(action), "https://i.ytimg.com/vi/dQw4w9WgXcQ/maxresdefault.jpg");
    assert_eq!(fetch.stage, FetchStage::AwaitingProbe);
    let m = done(fetch.on_event(FetchEvent::ThumbnailProbed(Some("64000".to_string())))).unwrap();
    assert_eq!(m.video_id, "dQw4w9WgXcQ");
    assert_eq!(m.title, "Unknown Title");
    assert_eq!(m.channel, "Unknown Channel");
    assert_eq!(m.thumbnail_url, "https://i.ytimg.com/vi/dQw4w9WgXcQ/maxresdefault.jpg");
    assert_eq!(fetch.stage, FetchStage::Finished);
}

#[test]
fn failed_probe_uses_hq_thumbnail() {
    let mut fetch = started();
    let _ = fetch.on_event(FetchEvent::YtDlpExited { success: false, stdout: Vec::new() });
    let m = done(fetch.on_event(FetchEvent::ThumbnailProbed(None))).unwrap();
    assert_eq!(m.thumbnail_url, "https://i.ytimg.com/vi/dQw4w9WgXcQ/hqdefault.jpg");
}

#[test]
fn json_with_everything() {
    let mut fetch = started();
    let json = r#"{"id": "dQw4w9WgXcQ", "title": "Never Gonna Give You Up", "uploader": "Rick Astley",
                   "channel": "RickAstleyVEVO", "thumbnail": "https://i.ytimg.com/vi_webp/dQw4w9WgXcQ/maxresdefault.webp"}"#;
    let m = done(fetch.on_event(exited(json))).unwrap();
    assert_eq!(m.video_id, "dQw4w9WgXcQ");
    assert_eq!(m.title, "Never Gonna Give You Up");
    assert_eq!(m.channel, "Rick Astley");
    assert_eq!(m.thumbnail_url, "https://i.ytimg.com/vi_webp/dQw4w9WgXcQ/maxresdefault.webp");
}

#[test]
fn channel_used_when_uploader_missing() {
    let mut fetch = started();
    let json = r#"{"title": "T", "uploader": null, "channel": "C", "thumbnail": "th"}"#;
    let m = done(fetch.on_event(exited(json))).unwrap();
    assert_eq!(m.channel, "C");
    assert_eq!(m.thumbnail_url, "th");
}

#[test]
fn missing_fields_use_defaults_and_probe() {
    let mut fetch = started();
    let json = r#"{"title": 17, "duration": 212}"#;
    let action = fetch.on_event(exited(json));
    assert_eq!(probe_url(action), "https://i.ytimg.com/vi/dQw4w9WgXcQ/maxresdefault.jpg");
    let m = done(fetch.on_event(FetchEvent::ThumbnailProbed(Some("1097".to_string())))).unwrap();
    assert_eq!(m.title, "Unknown Title");
    assert_eq!(m.channel, "Unknown Channel");
    assert_eq!(m.thumbnail_url, "https://i.ytimg.com/vi/dQw4w9WgXcQ/hqdefault.jpg");
}

#[test]
fn json_that_is_not_an_object_uses_defaults() {
    let mut fetch = started();
    let action = fetch.on_event(exited("[1, 2, 3]"));
    assert_eq!(probe_url(action), "https://i.ytimg.com/vi/dQw4w9WgXcQ/maxresdefault.jpg");
}

#[test]
fn invalid_json_fails() {
    let mut fetch = started();
    let r = done(fetch.on_event(exited("not json")));
    assert_eq!(
        r.err(),
        Some("Failed to parse yt-dlp JSON: expected ident at line 1 column 2".to_string())
    );
}

#[test]
fn parse_error_text_is_serde_json_s() {
    for text in ["", "{", "{\"title\": }", "nope", "{\"a\":1} trailing"] {
        let expected = serde_json::from_str::<serde_json::Value>(text).unwrap_err().to_string();
        let got = parse_metadata_json(text).err().unwrap();
        assert_eq!(got, format!("Failed to parse yt-dlp JSON: {expected}"));
    }
}

#[test]
fn invalid_utf8_in_stdout_is_replaced() {
    let mut fetch = started();
    let mut stdout = br#"{"title": "caf"#.to_vec();
    stdout.push(0xff);
    stdout.extend_from_slice(br#"", "thumbnail": "t"}"#);
    let m = done(fetch.on_event(FetchEvent::YtDlpExited { success: true, stdout })).unwrap();
    assert_eq!(m.title, "caf\u{fffd}");
}

#[test]
fn title_and_channel_defaults() {
    let fields = parse_metadata_json(r#"{"uploader": "U", "channel": "C"}"#).unwrap();
    assert_eq!(metadata_title(&fields), "Unknown Title");
    assert_eq!(metadata_channel(&fields), "U");
    let fields = parse_metadata_json("{}").unwrap();
    assert_eq!(metadata_channel(&fields), "Unknown Channel");
    assert!(fields.thumbnail.is_none());
}
