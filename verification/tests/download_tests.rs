use clippa::clip::Clip;
use clippa::download::{size_unit, ClipDownload, DownloadAction, DownloadEvent, DownloadStage, SizeUnit};
use clippa::metadata::YouTubeMetadata;

const URL: &str = "https://youtu.be/dQw4w9WgXcQ";

fn metadata(title: &str) -> YouTubeMetadata {
    YouTubeMetadata {
        video_id: "dQw4w9WgXcQ".to_string(),
        title: title.to_string(),
        channel: "Rick Astley".to_string(),
        thumbnail_url: "https://i.ytimg.com/vi/dQw4w9WgXcQ/hqdefault.jpg".to_string(),
    }
}

fn new_download() -> ClipDownload {
    ClipDownload::new(URL.to_string(), "0:10".to_string(), "0:20".to_string())
}

fn file_name(a: DownloadAction) -> String {
    match a {
        DownloadAction::ResolveOutputPath(n) => n,
        _ => panic!("expected a file name to resolve"),
    }
}

fn args(a: DownloadAction) -> Vec<String> {
    match a {
        DownloadAction::RunYtDlp(v) => v,
        _ => panic!("expected a yt-dlp run"),
    }
}

fn error(a: DownloadAction) -> String {
    match a {
        DownloadAction::Done(Err(e)) => e,
        _ => panic!("expected the download to fail"),
    }
}

fn to_clip(a: DownloadAction) -> Clip {
    match a {
        DownloadAction::SaveClip(c) => c,
        _ => panic!("expected a clip to save"),
    }
}

/// Drives a download up to the yt-dlp run; gives the clip id.
fn up_to_run(d: &mut ClipDownload, title: &str) -> String {
    let name = file_name(d.on_event(DownloadEvent::MetadataFetched(Ok(metadata(title)))));
    assert_eq!(d.stage, DownloadStage::AwaitingOutputPath);
    let a = args(d.on_event(DownloadEvent::OutputPathResolved(format!("/c/{name}"))));
    assert_eq!(a[1], "*0:10-0:20");
    assert_eq!(a[10], format!("/c/{name}"));
    assert_eq!(a[11], URL);
    d.clip_id.clone()
}

#[test]
fn size_units() {
    assert_eq!(size_unit(1024 * 1024 + 1), SizeUnit::Megabytes);
    assert_eq!(size_unit(1024 * 1024), SizeUnit::Kilobytes);
    assert_eq!(size_unit(0), SizeUnit::Kilobytes);
    assert_eq!(size_unit(-5), SizeUnit::Kilobytes);
    assert_eq!(size_unit(i64::MAX), SizeUnit::Megabytes);
}

#[test]
fn metadata_failure_ends_the_download() {
    let mut d = new_download();
    let e = error(d.on_event(DownloadEvent::MetadataFetched(Err("Could not extract video ID from URL".to_string()))));
    assert_eq!(e, "Could not extract video ID from URL");
    assert_eq!(d.stage, DownloadStage::Finished);
}

#[test]
fn file_name_uses_safe_title_and_id() {
    let mut d = new_download();
    let name = file_name(d.on_event(DownloadEvent::MetadataFetched(Ok(metadata("AC/DC: Live! ../x")))));
    assert_eq!(d.clip_id.len(), 36);
    assert_eq!(&d.clip_id[14..15], "4");
    assert!("89ab".contains(&d.clip_id[19..20]));
    assert_eq!(name, format!("ACDC Live x_{}.mp4", &d.clip_id[..8]));
}

#[test]
fn yt_dlp_not_run() {
    let mut d = new_download();
    up_to_run(&mut d, "T");
    let e = error(d.on_event(DownloadEvent::DownloadNotRun("No such file or directory (os error 2)".to_string())));
    assert_eq!(e, "Failed to execute yt-dlp: No such file or directory (os error 2)");
}

#[test]
fn yt_dlp_failure_saves_nothing() {
    let mut d = new_download();
    up_to_run(&mut d, "T");
    let e = error(d.on_event(DownloadEvent::DownloadExited {
        success: false,
        stderr: b"ERROR: Video unavailable".to_vec(),
        duration_secs: 3,
    }));
    assert_eq!(e, "yt-dlp error: ERROR: Video unavailable");
    assert_eq!(d.stage, DownloadStage::Finished);
}

#[test]
fn successful_download_is_saved_and_reported() {
    let mut d = new_download();
    let id = up_to_run(&mut d, "Never Gonna Give You Up");
    let path = match d.on_event(DownloadEvent::DownloadExited { success: true, stderr: Vec::new(), duration_secs: 12 }) {
        DownloadAction::MeasureFile(p) => p,
        _ => panic!("expected the file to be measured"),
    };
    assert_eq!(path, format!("/c/Never Gonna Give You Up_{}.mp4", &id[..8]));
    let clip = to_clip(d.on_event(DownloadEvent::FileMeasured { file_size: 2048, size_text: "2.0 KB".to_string() }));
    assert_eq!(clip.id, id);
    assert_eq!(clip.video_id, "dQw4w9WgXcQ");
    assert_eq!(clip.title, "Never Gonna Give You Up");
    assert_eq!(clip.source_url, URL);
    assert_eq!(clip.start_time, "0:10");
    assert_eq!(clip.end_time, "0:20");
    assert_eq!(clip.file_path, path);
    assert_eq!(clip.file_size, 2048);
    assert!(clip.created_at.ends_with("+00:00"));
    assert!(clip.transcript.is_none());
    let r = match d.on_event(DownloadEvent::Saved(Ok(()))) {
        DownloadAction::Done(Ok(r)) => r,
        _ => panic!("expected success"),
    };
    assert!(r.success);
    assert_eq!(r.message, "Clip downloaded and saved");
    assert_eq!(r.file_path.as_deref(), Some(path.as_str()));
    assert_eq!(r.file_size.as_deref(), Some("2.0 KB"));
    assert_eq!(r.duration_secs, 12);
    let saved = r.clip.unwrap();
    assert_eq!(saved.id, id);
    assert_eq!(saved.created_at, clip.created_at);
}

#[test]
fn database_failure_ends_the_download() {
    let mut d = new_download();
    up_to_run(&mut d, "T");
    let _ = d.on_event(DownloadEvent::DownloadExited { success: true, stderr: Vec::new(), duration_secs: 1 });
    let _ = to_clip(d.on_event(DownloadEvent::FileMeasured { file_size: 10, size_text: "0.0 KB".to_string() }));
    let e = error(d.on_event(DownloadEvent::Saved(Err("Database error: disk full".to_string()))));
    assert_eq!(e, "Database error: disk full");
}
