//! Downloading a clip: the order of the steps and what each outcome leads to.
//!
//! A download first needs the video's metadata (see
//! [`crate::metadata::MetadataFetch`]); then the clip gets an id and a file
//! name, yt-dlp downloads the section, the file is measured, and the clip is
//! saved. A failed step ends the download with its error; nothing is saved
//! unless yt-dlp succeeded. The outside work is the caller's:
//! [`ClipDownload`] says what to do next and takes back what happened.
use crate::clip::{
    download_args, download_args_of, download_outcome, download_succeeded, execute_error_message,
    file_name_of, plan_download, saved_clip, Clip, ClipResult,
};
use crate::metadata::{strings_view, YouTubeMetadata};
use crate::outside::{is_utc_rfc3339, is_v4_uuid, utf8_lossy};
use vstd::prelude::*;

verus! {

/// Sizes above this many bytes are shown in megabytes, others in kilobytes.
pub const MEGABYTE: i64 = 1048576;

/// The unit in which a file size is shown.
#[derive(Clone, Copy, Debug, PartialEq, Eq)]
pub enum SizeUnit {
    Megabytes,
    Kilobytes,
}

/// Megabytes for sizes above one megabyte (1024 * 1024 bytes), else kilobytes.
pub fn size_unit(file_size: i64) -> (r: SizeUnit)
    ensures
        r == (if file_size > 1024 * 1024 {
            SizeUnit::Megabytes
        } else {
            SizeUnit::Kilobytes
        }),
{
    if file_size > MEGABYTE {
        SizeUnit::Megabytes
    } else {
        SizeUnit::Kilobytes
    }
}

/// Where a clip download stands.
#[derive(Clone, Copy, Debug, PartialEq, Eq)]
pub enum DownloadStage {
    /// The video's metadata is being fetched.
    AwaitingMetadata,
    /// The clip has an id and a file name; the file's full path is wanted.
    AwaitingOutputPath,
    /// yt-dlp is downloading the section.
    AwaitingDownload,
    /// yt-dlp succeeded; the file's size is wanted.
    AwaitingFileSize,
    /// The clip is being saved to the library.
    AwaitingSave,
    /// The result has been given.
    Finished,
}

/// What happened outside.
pub enum DownloadEvent {
    /// The metadata fetch ended with this result.
    MetadataFetched(Result<YouTubeMetadata, String>),
    /// The full path of the clip's file, as text.
    OutputPathResolved(String),
    /// yt-dlp could not be run; the text of the error.
    DownloadNotRun(String),
    /// yt-dlp ran: whether it succeeded, what it wrote to stderr, and the
    /// seconds since the request began.
    DownloadExited { success: bool, stderr: Vec<u8>, duration_secs: u64 },
    /// The size of the downloaded file in bytes, and how it is shown.
    FileMeasured { file_size: i64, size_text: String },
    /// Saving the clip ended with this result (the error's full text).
    Saved(Result<(), String>),
}

/// What the caller is to do next.
pub enum DownloadAction {
    /// Join this file name to the clips directory and report the path.
    ResolveOutputPath(String),
    /// Run yt-dlp with these arguments.
    RunYtDlp(Vec<String>),
    /// Measure the file at this path.
    MeasureFile(String),
    /// Save this clip to the library.
    SaveClip(Clip),
    /// The download is over with this result.
    Done(Result<ClipResult, String>),
}

/// A clip download in progress.
pub struct ClipDownload {
    pub url: String,
    pub start: String,
    pub end: String,
    pub stage: DownloadStage,
    pub metadata: YouTubeMetadata,
    pub clip_id: String,
    pub file_name: String,
    pub output_path: String,
    pub duration_secs: u64,
    pub file_size: i64,
    pub size_text: String,
    pub created_at: String,
}

/// The clip that a download saves, in plain values: id, video id, title,
/// channel, thumbnail, source URL, start, end, file path and size.
pub open spec fn clip_fields(c: Clip) -> (
    Seq<char>,
    Seq<char>,
    Seq<char>,
    Seq<char>,
    Seq<char>,
    Seq<char>,
    Seq<char>,
    Seq<char>,
    Seq<char>,
    i64,
) {
    (
        c.id@,
        c.video_id@,
        c.title@,
        c.channel@,
        c.thumbnail_url@,
        c.source_url@,
        c.start_time@,
        c.end_time@,
        c.file_path@,
        c.file_size,
    )
}

impl ClipDownload {
    /// The clip that this download saves, as far as it is known.
    pub open spec fn clip_view(&self) -> (
        Seq<char>,
        Seq<char>,
        Seq<char>,
        Seq<char>,
        Seq<char>,
        Seq<char>,
        Seq<char>,
        Seq<char>,
        Seq<char>,
        i64,
    ) {
        (
            self.clip_id@,
            self.metadata.video_id@,
            self.metadata.title@,
            self.metadata.channel@,
            self.metadata.thumbnail_url@,
            self.url@,
            self.start@,
            self.end@,
            self.output_path@,
            self.file_size,
        )
    }

    /// Whether `event` is one that the current stage waits for.
    pub open spec fn awaits(&self, event: DownloadEvent) -> bool {
        match self.stage {
            DownloadStage::AwaitingMetadata => event is MetadataFetched,
            DownloadStage::AwaitingOutputPath => event is OutputPathResolved,
            DownloadStage::AwaitingDownload => event is DownloadNotRun || event is DownloadExited,
            DownloadStage::AwaitingFileSize => event is FileMeasured,
            DownloadStage::AwaitingSave => event is Saved,
            DownloadStage::Finished => false,
        }
    }

    /// What holds at each stage: from planning until the end, the clip has a
    /// random id and its file name; while it is being saved, its creation time
    /// is RFC 3339 UTC text.
    pub open spec fn wf(&self) -> bool {
        &&& (self.stage != DownloadStage::AwaitingMetadata && self.stage != DownloadStage::Finished
            ==> {
            &&& is_v4_uuid(self.clip_id@)
            &&& self.file_name@ == file_name_of(self.metadata.title@, self.clip_id@)
        })
        &&& (self.stage == DownloadStage::AwaitingSave ==> is_utc_rfc3339(self.created_at@))
    }

    /// Begin downloading the section from `start` to `end` of the video at
    /// `url`; its metadata is fetched first.
    pub fn new(url: String, start: String, end: String) -> (r: ClipDownload)
        ensures
            r.wf(),
            r.url == url,
            r.start == start,
            r.end == end,
            r.stage == DownloadStage::AwaitingMetadata,
    {
        ClipDownload {
            url,
            start,
            end,
            stage: DownloadStage::AwaitingMetadata,
            metadata: YouTubeMetadata {
                video_id: String::new(),
                title: String::new(),
                channel: String::new(),
                thumbnail_url: String::new(),
            },
            clip_id: String::new(),
            file_name: String::new(),
            output_path: String::new(),
            duration_secs: 0,
            file_size: 0,
            size_text: String::new(),
            created_at: String::new(),
        }
    }

    fn fail(&mut self, message: String) -> (action: DownloadAction)
        ensures
            final(self).url == old(self).url,
            final(self).start == old(self).start,
            final(self).end == old(self).end,
            final(self).stage == DownloadStage::Finished,
            action matches DownloadAction::Done(Err(e)) && e@ == message@,
    {
        self.stage = DownloadStage::Finished;
        DownloadAction::Done(Err(message))
    }

    /// The clip as the download knows it, with its creation time.
    fn clip(&self) -> (c: Clip)
        ensures
            clip_fields(c) == self.clip_view(),
            c.created_at@ == self.created_at@,
            c.transcript is None,
    {
        Clip {
            id: self.clip_id.clone(),
            video_id: self.metadata.video_id.clone(),
            title: self.metadata.title.clone(),
            channel: self.metadata.channel.clone(),
            thumbnail_url: self.metadata.thumbnail_url.clone(),
            source_url: self.url.clone(),
            start_time: self.start.clone(),
            end_time: self.end.clone(),
            file_path: self.output_path.clone(),
            file_size: self.file_size,
            created_at: self.created_at.clone(),
            transcript: None,
        }
    }

    /// Take what happened outside and say what is to be done next.
    ///
    /// * The metadata fetch failed: the download fails with its error.
    /// * The metadata came: the clip gets a random id and its file name, whose
    ///   full path is wanted next.
    /// * The path came: yt-dlp is to download the section into it.
    /// * yt-dlp could not be run: "Failed to execute yt-dlp: {error}".
    /// * yt-dlp failed: "yt-dlp error: {stderr}"; nothing is saved.
    /// * yt-dlp succeeded: the file is to be measured.
    /// * The file was measured: the clip, stamped with the current time and
    ///   without a transcript, is to be saved.
    /// * Saving failed: the download fails with that error; saving succeeded:
    ///   the answer reports the clip, its path, its size text and the time
    ///   taken.
    pub fn on_event(&mut self, event: DownloadEvent) -> (action: DownloadAction)
        requires
            old(self).wf(),
            old(self).awaits(event),
        ensures
            final(self).wf(),
            final(self).url == old(self).url,
            final(self).start == old(self).start,
            final(self).end == old(self).end,
            action is Done <==> final(self).stage == DownloadStage::Finished,
            action is ResolveOutputPath <==> final(self).stage
                == DownloadStage::AwaitingOutputPath,
            action is RunYtDlp <==> final(self).stage == DownloadStage::AwaitingDownload,
            action is MeasureFile <==> final(self).stage == DownloadStage::AwaitingFileSize,
            action is SaveClip <==> final(self).stage == DownloadStage::AwaitingSave,
            final(self).stage == DownloadStage::AwaitingFileSize ==> (
            event matches DownloadEvent::DownloadExited { success, .. } && success),
            action is SaveClip ==> old(self).stage == DownloadStage::AwaitingFileSize,
            match event {
                DownloadEvent::MetadataFetched(Err(e)) => action matches DownloadAction::Done(
                    Err(m),
                ) && m@ == e@,
                DownloadEvent::MetadataFetched(Ok(m)) => {
                    &&& final(self).metadata == m
                    &&& action matches DownloadAction::ResolveOutputPath(name) && name@
                        == file_name_of(m.title@, final(self).clip_id@)
                },
                DownloadEvent::OutputPathResolved(p) => {
                    &&& final(self).output_path == p
                    &&& final(self).clip_id == old(self).clip_id
                    &&& final(self).metadata == old(self).metadata
                    &&& action matches DownloadAction::RunYtDlp(args) && strings_view(args@)
                        == download_args_of(old(self).start@, old(self).end@, p@, old(self).url@)
                },
                DownloadEvent::DownloadNotRun(e) => action matches DownloadAction::Done(Err(m))
                    && m@ == "Failed to execute yt-dlp: "@ + e@,
                DownloadEvent::DownloadExited { success, stderr, duration_secs } => if success {
                    &&& final(self).duration_secs == duration_secs
                    &&& final(self).clip_view() == old(self).clip_view()
                    &&& action matches DownloadAction::MeasureFile(p) && p@
                        == old(self).output_path@
                } else {
                    action matches DownloadAction::Done(Err(m)) && m@ == "yt-dlp error: "@
                        + utf8_lossy(stderr@)
                },
                DownloadEvent::FileMeasured { file_size, size_text } => {
                    &&& final(self).file_size == file_size
                    &&& final(self).size_text == size_text
                    &&& final(self).duration_secs == old(self).duration_secs
                    &&& final(self).clip_view() == (
                        old(self).clip_id@,
                        old(self).metadata.video_id@,
                        old(self).metadata.title@,
                        old(self).metadata.channel@,
                        old(self).metadata.thumbnail_url@,
                        old(self).url@,
                        old(self).start@,
                        old(self).end@,
                        old(self).output_path@,
                        file_size,
                    )
                    &&& action matches DownloadAction::SaveClip(c) && {
                        &&& clip_fields(c) == final(self).clip_view()
                        &&& c.created_at@ == final(self).created_at@
                        &&& is_utc_rfc3339(c.created_at@)
                        &&& c.transcript is None
                    }
                },
                DownloadEvent::Saved(Err(e)) => action matches DownloadAction::Done(Err(m)) && m@
                    == e@,
                DownloadEvent::Saved(Ok(())) => action matches DownloadAction::Done(Ok(r)) && {
                    &&& r.success
                    &&& r.message@ == "Clip downloaded and saved"@
                    &&& r.file_path matches Some(p) && p@ == old(self).output_path@
                    &&& r.file_size matches Some(t) && t@ == old(self).size_text@
                    &&& r.duration_secs == old(self).duration_secs
                    &&& r.clip matches Some(c) && clip_fields(c) == old(self).clip_view()
                        && c.created_at@ == old(self).created_at@ && c.transcript is None
                },
            },
    {
        match event {
            DownloadEvent::MetadataFetched(Err(e)) => self.fail(e),
            DownloadEvent::MetadataFetched(Ok(m)) => {
                let plan = plan_download(&m);
                self.metadata = m;
                self.clip_id = plan.clip_id;
                self.file_name = plan.file_name;
                self.stage = DownloadStage::AwaitingOutputPath;
                DownloadAction::ResolveOutputPath(self.file_name.clone())
            },
            DownloadEvent::OutputPathResolved(p) => {
                let args = download_args(
                    self.start.as_str(),
                    self.end.as_str(),
                    p.as_str(),
                    self.url.as_str(),
                );
                self.output_path = p;
                self.stage = DownloadStage::AwaitingDownload;
                DownloadAction::RunYtDlp(args)
            },
            DownloadEvent::DownloadNotRun(e) => self.fail(execute_error_message(e.as_str())),
            DownloadEvent::DownloadExited { success, stderr, duration_secs } => {
                match download_outcome(success, stderr.as_slice()) {
                    Err(message) => self.fail(message),
                    Ok(()) => {
                        self.duration_secs = duration_secs;
                        self.stage = DownloadStage::AwaitingFileSize;
                        DownloadAction::MeasureFile(self.output_path.clone())
                    },
                }
            },
            DownloadEvent::FileMeasured { file_size, size_text } => {
                self.file_size = file_size;
                self.size_text = size_text;
                let stamped = saved_clip(
                    self.clip_id.clone(),
                    YouTubeMetadata {
                        video_id: self.metadata.video_id.clone(),
                        title: self.metadata.title.clone(),
                        channel: self.metadata.channel.clone(),
                        thumbnail_url: self.metadata.thumbnail_url.clone(),
                    },
                    self.url.clone(),
                    self.start.clone(),
                    self.end.clone(),
                    self.output_path.clone(),
                    file_size,
                );
                self.created_at = stamped.created_at;
                self.stage = DownloadStage::AwaitingSave;
                DownloadAction::SaveClip(self.clip())
            },
            DownloadEvent::Saved(Err(e)) => self.fail(e),
            DownloadEvent::Saved(Ok(())) => {
                let clip = self.clip();
                self.stage = DownloadStage::Finished;
                DownloadAction::Done(
                    Ok(download_succeeded(clip, self.size_text.clone(), self.duration_secs)),
                )
            },
        }
    }
}

} // verus!
