//! Fetching the metadata of a video: the decisions.
//!
//! The metadata comes from `yt-dlp --dump-json`. When yt-dlp fails, the
//! title and channel are unknown; when its JSON names no thumbnail, or when
//! yt-dlp failed, the best thumbnail is found by probing the maxres thumbnail.
//! The running of yt-dlp and the probe are the caller's: [`MetadataFetch`]
//! says what to do next and takes back what happened.
use crate::outside::{lossy_utf8, opt_string_view, parse_json_string_fields, utf8_lossy, yt_dlp_json_fields, JsonStringFields};
use crate::thumbnail::{best_thumbnail_of, best_thumbnail_url, maxres_thumbnail_url, maxres_url_of};
use crate::video_id::{extract_video_id, video_id_of};
use vstd::prelude::*;

verus! {

/// What is known of a YouTube video.
#[derive(Debug, Clone)]
pub struct YouTubeMetadata {
    pub video_id: String,
    pub title: String,
    pub channel: String,
    pub thumbnail_url: String,
}

pub open spec fn unknown_title() -> Seq<char> {
    "Unknown Title"@
}

pub open spec fn unknown_channel() -> Seq<char> {
    "Unknown Channel"@
}

/// The title that the JSON fields give: `title`, else "Unknown Title".
pub open spec fn title_of(
    f: (Option<Seq<char>>, Option<Seq<char>>, Option<Seq<char>>, Option<Seq<char>>),
) -> Seq<char> {
    match f.0 {
        Some(t) => t,
        None => unknown_title(),
    }
}

/// The channel that the JSON fields give: `uploader`, else `channel`, else
/// "Unknown Channel".
pub open spec fn channel_of(
    f: (Option<Seq<char>>, Option<Seq<char>>, Option<Seq<char>>, Option<Seq<char>>),
) -> Seq<char> {
    match f.1 {
        Some(u) => u,
        None => match f.2 {
            Some(c) => c,
            None => unknown_channel(),
        },
    }
}

pub open spec fn parse_error_message(e: Seq<char>) -> Seq<char> {
    "Failed to parse yt-dlp JSON: "@ + e
}

pub open spec fn run_error_message(e: Seq<char>) -> Seq<char> {
    "Failed to run yt-dlp: "@ + e
}

pub open spec fn no_video_id_message() -> Seq<char> {
    "Could not extract video ID from URL"@
}

/// The arguments of the yt-dlp run that dumps the metadata of `url`.
pub open spec fn metadata_args_of(url: Seq<char>) -> Seq<Seq<char>> {
    seq!["--dump-json"@, "--no-download"@, "--no-playlist"@, url]
}

pub open spec fn strings_view(v: Seq<String>) -> Seq<Seq<char>> {
    v.map_values(|s: String| s@)
}

/// Where a metadata fetch stands.
#[derive(Clone, Copy, Debug, PartialEq, Eq)]
pub enum FetchStage {
    /// yt-dlp is to be run with the arguments that `start` gave.
    AwaitingYtDlp,
    /// The maxres thumbnail is to be probed.
    AwaitingProbe,
    /// The result has been given.
    Finished,
}

/// What happened outside.
pub enum FetchEvent {
    /// yt-dlp could not be run; the text of the error.
    YtDlpNotRun(String),
    /// yt-dlp ran: whether it exited successfully, and what it wrote to stdout.
    YtDlpExited { success: bool, stdout: Vec<u8> },
    /// The HEAD request for the maxres thumbnail: its `content-length` header,
    /// where the request succeeded and the header is there and visible ASCII.
    ThumbnailProbed(Option<String>),
}

/// What the caller is to do next.
pub enum FetchAction {
    /// Send a HEAD request for this URL (with a five second timeout) and
    /// report its `content-length`.
    ProbeThumbnail(String),
    /// The fetch is over with this result.
    Done(Result<YouTubeMetadata, String>),
}

/// A metadata fetch in progress.
pub struct MetadataFetch {
    pub url: String,
    pub video_id: String,
    pub title: String,
    pub channel: String,
    pub stage: FetchStage,
}

/// The result of a finished fetch, in plain values.
pub open spec fn metadata_view(m: YouTubeMetadata) -> (Seq<char>, Seq<char>, Seq<char>, Seq<char>) {
    (m.video_id@, m.title@, m.channel@, m.thumbnail_url@)
}

impl MetadataFetch {
    /// The fetch belongs to its URL: its video id is the URL's.
    pub open spec fn wf(&self) -> bool {
        video_id_of(self.url@) == Some(self.video_id@)
    }

    /// Whether `event` is one that the current stage waits for.
    pub open spec fn awaits(&self, event: FetchEvent) -> bool {
        match self.stage {
            FetchStage::AwaitingYtDlp => event is YtDlpNotRun || event is YtDlpExited,
            FetchStage::AwaitingProbe => event is ThumbnailProbed,
            FetchStage::Finished => false,
        }
    }

    /// `action` finishes with `Ok` metadata made of this fetch's id, title and
    /// channel and of `thumbnail`.
    pub open spec fn finishes_with(&self, action: FetchAction, thumbnail: Seq<char>) -> bool {
        action matches FetchAction::Done(Ok(m)) && metadata_view(m) == (
            self.video_id@,
            self.title@,
            self.channel@,
            thumbnail,
        )
    }

    /// Begin fetching the metadata of `url`: extract its video id, and say
    /// with which arguments yt-dlp is to be run. Fails when the URL holds no
    /// video id.
    pub fn start(url: &str) -> (r: Result<(MetadataFetch, Vec<String>), String>)
        ensures
            video_id_of(url@) is None <==> r is Err,
            r matches Err(e) ==> e@ == no_video_id_message(),
            r matches Ok((f, args)) ==> {
                &&& f.wf()
                &&& f.url@ == url@
                &&& f.stage == FetchStage::AwaitingYtDlp
                &&& strings_view(args@) == metadata_args_of(url@)
            },
    {
        match extract_video_id(url) {
            None => Err("Could not extract video ID from URL".to_owned()),
            Some(video_id) => {
                let mut args: Vec<String> = Vec::new();
                args.push("--dump-json".to_owned());
                args.push("--no-download".to_owned());
                args.push("--no-playlist".to_owned());
                args.push(url.to_owned());
                assert(strings_view(args@) =~= metadata_args_of(url@));
                let fetch = MetadataFetch {
                    url: url.to_owned(),
                    video_id,
                    title: String::new(),
                    channel: String::new(),
                    stage: FetchStage::AwaitingYtDlp,
                };
                Ok((fetch, args))
            },
        }
    }

    fn finish(&mut self, thumbnail_url: String) -> (action: FetchAction)
        ensures
            final(self).url == old(self).url,
            final(self).video_id == old(self).video_id,
            final(self).title == old(self).title,
            final(self).channel == old(self).channel,
            final(self).stage == FetchStage::Finished,
            old(self).finishes_with(action, thumbnail_url@),
    {
        self.stage = FetchStage::Finished;
        FetchAction::Done(
            Ok(
                YouTubeMetadata {
                    video_id: self.video_id.clone(),
                    title: self.title.clone(),
                    channel: self.channel.clone(),
                    thumbnail_url,
                },
            ),
        )
    }

    fn fail(&mut self, message: String) -> (action: FetchAction)
        ensures
            final(self).url == old(self).url,
            final(self).video_id == old(self).video_id,
            final(self).stage == FetchStage::Finished,
            action matches FetchAction::Done(Err(e)) && e@ == message@,
    {
        self.stage = FetchStage::Finished;
        FetchAction::Done(Err(message))
    }

    fn probe(&mut self) -> (action: FetchAction)
        ensures
            final(self).url == old(self).url,
            final(self).video_id == old(self).video_id,
            final(self).title == old(self).title,
            final(self).channel == old(self).channel,
            final(self).stage == FetchStage::AwaitingProbe,
            action matches FetchAction::ProbeThumbnail(u) && u@ == maxres_url_of(
                old(self).video_id@,
            ),
    {
        self.stage = FetchStage::AwaitingProbe;
        FetchAction::ProbeThumbnail(maxres_thumbnail_url(self.video_id.as_str()))
    }

    /// Take what happened outside and say what is to be done next.
    ///
    /// * yt-dlp could not be run: the fetch fails with
    ///   "Failed to run yt-dlp: {error}".
    /// * yt-dlp failed: title and channel are unknown, and the thumbnail is
    ///   probed.
    /// * yt-dlp succeeded but its output is no JSON: the fetch fails with
    ///   "Failed to parse yt-dlp JSON: {error}".
    /// * Otherwise title and channel come from the JSON; its `thumbnail` is
    ///   used where it is a string, else the thumbnail is probed.
    /// * After the probe, the best thumbnail according to it is used.
    pub fn on_event(&mut self, event: FetchEvent) -> (action: FetchAction)
        requires
            old(self).wf(),
            old(self).awaits(event),
        ensures
            final(self).wf(),
            final(self).url == old(self).url,
            final(self).video_id == old(self).video_id,
            action is ProbeThumbnail <==> final(self).stage == FetchStage::AwaitingProbe,
            action is Done <==> final(self).stage == FetchStage::Finished,
            action matches FetchAction::ProbeThumbnail(u) ==> u@ == maxres_url_of(
                old(self).video_id@,
            ),
            match event {
                FetchEvent::YtDlpNotRun(e) => action matches FetchAction::Done(Err(m)) && m@
                    == run_error_message(e@),
                FetchEvent::YtDlpExited { success, stdout } => if !success {
                    &&& action is ProbeThumbnail
                    &&& final(self).title@ == unknown_title()
                    &&& final(self).channel@ == unknown_channel()
                } else {
                    match yt_dlp_json_fields(utf8_lossy(stdout@)) {
                        Err(e) => action matches FetchAction::Done(Err(m)) && m@
                            == parse_error_message(e),
                        Ok(f) => {
                            &&& final(self).title@ == title_of(f)
                            &&& final(self).channel@ == channel_of(f)
                            &&& match f.3 {
                                Some(t) => final(self).finishes_with(action, t),
                                None => action is ProbeThumbnail,
                            }
                        },
                    }
                },
                FetchEvent::ThumbnailProbed(h) => old(self).finishes_with(
                    action,
                    best_thumbnail_of(old(self).video_id@, opt_string_view(h)),
                ),
            },
    {
        match event {
            FetchEvent::YtDlpNotRun(e) => {
                let mut message = "Failed to run yt-dlp: ".to_owned();
                message.append(e.as_str());
                self.fail(message)
            },
            FetchEvent::YtDlpExited { success, stdout } => {
                if !success {
                    self.title = "Unknown Title".to_owned();
                    self.channel = "Unknown Channel".to_owned();
                    return self.probe();
                }
                let text = lossy_utf8(stdout.as_slice());
                match parse_metadata_json(text.as_str()) {
                    Err(message) => self.fail(message),
                    Ok(fields) => {
                        self.title = metadata_title(&fields);
                        self.channel = metadata_channel(&fields);
                        match fields.thumbnail {
                            Some(t) => self.finish(t),
                            None => self.probe(),
                        }
                    },
                }
            },
            FetchEvent::ThumbnailProbed(h) => {
                let thumbnail = match &h {
                    Some(s) => best_thumbnail_url(self.video_id.as_str(), Some(s.as_str())),
                    None => best_thumbnail_url(self.video_id.as_str(), None),
                };
                self.finish(thumbnail)
            },
        }
    }
}

/// Parse yt-dlp's `--dump-json` output into the fields that the metadata is
/// made of; a parse error becomes "Failed to parse yt-dlp JSON: {error}".
pub fn parse_metadata_json(text: &str) -> (r: Result<JsonStringFields, String>)
    ensures
        match yt_dlp_json_fields(text@) {
            Ok(f) => r matches Ok(x) && x.view() == f,
            Err(e) => r matches Err(m) && m@ == parse_error_message(e),
        },
{
    match parse_json_string_fields(text) {
        Ok(fields) => Ok(fields),
        Err(e) => {
            let mut message = "Failed to parse yt-dlp JSON: ".to_owned();
            message.append(e.as_str());
            Err(message)
        },
    }
}

/// The title that yt-dlp's JSON gives: its `title`, else "Unknown Title".
pub fn metadata_title(fields: &JsonStringFields) -> (r: String)
    ensures
        r@ == title_of(fields.view()),
{
    match &fields.title {
        Some(t) => t.clone(),
        None => "Unknown Title".to_owned(),
    }
}

/// The channel that yt-dlp's JSON gives: its `uploader`, else its `channel`,
/// else "Unknown Channel".
pub fn metadata_channel(fields: &JsonStringFields) -> (r: String)
    ensures
        r@ == channel_of(fields.view()),
{
    match &fields.uploader {
        Some(u) => u.clone(),
        None => match &fields.channel {
            Some(c) => c.clone(),
            None => "Unknown Channel".to_owned(),
        },
    }
}

/// The title is the JSON's `title` text exactly, whatever its length, and
/// "Unknown Title" where the JSON has no `title` text.
pub proof fn law_title_is_json_title(
    f: (Option<Seq<char>>, Option<Seq<char>>, Option<Seq<char>>, Option<Seq<char>>),
)
    ensures
        f.0 matches Some(t) ==> title_of(f) == t,
        f.0 is None ==> title_of(f) == "Unknown Title"@,
{
}

/// The channel is the JSON's `uploader` text exactly; without one, its
/// `channel` text exactly; without either, "Unknown Channel".
pub proof fn law_channel_is_uploader_then_channel(
    f: (Option<Seq<char>>, Option<Seq<char>>, Option<Seq<char>>, Option<Seq<char>>),
)
    ensures
        f.1 matches Some(u) ==> channel_of(f) == u,
        f.1 is None ==> (f.2 matches Some(c) ==> channel_of(f) == c),
        (f.1 is None && f.2 is None) ==> channel_of(f) == "Unknown Channel"@,
{
}

/// The error texts of a fetch start with their fixed wording and end with the
/// underlying error's text, unchanged.
pub proof fn law_fetch_error_texts(e: Seq<char>)
    ensures
        parse_error_message(e) == "Failed to parse yt-dlp JSON: "@ + e,
        run_error_message(e) == "Failed to run yt-dlp: "@ + e,
        no_video_id_message() == "Could not extract video ID from URL"@,
{
}

/// yt-dlp is asked to dump the JSON metadata of exactly the given URL,
/// without downloading and without expanding playlists.
pub proof fn law_metadata_args(url: Seq<char>)
    ensures
        metadata_args_of(url) == seq!["--dump-json"@, "--no-download"@, "--no-playlist"@, url],
        metadata_args_of(url).last() == url,
{
}

} // verus!
