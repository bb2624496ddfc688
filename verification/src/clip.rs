//! Downloading a clip: naming its file, the yt-dlp arguments, and the record
//! that is saved to the library.
use crate::metadata::{strings_view, YouTubeMetadata};
use crate::outside::{
    char_is_alphanumeric, is_alphanumeric_char, is_ascii_alphanumeric, is_hyphenated_uuid,
    is_utc_rfc3339, is_v4_uuid, is_lower_hex, lossy_utf8, new_uuid_string, now_rfc3339, utf8_lossy,
};
use vstd::prelude::*;

verus! {

/// A clip saved in the library.
#[derive(Debug, Clone)]
pub struct Clip {
    pub id: String,
    pub video_id: String,
    pub title: String,
    pub channel: String,
    pub thumbnail_url: String,
    pub source_url: String,
    pub start_time: String,
    pub end_time: String,
    pub file_path: String,
    pub file_size: i64,
    pub created_at: String,
    pub transcript: Option<String>,
}

/// The answer to a download request.
#[derive(Debug, Clone)]
pub struct ClipResult {
    pub success: bool,
    pub message: String,
    pub file_path: Option<String>,
    pub file_size: Option<String>,
    pub duration_secs: u64,
    pub clip: Option<Clip>,
}

/// Most characters of a title that go into a file name.
pub const SAFE_TITLE_MAX_CHARS: usize = 50;

/// A title character that is kept in file names: alphanumeric, space, `-`, `_`.
pub open spec fn title_char_allowed(c: char) -> bool {
    alphanumeric(c) || c == ' ' || c == '-' || c == '_'
}

/// `char::is_alphanumeric`: on ASCII the letters and digits, elsewhere as
/// Unicode says.
pub open spec fn alphanumeric(c: char) -> bool {
    if (c as u32) < 128 {
        is_ascii_alphanumeric(c)
    } else {
        is_alphanumeric_char(c)
    }
}

/// [`title_char_allowed`] as a predicate.
pub open spec fn title_filter() -> spec_fn(char) -> bool {
    |c: char| title_char_allowed(c)
}

/// The characters of `t` that are kept in file names, in order.
pub open spec fn allowed_title_chars(t: Seq<char>) -> Seq<char> {
    t.filter(title_filter())
}

/// At most the first 50 characters of `s`.
pub open spec fn at_most_50(s: Seq<char>) -> Seq<char> {
    if s.len() <= 50 {
        s
    } else {
        s.take(50)
    }
}

/// The title as it goes into a file name: its allowed characters, at most 50.
pub open spec fn safe_title_of(t: Seq<char>) -> Seq<char> {
    at_most_50(allowed_title_chars(t))
}

/// `{safe title}_{first 8 characters of the clip id}.mp4`
pub open spec fn file_name_of(title: Seq<char>, clip_id: Seq<char>) -> Seq<char> {
    safe_title_of(title) + "_"@ + clip_id.take(8) + ".mp4"@
}

/// `*{start}-{end}`: the section of the video that yt-dlp downloads.
pub open spec fn section_of(start: Seq<char>, end: Seq<char>) -> Seq<char> {
    "*"@ + start + "-"@ + end
}

/// The arguments of the yt-dlp run that downloads a clip.
pub open spec fn download_args_of(
    start: Seq<char>,
    end: Seq<char>,
    output_path: Seq<char>,
    url: Seq<char>,
) -> Seq<Seq<char>> {
    seq![
        "--download-sections"@,
        section_of(start, end),
        "--force-keyframes-at-cuts"@,
        "-f"@,
        "bestvideo[height<=1080]+bestaudio/best"@,
        "--merge-output-format"@,
        "mp4"@,
        "--postprocessor-args"@,
        "ffmpeg:-c:v h264_videotoolbox"@,
        "-o"@,
        output_path,
        url,
    ]
}

fn title_char_kept(c: char) -> (b: bool)
    ensures
        b == title_char_allowed(c),
{
    char_is_alphanumeric(c) || c == ' ' || c == '-' || c == '_'
}

/// The title as it goes into a file name: only its alphanumeric characters,
/// spaces, `-` and `_`, and at most 50 of them.
pub fn safe_title(title: &str) -> (r: String)
    ensures
        r@ == safe_title_of(title@),
{
    let n = title.unicode_len();
    let mut r = String::new();
    let mut kept: usize = 0;
    let mut i: usize = 0;
    while i < n
        invariant
            n == title@.len(),
            i <= n,
            r@ == at_most_50(allowed_title_chars(title@.take(i as int))),
            kept == r@.len(),
            kept <= 50,
            kept < 50 ==> kept == allowed_title_chars(title@.take(i as int)).len(),
        decreases n - i,
    {
        let ghost before = allowed_title_chars(title@.take(i as int));
        let c = title.get_char(i);
        let ghost next = title@.take(i + 1);
        assert(next =~= title@.take(i as int).push(c));
        proof {
            title@.take(i as int).lemma_filter_push(c, title_filter());
        }
        assert(allowed_title_chars(next) == if title_char_allowed(c) {
            before.push(c)
        } else {
            before
        });
        if title_char_kept(c) {
            if kept < SAFE_TITLE_MAX_CHARS {
                let piece = title.substring_char(i, i + 1);
                assert(piece@ =~= seq![c]);
                r.append(piece);
                kept = kept + 1;
                assert(r@ =~= at_most_50(before.push(c)));
            } else {
                assert(before.push(c).take(50) =~= before.take(50));
            }
        }
        i = i + 1;
    }
    assert(title@.take(n as int) =~= title@);
    r
}

/// The first eight characters of `s` are ASCII, so they are its first eight
/// bytes, as in a UUID.
pub open spec fn ascii_prefix_8(s: Seq<char>) -> bool {
    s.len() >= 8 && forall|k: int| 0 <= k < 8 ==> (#[trigger] s[k] as u32) < 128
}

/// The name of a clip's file: its safe title, `_`, the first eight
/// characters of its id, and `.mp4`.
pub fn clip_file_name(title: &str, clip_id: &str) -> (r: String)
    requires
        ascii_prefix_8(clip_id@),
    ensures
        r@ == file_name_of(title@, clip_id@),
{
    let mut r = safe_title(title);
    r.append("_");
    r.append(clip_id.substring_char(0, 8));
    r.append(".mp4");
    r
}

/// A download about to start: the new clip's id and its file name.
#[derive(Debug, Clone)]
pub struct DownloadPlan {
    pub clip_id: String,
    pub file_name: String,
}

/// Give the clip about to be downloaded a fresh random id and its file name.
pub fn plan_download(metadata: &YouTubeMetadata) -> (r: DownloadPlan)
    ensures
        is_v4_uuid(r.clip_id@),
        r.file_name@ == file_name_of(metadata.title@, r.clip_id@),
{
    let clip_id = new_uuid_string();
    assert forall|k: int| 0 <= k < 8 implies (#[trigger] clip_id@[k] as u32) < 128 by {
        assert(crate::outside::is_lower_hex(clip_id@[k]));
    }
    let file_name = clip_file_name(metadata.title.as_str(), clip_id.as_str());
    DownloadPlan { clip_id, file_name }
}

/// The arguments with which yt-dlp downloads the section from `start` to
/// `end` of the video at `url` into `output_path`: best video up to 1080p
/// with the best audio, cut at keyframes, merged into mp4.
pub fn download_args(start: &str, end: &str, output_path: &str, url: &str) -> (r: Vec<String>)
    ensures
        strings_view(r@) == download_args_of(start@, end@, output_path@, url@),
{
    let mut section = "*".to_owned();
    section.append(start);
    section.append("-");
    section.append(end);
    let mut r: Vec<String> = Vec::new();
    r.push("--download-sections".to_owned());
    r.push(section);
    r.push("--force-keyframes-at-cuts".to_owned());
    r.push("-f".to_owned());
    r.push("bestvideo[height<=1080]+bestaudio/best".to_owned());
    r.push("--merge-output-format".to_owned());
    r.push("mp4".to_owned());
    r.push("--postprocessor-args".to_owned());
    r.push("ffmpeg:-c:v h264_videotoolbox".to_owned());
    r.push("-o".to_owned());
    r.push(output_path.to_owned());
    r.push(url.to_owned());
    assert(strings_view(r@) =~= download_args_of(start@, end@, output_path@, url@));
    r
}

/// The record of a clip that has just been downloaded into `file_path`,
/// stamped with the current time and without a transcript.
pub fn saved_clip(
    clip_id: String,
    metadata: YouTubeMetadata,
    source_url: String,
    start_time: String,
    end_time: String,
    file_path: String,
    file_size: i64,
) -> (r: Clip)
    ensures
        r.id == clip_id,
        r.video_id == metadata.video_id,
        r.title == metadata.title,
        r.channel == metadata.channel,
        r.thumbnail_url == metadata.thumbnail_url,
        r.source_url == source_url,
        r.start_time == start_time,
        r.end_time == end_time,
        r.file_path == file_path,
        r.file_size == file_size,
        is_utc_rfc3339(r.created_at@),
        r.transcript is None,
{
    Clip {
        id: clip_id,
        video_id: metadata.video_id,
        title: metadata.title,
        channel: metadata.channel,
        thumbnail_url: metadata.thumbnail_url,
        source_url,
        start_time,
        end_time,
        file_path,
        file_size,
        created_at: now_rfc3339(),
        transcript: None,
    }
}

/// The answer to a download that succeeded and was saved.
pub fn download_succeeded(clip: Clip, file_size_text: String, duration_secs: u64) -> (r: ClipResult)
    ensures
        r.success,
        r.message@ == "Clip downloaded and saved"@,
        r.file_path matches Some(p) && p == clip.file_path,
        r.file_size == Some(file_size_text),
        r.duration_secs == duration_secs,
        r.clip == Some(clip),
{
    let file_path = clip.file_path.clone();
    ClipResult {
        success: true,
        message: "Clip downloaded and saved".to_owned(),
        file_path: Some(file_path),
        file_size: Some(file_size_text),
        duration_secs,
        clip: Some(clip),
    }
}

/// How a download run ended: when yt-dlp succeeded the clip is to be saved
/// (`Ok`); when it failed, the error is `yt-dlp error: {stderr}`.
pub fn download_outcome(success: bool, stderr: &[u8]) -> (r: Result<(), String>)
    ensures
        success ==> r is Ok,
        !success ==> (r matches Err(m) && m@ == "yt-dlp error: "@ + utf8_lossy(stderr@)),
{
    if success {
        return Ok(());
    }
    let mut r = "yt-dlp error: ".to_owned();
    let text = lossy_utf8(stderr);
    r.append(text.as_str());
    Err(r)
}

/// The error of a download that yt-dlp could not be run for.
pub fn execute_error_message(error: &str) -> (r: String)
    ensures
        r@ == "Failed to execute yt-dlp: "@ + error@,
{
    let mut r = "Failed to execute yt-dlp: ".to_owned();
    r.append(error);
    r
}

/// The error of a clip that could not be saved to the database.
pub fn database_error_message(error: &str) -> (r: String)
    ensures
        r@ == "Database error: "@ + error@,
{
    let mut r = "Database error: ".to_owned();
    r.append(error);
    r
}

/// Filtering keeps a sequence whose elements all pass unchanged.
proof fn lemma_filter_all_pass(s: Seq<char>)
    requires
        forall|k: int| 0 <= k < s.len() ==> #[trigger] title_char_allowed(s[k]),
    ensures
        allowed_title_chars(s) == s,
    decreases s.len(),
{
    if s.len() == 0 {
        reveal(Seq::filter);
    } else {
        let init = s.drop_last();
        assert forall|k: int| 0 <= k < init.len() implies #[trigger] title_char_allowed(init[k]) by {
            assert(init[k] == s[k]);
        }
        lemma_filter_all_pass(init);
        init.lemma_filter_push(s.last(), title_filter());
        assert(init.push(s.last()) =~= s);
    }
}

/// Every character of a safe title is one that file names keep, and there
/// are at most 50 of them.
pub proof fn law_safe_title_shape(t: Seq<char>)
    ensures
        safe_title_of(t).len() <= 50,
        forall|k: int|
            0 <= k < safe_title_of(t).len() ==> #[trigger] title_char_allowed(safe_title_of(t)[k]),
{
    let f = allowed_title_chars(t);
    assert forall|k: int| 0 <= k < safe_title_of(t).len() implies #[trigger] title_char_allowed(
        safe_title_of(t)[k],
    ) by {
        assert(safe_title_of(t)[k] == f[k]);
        t.lemma_filter_pred(title_filter(), k);
    }
}

/// Making a title safe twice is making it safe once.
pub proof fn law_safe_title_idempotent(t: Seq<char>)
    ensures
        safe_title_of(safe_title_of(t)) == safe_title_of(t),
{
    law_safe_title_shape(t);
    lemma_filter_all_pass(safe_title_of(t));
}

/// A title that is already safe (only kept characters, at most 50) goes into
/// file names unchanged.
pub proof fn law_safe_title_keeps_safe(t: Seq<char>)
    requires
        t.len() <= 50,
        forall|k: int| 0 <= k < t.len() ==> #[trigger] title_char_allowed(t[k]),
    ensures
        safe_title_of(t) == t,
{
    lemma_filter_all_pass(t);
}

/// A character that separates the parts of a path.
pub open spec fn is_path_separator(c: char) -> bool {
    c == '/' || c == '\\'
}

/// A clip's file name holds no path separator, whatever the title: the file
/// lies directly in the clips directory.
pub proof fn law_file_name_has_no_separator(title: Seq<char>, clip_id: Seq<char>)
    requires
        is_hyphenated_uuid(clip_id),
    ensures
        forall|k: int|
            0 <= k < file_name_of(title, clip_id).len() ==> !is_path_separator(
                #[trigger] file_name_of(title, clip_id)[k],
            ),
{
    reveal_strlit("_");
    reveal_strlit(".mp4");
    law_safe_title_shape(title);
    let safe = safe_title_of(title);
    let id8 = clip_id.take(8);
    let name = file_name_of(title, clip_id);
    assert(name =~= safe + "_"@ + id8 + ".mp4"@);
    assert forall|k: int| 0 <= k < name.len() implies !is_path_separator(#[trigger] name[k]) by {
        if k < safe.len() {
            assert(name[k] == safe[k]);
            assert(title_char_allowed(safe[k]));
        } else if k == safe.len() {
            assert(name[k] == '_');
        } else if k < safe.len() + 9 {
            assert(name[k] == clip_id[k - safe.len() - 1]);
            assert(is_lower_hex(clip_id[k - safe.len() - 1]));
        } else {
            assert(name[k] == ".mp4"@[k - safe.len() - 9]);
        }
    }
}

/// Only characters that `char::is_alphanumeric` accepts, spaces, `-` and `_`
/// occur in a safe title; there are at most 50 of them.
pub proof fn law_safe_title_only_kept_chars(t: Seq<char>)
    ensures
        safe_title_of(t).len() <= 50,
        forall|k: int|
            0 <= k < safe_title_of(t).len() ==> {
                let x = #[trigger] safe_title_of(t)[k];
                (((x as u32) < 128 && is_ascii_alphanumeric(x)) || ((x as u32) >= 128 && is_alphanumeric_char(x)) || x == ' ' || x == '-' || x == '_')
            },
{
    law_safe_title_shape(t);
    assert forall|k: int| 0 <= k < safe_title_of(t).len() implies {
        let x = #[trigger] safe_title_of(t)[k];
        (((x as u32) < 128 && is_ascii_alphanumeric(x)) || ((x as u32) >= 128 && is_alphanumeric_char(x)) || x == ' ' || x == '-' || x == '_')
    } by {
        assert(title_char_allowed(safe_title_of(t)[k]));
    }
}

/// A character that `char::is_alphanumeric` rejects, and that is not a space,
/// `-` or `_`, leaves no trace: the title with it gives the safe title of the
/// title without it, wherever it stands and whatever its code point.
pub proof fn law_safe_title_drops_other_chars(t: Seq<char>, c: char, u: Seq<char>)
    requires
        !(((c as u32) < 128 && is_ascii_alphanumeric(c)) || ((c as u32) >= 128 && is_alphanumeric_char(c)) || c == ' ' || c == '-' || c == '_'),
    ensures
        safe_title_of(t + seq![c] + u) == safe_title_of(t + u),
{
    let p = title_filter();
    Seq::filter_distributes_over_add(t + seq![c], u, p);
    Seq::filter_distributes_over_add(t, seq![c], p);
    Seq::filter_distributes_over_add(t, u, p);
    Seq::<char>::empty().lemma_filter_push(c, p);
    reveal(Seq::filter);
    assert(Seq::<char>::empty().push(c) =~= seq![c]);
    assert(Seq::<char>::empty().filter(p) =~= Seq::<char>::empty());
    assert(t.filter(p) + Seq::<char>::empty() =~= t.filter(p));
}

/// A character that `char::is_alphanumeric` accepts, or a space, `-` or `_`,
/// is kept in front: the safe title of `c` followed by `u` is `c` followed by
/// the safe title of `u`, cut to 50 characters.
pub proof fn law_safe_title_keeps_kept_chars(c: char, u: Seq<char>)
    requires
        (((c as u32) < 128 && is_ascii_alphanumeric(c)) || ((c as u32) >= 128 && is_alphanumeric_char(c)) || c == ' ' || c == '-' || c == '_'),
    ensures
        safe_title_of(seq![c] + u) == (if 1 + safe_title_of(u).len() <= 50 {
            seq![c] + safe_title_of(u)
        } else {
            (seq![c] + safe_title_of(u)).take(50)
        }),
{
    let p = title_filter();
    u.lemma_filter_prepend(c, p);
    assert(title_char_allowed(c));
    let f = allowed_title_chars(u);
    assert(allowed_title_chars(seq![c] + u) == seq![c] + f);
    if f.len() > 50 {
        assert((seq![c] + f).take(50) =~= (seq![c] + f.take(50)).take(50));
    }
}

/// The file name is the safe title, `_`, the id's first eight characters and
/// `.mp4`.
pub proof fn law_file_name_parts(title: Seq<char>, clip_id: Seq<char>)
    ensures
        file_name_of(title, clip_id) == safe_title_of(title) + seq!['_'] + clip_id.take(8) + seq![
            '.',
            'm',
            'p',
            '4',
        ],
{
    reveal_strlit("_");
    reveal_strlit(".mp4");
    assert("_"@ =~= seq!['_']);
    assert(".mp4"@ =~= seq!['.', 'm', 'p', '4']);
}

/// yt-dlp downloads the time range from `start` to `end`: the value of
/// `--download-sections` is `*`, `start`, `-`, `end`, whatever the texts hold;
/// the output goes to `output_path` and the URL comes last.
pub proof fn law_download_section_is_time_range(
    start: Seq<char>,
    end: Seq<char>,
    output_path: Seq<char>,
    url: Seq<char>,
)
    ensures
        download_args_of(start, end, output_path, url).len() == 12,
        download_args_of(start, end, output_path, url)[0] == "--download-sections"@,
        download_args_of(start, end, output_path, url)[1] == seq!['*'] + start + seq!['-'] + end,
        download_args_of(start, end, output_path, url)[1][0] == '*',
        download_args_of(start, end, output_path, url)[2] == "--force-keyframes-at-cuts"@,
        download_args_of(start, end, output_path, url)[3] == "-f"@,
        download_args_of(start, end, output_path, url)[4] == "bestvideo[height<=1080]+bestaudio/best"@,
        download_args_of(start, end, output_path, url)[5] == "--merge-output-format"@,
        download_args_of(start, end, output_path, url)[6] == "mp4"@,
        download_args_of(start, end, output_path, url)[7] == "--postprocessor-args"@,
        download_args_of(start, end, output_path, url)[8] == "ffmpeg:-c:v h264_videotoolbox"@,
        download_args_of(start, end, output_path, url)[9] == "-o"@,
        download_args_of(start, end, output_path, url)[10] == output_path,
        download_args_of(start, end, output_path, url)[11] == url,
{
    reveal_strlit("*");
    reveal_strlit("-");
    assert("*"@ =~= seq!['*']);
    assert("-"@ =~= seq!['-']);
    assert((seq!['*'] + start + seq!['-'] + end)[0] == '*');
}

} // verus!
