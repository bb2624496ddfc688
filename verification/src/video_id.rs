//! Recognising YouTube video URLs and extracting their 11-character video id.
//!
//! Two URL grammars are recognised, tried in this order:
//!
//! * the standard forms `youtube.com/watch?v=ID`, `youtu.be/ID`,
//!   `youtube.com/embed/ID` and `youtube.com/v/ID`;
//! * the shorts form `youtube.com/shorts/ID`;
//!
//! where `ID` is eleven characters from `[a-zA-Z0-9_-]`. A grammar matches
//! anywhere in the text (it is not anchored); among its matches the one that
//! starts leftmost wins, and at one start position the alternatives are tried
//! in the order listed.
use crate::text::{chars_of, lit_at, lit_at_exec};
use vstd::prelude::*;

verus! {

/// Number of characters in a video id.
pub const VIDEO_ID_LEN: usize = 11;

/// A character that may appear in a YouTube video id: `[a-zA-Z0-9_-]`.
pub open spec fn is_id_char(c: char) -> bool {
    ('a' <= c && c <= 'z') || ('A' <= c && c <= 'Z') || ('0' <= c && c <= '9') || c == '_' || c
        == '-'
}

/// Eleven id characters start at index `j` of `s`.
pub open spec fn id_run_at(s: Seq<char>, j: int) -> bool {
    &&& 0 <= j
    &&& j + 11 <= s.len()
    &&& forall|k: int| j <= k < j + 11 ==> #[trigger] is_id_char(s[k])
}

/// `lit` occurs at index `i` of `s` and is followed by eleven id characters.
pub open spec fn id_after(s: Seq<char>, i: int, lit: Seq<char>) -> bool {
    lit_at(s, i, lit) && id_run_at(s, i + lit.len())
}

/// The grammars that are tried, in order.
#[derive(Clone, Copy, Debug, PartialEq, Eq)]
pub enum UrlPattern {
    /// `youtube.com/watch?v=`, `youtu.be/`, `youtube.com/embed/` or `youtube.com/v/`.
    Standard,
    /// `youtube.com/shorts/`.
    Shorts,
}

pub open spec fn watch_prefix() -> Seq<char> {
    "youtube.com/watch?v="@
}

pub open spec fn short_link_prefix() -> Seq<char> {
    "youtu.be/"@
}

pub open spec fn embed_prefix() -> Seq<char> {
    "youtube.com/embed/"@
}

pub open spec fn v_prefix() -> Seq<char> {
    "youtube.com/v/"@
}

pub open spec fn shorts_prefix() -> Seq<char> {
    "youtube.com/shorts/"@
}

/// Where the captured id starts when `pattern` matches with its match starting
/// at index `i` of `s`; `None` when it does not match there. Alternatives are
/// tried in order.
pub open spec fn capture_at(s: Seq<char>, pattern: UrlPattern, i: int) -> Option<int> {
    match pattern {
        UrlPattern::Standard => if id_after(s, i, watch_prefix()) {
            Some(i + watch_prefix().len())
        } else if id_after(s, i, short_link_prefix()) {
            Some(i + short_link_prefix().len())
        } else if id_after(s, i, embed_prefix()) {
            Some(i + embed_prefix().len())
        } else if id_after(s, i, v_prefix()) {
            Some(i + v_prefix().len())
        } else {
            None
        },
        UrlPattern::Shorts => if id_after(s, i, shorts_prefix()) {
            Some(i + shorts_prefix().len())
        } else {
            None
        },
    }
}

/// `pattern` matches somewhere in `s`.
pub open spec fn has_match(s: Seq<char>, pattern: UrlPattern) -> bool {
    exists|i: int| #[trigger] capture_at(s, pattern, i) is Some
}

/// `i` is the leftmost start of a match of `pattern` in `s`.
pub open spec fn is_first_match(s: Seq<char>, pattern: UrlPattern, i: int) -> bool {
    &&& capture_at(s, pattern, i) is Some
    &&& forall|j: int| 0 <= j < i ==> #[trigger] capture_at(s, pattern, j) is None
}

/// The id captured by the leftmost match of `pattern` in `s`, if any.
pub open spec fn first_capture(s: Seq<char>, pattern: UrlPattern) -> Option<Seq<char>> {
    if exists|i: int| is_first_match(s, pattern, i) {
        let i = choose|i: int| is_first_match(s, pattern, i);
        let c = capture_at(s, pattern, i)->0;
        Some(s.subrange(c, c + 11))
    } else {
        None
    }
}

/// The video id of a URL: the standard grammar's capture, else the shorts
/// grammar's capture, else none.
pub open spec fn video_id_of(s: Seq<char>) -> Option<Seq<char>> {
    match first_capture(s, UrlPattern::Standard) {
        Some(id) => Some(id),
        None => first_capture(s, UrlPattern::Shorts),
    }
}

fn id_char(c: char) -> (b: bool)
    ensures
        b == is_id_char(c),
{
    ('a' <= c && c <= 'z') || ('A' <= c && c <= 'Z') || ('0' <= c && c <= '9') || c == '_' || c
        == '-'
}

/// Eleven id characters start at `j`.
fn id_run_at_exec(v: &Vec<char>, j: usize) -> (b: bool)
    ensures
        b == id_run_at(v@, j as int),
{
    if j > v.len() || v.len() - j < VIDEO_ID_LEN {
        return false;
    }
    let mut k: usize = 0;
    while k < VIDEO_ID_LEN
        invariant
            j + 11 <= v@.len(),
            v@.len() <= usize::MAX,
            k <= 11,
            forall|m: int| j <= m < j + k ==> #[trigger] is_id_char(v@[m]),
        decreases 11 - k,
    {
        if !id_char(v[j + k]) {
            assert(!is_id_char(v@[j + k]));
            return false;
        }
        k = k + 1;
    }
    true
}

fn id_after_exec(v: &Vec<char>, i: usize, lit: &str) -> (b: bool)
    ensures
        b == id_after(v@, i as int, lit@),
{
    if !lit_at_exec(v, i, lit) {
        return false;
    }
    let n = lit.unicode_len();
    proof {
        assert(v@.len() == v.len());
    }
    id_run_at_exec(v, i + n)
}

fn capture_at_exec(v: &Vec<char>, pattern: UrlPattern, i: usize) -> (r: Option<usize>)
    ensures
        match r {
            Some(c) => capture_at(v@, pattern, i as int) == Some(c as int),
            None => capture_at(v@, pattern, i as int) is None,
        },
{
    proof {
        assert(v@.len() == v.len());
    }
    match pattern {
        UrlPattern::Standard => {
            let watch = "youtube.com/watch?v=";
            let short_link = "youtu.be/";
            let embed = "youtube.com/embed/";
            let v_path = "youtube.com/v/";
            if id_after_exec(v, i, watch) {
                Some(i + watch.unicode_len())
            } else if id_after_exec(v, i, short_link) {
                Some(i + short_link.unicode_len())
            } else if id_after_exec(v, i, embed) {
                Some(i + embed.unicode_len())
            } else if id_after_exec(v, i, v_path) {
                Some(i + v_path.unicode_len())
            } else {
                None
            }
        },
        UrlPattern::Shorts => {
            let shorts = "youtube.com/shorts/";
            if id_after_exec(v, i, shorts) {
                Some(i + shorts.unicode_len())
            } else {
                None
            }
        },
    }
}

/// Only one index is the leftmost start of a match.
proof fn lemma_first_match_unique(s: Seq<char>, pattern: UrlPattern, i1: int, i2: int)
    requires
        is_first_match(s, pattern, i1),
        is_first_match(s, pattern, i2),
    ensures
        i1 == i2,
{
    if i1 < i2 {
        assert(0 <= i1);
        assert(capture_at(s, pattern, i1) is None);
    } else if i2 < i1 {
        assert(0 <= i2);
        assert(capture_at(s, pattern, i2) is None);
    }
}

/// A match can only start where there is room for a prefix and an id.
proof fn lemma_capture_in_bounds(s: Seq<char>, pattern: UrlPattern, i: int)
    requires
        capture_at(s, pattern, i) is Some,
    ensures
        0 <= i,
        i <= capture_at(s, pattern, i)->0,
        capture_at(s, pattern, i)->0 + 11 <= s.len(),
        id_run_at(s, capture_at(s, pattern, i)->0),
{
}

/// Scan `v` left to right for the leftmost match of `pattern`; return where
/// its capture starts.
fn find_capture(v: &Vec<char>, pattern: UrlPattern) -> (r: Option<usize>)
    ensures
        match r {
            Some(c) => exists|i: int|
                is_first_match(v@, pattern, i) && capture_at(v@, pattern, i) == Some(c as int),
            None => !has_match(v@, pattern),
        },
{
    let len = v.len();
    let mut i: usize = 0;
    while i < len
        invariant
            len == v@.len(),
            i <= len,
            forall|j: int| 0 <= j < i ==> #[trigger] capture_at(v@, pattern, j) is None,
        decreases len - i,
    {
        match capture_at_exec(v, pattern, i) {
            Some(c) => {
                assert(is_first_match(v@, pattern, i as int));
                return Some(c);
            },
            None => {},
        }
        i = i + 1;
    }
    assert forall|j: int| #[trigger] capture_at(v@, pattern, j) is None by {
        if capture_at(v@, pattern, j) is Some {
            lemma_capture_in_bounds(v@, pattern, j);
        }
    }
    None
}

/// The id captured by the leftmost match of `pattern` in `url`.
fn capture_of(url: &str, v: &Vec<char>, pattern: UrlPattern) -> (r: Option<String>)
    requires
        v@ == url@,
    ensures
        match r {
            Some(id) => first_capture(url@, pattern) == Some(id@),
            None => first_capture(url@, pattern) is None && !has_match(url@, pattern),
        },
{
    match find_capture(v, pattern) {
        Some(c) => {
            let ghost w = choose|i: int|
                is_first_match(v@, pattern, i) && capture_at(v@, pattern, i) == Some(c as int);
            proof {
                lemma_capture_in_bounds(v@, pattern, w);
                let k = choose|i: int| is_first_match(url@, pattern, i);
                lemma_first_match_unique(url@, pattern, w, k);
            }
            proof {
                assert(v@.len() == v.len());
            }
            let id = url.substring_char(c, c + VIDEO_ID_LEN);
            Some(id.to_owned())
        },
        None => {
            assert(!exists|i: int| is_first_match(url@, pattern, i));
            None
        },
    }
}

/// Extract the video id from a YouTube URL.
///
/// The standard grammar (`youtube.com/watch?v=`, `youtu.be/`,
/// `youtube.com/embed/`, `youtube.com/v/`) is tried first, then the shorts
/// grammar (`youtube.com/shorts/`). Within a grammar, the match that starts
/// leftmost in the URL gives the id.
pub fn extract_video_id(url: &str) -> (r: Option<String>)
    ensures
        match r {
            Some(id) => video_id_of(url@) == Some(id@),
            None => video_id_of(url@) is None,
        },
        r is None <==> (!has_match(url@, UrlPattern::Standard) && !has_match(
            url@,
            UrlPattern::Shorts,
        )),
{
    let v = chars_of(url);
    match capture_of(url, &v, UrlPattern::Standard) {
        Some(id) => Some(id),
        None => capture_of(url, &v, UrlPattern::Shorts),
    }
}

/// Eleven characters, each an ASCII letter, a digit, `_` or `-`.
pub open spec fn is_video_id(id: Seq<char>) -> bool {
    &&& id.len() == 11
    &&& forall|k: int|
        0 <= k < 11 ==> {
            let c = #[trigger] id[k];
            ('a' <= c && c <= 'z') || ('A' <= c && c <= 'Z') || ('0' <= c && c <= '9') || c
                == '_' || c == '-'
        }
}

/// The leftmost match determines what `first_capture` returns.
proof fn lemma_first_capture_at(s: Seq<char>, pattern: UrlPattern, i: int)
    requires
        is_first_match(s, pattern, i),
    ensures
        first_capture(s, pattern) == Some(
            s.subrange(capture_at(s, pattern, i)->0, capture_at(s, pattern, i)->0 + 11),
        ),
{
    let k = choose|k: int| is_first_match(s, pattern, k);
    lemma_first_match_unique(s, pattern, i, k);
}

/// Where a grammar matches at all, it has a leftmost match.
proof fn lemma_first_match_exists(s: Seq<char>, pattern: UrlPattern, i: int)
    requires
        capture_at(s, pattern, i) is Some,
    ensures
        exists|k: int| is_first_match(s, pattern, k),
    decreases i,
{
    lemma_capture_in_bounds(s, pattern, i);
    if exists|j: int| 0 <= j < i && #[trigger] capture_at(s, pattern, j) is Some {
        let j = choose|j: int| 0 <= j < i && #[trigger] capture_at(s, pattern, j) is Some;
        lemma_first_match_exists(s, pattern, j);
    } else {
        assert(is_first_match(s, pattern, i));
    }
}

/// A grammar captures an id exactly when it matches somewhere.
pub proof fn law_capture_iff_match(s: Seq<char>, pattern: UrlPattern)
    ensures
        first_capture(s, pattern) is Some <==> has_match(s, pattern),
{
    if has_match(s, pattern) {
        let i = choose|i: int| #[trigger] capture_at(s, pattern, i) is Some;
        lemma_first_match_exists(s, pattern, i);
    }
    if first_capture(s, pattern) is Some {
        let i = choose|i: int| is_first_match(s, pattern, i);
        assert(capture_at(s, pattern, i) is Some);
    }
}

/// An extracted id is eleven characters of `[a-zA-Z0-9_-]` that occur in the
/// URL right after one of the recognised prefixes.
pub proof fn law_extracted_id_shape(s: Seq<char>)
    requires
        video_id_of(s) is Some,
    ensures
        is_video_id(video_id_of(s)->0),
        exists|c: int|
            0 <= c && c + 11 <= s.len() && #[trigger] s.subrange(c, c + 11) == video_id_of(s)->0,
{
    let pattern = if first_capture(s, UrlPattern::Standard) is Some {
        UrlPattern::Standard
    } else {
        UrlPattern::Shorts
    };
    let i = choose|i: int| is_first_match(s, pattern, i);
    lemma_capture_in_bounds(s, pattern, i);
    let c = capture_at(s, pattern, i)->0;
    let id = s.subrange(c, c + 11);
    assert forall|k: int| 0 <= k < 11 implies is_id_char(#[trigger] id[k]) by {
        assert(id[k] == s[c + k]);
        assert(is_id_char(s[c + k]));
    }
    lemma_first_capture_at(s, pattern, i);
    assert(is_video_id(id));
}

/// The standard grammar takes precedence: where it matches, the shorts
/// grammar is not consulted; and no id comes out only when neither matches.
pub proof fn law_standard_first(s: Seq<char>)
    ensures
        has_match(s, UrlPattern::Standard) ==> video_id_of(s) == first_capture(
            s,
            UrlPattern::Standard,
        ),
        !has_match(s, UrlPattern::Standard) ==> video_id_of(s) == first_capture(
            s,
            UrlPattern::Shorts,
        ),
        video_id_of(s) is None <==> (!has_match(s, UrlPattern::Standard) && !has_match(
            s,
            UrlPattern::Shorts,
        )),
{
    law_capture_iff_match(s, UrlPattern::Standard);
    law_capture_iff_match(s, UrlPattern::Shorts);
}

/// No match of either grammar starts at a character other than `y`.
proof fn lemma_match_starts_with_y(s: Seq<char>, pattern: UrlPattern, j: int)
    requires
        0 <= j < s.len(),
        s[j] != 'y',
    ensures
        capture_at(s, pattern, j) is None,
{
    reveal_strlit("youtube.com/watch?v=");
    reveal_strlit("youtu.be/");
    reveal_strlit("youtube.com/embed/");
    reveal_strlit("youtube.com/v/");
    reveal_strlit("youtube.com/shorts/");
    assert(lit_at(s, j, watch_prefix()) ==> s.subrange(j, j + 20)[0] == watch_prefix()[0]);
    assert(lit_at(s, j, short_link_prefix()) ==> s.subrange(j, j + 9)[0]
        == short_link_prefix()[0]);
    assert(lit_at(s, j, embed_prefix()) ==> s.subrange(j, j + 18)[0] == embed_prefix()[0]);
    assert(lit_at(s, j, v_prefix()) ==> s.subrange(j, j + 14)[0] == v_prefix()[0]);
    assert(lit_at(s, j, shorts_prefix()) ==> s.subrange(j, j + 19)[0] == shorts_prefix()[0]);
}

/// If the standard grammar matches at `n` and no character before `n` is a
/// `y`, its capture there is the URL's video id.
proof fn lemma_standard_id_at(s: Seq<char>, n: int)
    requires
        0 <= n,
        capture_at(s, UrlPattern::Standard, n) is Some,
        forall|j: int| 0 <= j < n ==> s[j] != 'y',
    ensures
        video_id_of(s) == Some(
            s.subrange(
                capture_at(s, UrlPattern::Standard, n)->0,
                capture_at(s, UrlPattern::Standard, n)->0 + 11,
            ),
        ),
{
    lemma_capture_in_bounds(s, UrlPattern::Standard, n);
    assert forall|j: int| 0 <= j < n implies #[trigger] capture_at(s, UrlPattern::Standard, j)
        is None by {
        lemma_match_starts_with_y(s, UrlPattern::Standard, j);
    }
    assert(is_first_match(s, UrlPattern::Standard, n));
    lemma_first_capture_at(s, UrlPattern::Standard, n);
}

/// `s` is `lead`, then `id`, then anything; `id` is a video id.
proof fn lemma_id_run_after(lead: Seq<char>, id: Seq<char>, rest: Seq<char>)
    requires
        is_video_id(id),
    ensures
        id_run_at(lead + id + rest, lead.len() as int),
        (lead + id + rest).subrange(lead.len() as int, lead.len() + 11int) == id,
{
    let s = lead + id + rest;
    assert forall|k: int| lead.len() <= k < lead.len() + 11 implies #[trigger] is_id_char(s[k]) by {
        assert(s[k] == id[k - lead.len()]);
    }
    assert(s.subrange(lead.len() as int, lead.len() + 11int) =~= id);
}

/// A `https://www.youtube.com/watch?v=ID` URL, whatever follows the id,
/// yields `ID`.
pub proof fn law_watch_url_round_trip(id: Seq<char>, rest: Seq<char>)
    requires
        is_video_id(id),
    ensures
        video_id_of("https://www.youtube.com/watch?v="@ + id + rest) == Some(id),
{
    reveal_strlit("https://www.youtube.com/watch?v=");
    reveal_strlit("youtube.com/watch?v=");
    let lead = "https://www.youtube.com/watch?v="@;
    let s = lead + id + rest;
    lemma_id_run_after(lead, id, rest);
    assert(s.subrange(12, 32) =~= watch_prefix());
    assert(capture_at(s, UrlPattern::Standard, 12) == Some(32int));
    lemma_standard_id_at(s, 12);
}

/// A `https://youtu.be/ID` URL, whatever follows the id, yields `ID`.
pub proof fn law_short_link_round_trip(id: Seq<char>, rest: Seq<char>)
    requires
        is_video_id(id),
    ensures
        video_id_of("https://youtu.be/"@ + id + rest) == Some(id),
{
    reveal_strlit("https://youtu.be/");
    reveal_strlit("youtube.com/watch?v=");
    reveal_strlit("youtu.be/");
    let lead = "https://youtu.be/"@;
    let s = lead + id + rest;
    lemma_id_run_after(lead, id, rest);
    assert(s.subrange(8, 28)[5] != watch_prefix()[5]);
    assert(s.subrange(8, 17) =~= short_link_prefix());
    assert(capture_at(s, UrlPattern::Standard, 8) == Some(17int));
    lemma_standard_id_at(s, 8);
}

/// A `https://www.youtube.com/embed/ID` URL, whatever follows the id, yields
/// `ID`.
pub proof fn law_embed_url_round_trip(id: Seq<char>, rest: Seq<char>)
    requires
        is_video_id(id),
    ensures
        video_id_of("https://www.youtube.com/embed/"@ + id + rest) == Some(id),
{
    reveal_strlit("https://www.youtube.com/embed/");
    reveal_strlit("youtube.com/watch?v=");
    reveal_strlit("youtu.be/");
    reveal_strlit("youtube.com/embed/");
    let lead = "https://www.youtube.com/embed/"@;
    let s = lead + id + rest;
    lemma_id_run_after(lead, id, rest);
    assert(s.subrange(12, 32)[12] != watch_prefix()[12]);
    assert(s.subrange(12, 21)[5] != short_link_prefix()[5]);
    assert(s.subrange(12, 30) =~= embed_prefix());
    assert(capture_at(s, UrlPattern::Standard, 12) == Some(30int));
    lemma_standard_id_at(s, 12);
}

/// A `https://www.youtube.com/v/ID` URL, whatever follows the id, yields `ID`.
pub proof fn law_v_url_round_trip(id: Seq<char>, rest: Seq<char>)
    requires
        is_video_id(id),
    ensures
        video_id_of("https://www.youtube.com/v/"@ + id + rest) == Some(id),
{
    reveal_strlit("https://www.youtube.com/v/");
    reveal_strlit("youtube.com/watch?v=");
    reveal_strlit("youtu.be/");
    reveal_strlit("youtube.com/embed/");
    reveal_strlit("youtube.com/v/");
    let lead = "https://www.youtube.com/v/"@;
    let s = lead + id + rest;
    lemma_id_run_after(lead, id, rest);
    assert(s.subrange(12, 32)[12] != watch_prefix()[12]);
    assert(s.subrange(12, 21)[5] != short_link_prefix()[5]);
    assert(s.subrange(12, 30)[12] != embed_prefix()[12]);
    assert(s.subrange(12, 26) =~= v_prefix());
    assert(capture_at(s, UrlPattern::Standard, 12) == Some(26int));
    lemma_standard_id_at(s, 12);
}

/// A `https://www.youtube.com/shorts/ID` URL yields `ID`.
pub proof fn law_shorts_url_round_trip(id: Seq<char>)
    requires
        is_video_id(id),
    ensures
        video_id_of("https://www.youtube.com/shorts/"@ + id) == Some(id),
{
    reveal_strlit("https://www.youtube.com/shorts/");
    reveal_strlit("youtube.com/watch?v=");
    reveal_strlit("youtu.be/");
    reveal_strlit("youtube.com/embed/");
    reveal_strlit("youtube.com/v/");
    reveal_strlit("youtube.com/shorts/");
    let lead = "https://www.youtube.com/shorts/"@;
    let empty = Seq::<char>::empty();
    let s = lead + id + empty;
    assert(lead + id + empty =~= lead + id);
    lemma_id_run_after(lead, id, empty);
    assert forall|i: int| #[trigger] capture_at(s, UrlPattern::Standard, i) is None by {
        if capture_at(s, UrlPattern::Standard, i) is Some {
            lemma_capture_in_bounds(s, UrlPattern::Standard, i);
            if i == 12 {
                assert(s.subrange(12, 32)[12] != watch_prefix()[12]);
                assert(s.subrange(12, 21)[5] != short_link_prefix()[5]);
                assert(s.subrange(12, 30)[12] != embed_prefix()[12]);
                assert(s.subrange(12, 26)[12] != v_prefix()[12]);
            } else {
                assert(lit_at(s, i, short_link_prefix()) || lit_at(s, i, watch_prefix())
                    || lit_at(s, i, embed_prefix()) || lit_at(s, i, v_prefix()));
                assert(i + 9 + 11 <= 42);
                lemma_match_starts_with_y(s, UrlPattern::Standard, i);
            }
        }
    }
    assert(s.subrange(12, 31) =~= shorts_prefix());
    assert(capture_at(s, UrlPattern::Shorts, 12) == Some(31int));
    assert forall|j: int| 0 <= j < 12 implies #[trigger] capture_at(s, UrlPattern::Shorts, j)
        is None by {
        lemma_match_starts_with_y(s, UrlPattern::Shorts, j);
    }
    assert(is_first_match(s, UrlPattern::Shorts, 12));
    lemma_first_capture_at(s, UrlPattern::Shorts, 12);
    law_capture_iff_match(s, UrlPattern::Standard);
}

/// The standard prefixes exclude one another at one position.
proof fn lemma_standard_prefixes_exclusive(s: Seq<char>, i: int)
    ensures
        lit_at(s, i, watch_prefix()) ==> !lit_at(s, i, short_link_prefix()) && !lit_at(
            s,
            i,
            embed_prefix(),
        ) && !lit_at(s, i, v_prefix()),
        lit_at(s, i, short_link_prefix()) ==> !lit_at(s, i, embed_prefix()) && !lit_at(
            s,
            i,
            v_prefix(),
        ),
        lit_at(s, i, embed_prefix()) ==> !lit_at(s, i, v_prefix()),
{
    reveal_strlit("youtube.com/watch?v=");
    reveal_strlit("youtu.be/");
    reveal_strlit("youtube.com/embed/");
    reveal_strlit("youtube.com/v/");
    if lit_at(s, i, watch_prefix()) {
        assert(s.subrange(i, i + 20)[5] == 'b' && s.subrange(i, i + 20)[12] == 'w');
        assert(s[i + 5] == 'b' && s[i + 12] == 'w');
    }
    if lit_at(s, i, short_link_prefix()) {
        assert(s.subrange(i, i + 9)[5] == '.');
        assert(s[i + 5] == '.');
    }
    if lit_at(s, i, embed_prefix()) {
        assert(s.subrange(i, i + 18)[5] == 'b' && s.subrange(i, i + 18)[12] == 'e');
        assert(s[i + 5] == 'b' && s[i + 12] == 'e');
    }
    if lit_at(s, i, v_prefix()) {
        assert(s.subrange(i, i + 14)[5] == 'b' && s.subrange(i, i + 14)[12] == 'v');
        assert(s[i + 5] == 'b' && s[i + 12] == 'v');
    }
}

/// A prefix that occurs in `s` still occurs, at the same place, whatever is
/// appended to `s`.
proof fn lemma_lit_at_append(s: Seq<char>, rest: Seq<char>, i: int, lit: Seq<char>)
    ensures
        lit_at(s, i, lit) ==> lit_at(s + rest, i, lit),
        id_run_at(s, i) ==> id_run_at(s + rest, i),
{
    if lit_at(s, i, lit) {
        assert((s + rest).subrange(i, i + lit.len()) =~= s.subrange(i, i + lit.len()));
    }
    if id_run_at(s, i) {
        assert forall|k: int| i <= k < i + 11 implies #[trigger] is_id_char((s + rest)[k]) by {
            assert((s + rest)[k] == s[k]);
            assert(is_id_char(s[k]));
        }
    }
}

/// A match depends on nothing after the id: where a grammar matches `s` at
/// `i`, it matches `s` followed by anything at `i`, capturing the same id.
pub proof fn law_match_ignores_what_follows(
    s: Seq<char>,
    rest: Seq<char>,
    pattern: UrlPattern,
    i: int,
)
    requires
        capture_at(s, pattern, i) is Some,
    ensures
        capture_at(s + rest, pattern, i) == capture_at(s, pattern, i),
{
    let t = s + rest;
    lemma_standard_prefixes_exclusive(s, i);
    lemma_standard_prefixes_exclusive(t, i);
    lemma_lit_at_append(s, rest, i, watch_prefix());
    lemma_lit_at_append(s, rest, i, short_link_prefix());
    lemma_lit_at_append(s, rest, i, embed_prefix());
    lemma_lit_at_append(s, rest, i, v_prefix());
    lemma_lit_at_append(s, rest, i, shorts_prefix());
    lemma_lit_at_append(s, rest, i + watch_prefix().len(), watch_prefix());
    lemma_lit_at_append(s, rest, i + short_link_prefix().len(), watch_prefix());
    lemma_lit_at_append(s, rest, i + embed_prefix().len(), watch_prefix());
    lemma_lit_at_append(s, rest, i + v_prefix().len(), watch_prefix());
    lemma_lit_at_append(s, rest, i + shorts_prefix().len(), watch_prefix());
}

/// A match depends on nothing before it: a grammar matches `s` at `i`
/// exactly when it matches `pre` followed by `s` at `i` shifted by `pre`'s
/// length, capturing the same id there.
pub proof fn law_match_ignores_what_precedes(
    pre: Seq<char>,
    s: Seq<char>,
    pattern: UrlPattern,
    i: int,
)
    requires
        0 <= i,
    ensures
        capture_at(pre + s, pattern, pre.len() + i) == match capture_at(s, pattern, i) {
            Some(c) => Some(pre.len() + c),
            None => None,
        },
{
    let t = pre + s;
    let n = pre.len() as int;
    assert forall|lit: Seq<char>| #[trigger] lit_at(t, n + i, lit) == lit_at(s, i, lit) by {
        if i + lit.len() <= s.len() {
            assert(t.subrange(n + i, n + i + lit.len()) =~= s.subrange(i, i + lit.len()));
        }
    }
    assert forall|j: int| 0 <= j implies #[trigger] id_run_at(t, n + j) == id_run_at(s, j) by {
        if j + 11 <= s.len() {
            assert forall|k: int| j <= k < j + 11 implies t[n + k] == s[k] by {}
            if id_run_at(s, j) {
                assert forall|k: int| n + j <= k < n + j + 11 implies #[trigger] is_id_char(
                    t[k],
                ) by {
                    assert(t[k] == s[k - n]);
                    assert(is_id_char(s[k - n]));
                }
            }
            if id_run_at(t, n + j) {
                assert forall|k: int| j <= k < j + 11 implies #[trigger] is_id_char(s[k]) by {
                    assert(t[n + k] == s[k]);
                    assert(is_id_char(t[n + k]));
                }
            }
        }
    }
    let lens = seq![
        watch_prefix().len() as int,
        short_link_prefix().len() as int,
        embed_prefix().len() as int,
        v_prefix().len() as int,
        shorts_prefix().len() as int,
    ];
    assert forall|m: int| 0 <= m < 5 implies id_run_at(t, n + (i + #[trigger] lens[m]))
        == id_run_at(s, i + lens[m]) by {
        let j = i + lens[m];
        assert(id_run_at(t, n + j) == id_run_at(s, j));
    }
    assert(id_run_at(t, n + (i + lens[0])) == id_run_at(s, i + lens[0]));
    assert(id_run_at(t, n + (i + lens[1])) == id_run_at(s, i + lens[1]));
    assert(id_run_at(t, n + (i + lens[2])) == id_run_at(s, i + lens[2]));
    assert(id_run_at(t, n + (i + lens[3])) == id_run_at(s, i + lens[3]));
    assert(id_run_at(t, n + (i + lens[4])) == id_run_at(s, i + lens[4]));
    assert(n + i + watch_prefix().len() == n + (i + lens[0]));
    assert(n + i + short_link_prefix().len() == n + (i + lens[1]));
}

/// A `https://www.youtube.com/shorts/ID` URL yields `ID` whatever follows the
/// id, unless a standard form occurs in the URL (it takes precedence).
pub proof fn law_shorts_url_with_suffix(id: Seq<char>, rest: Seq<char>)
    requires
        is_video_id(id),
        !has_match("https://www.youtube.com/shorts/"@ + id + rest, UrlPattern::Standard),
    ensures
        video_id_of("https://www.youtube.com/shorts/"@ + id + rest) == Some(id),
{
    reveal_strlit("https://www.youtube.com/shorts/");
    reveal_strlit("youtube.com/shorts/");
    let lead = "https://www.youtube.com/shorts/"@;
    let s = lead + id + rest;
    lemma_id_run_after(lead, id, rest);
    assert(s.subrange(12, 31) =~= shorts_prefix());
    assert(capture_at(s, UrlPattern::Shorts, 12) == Some(31int));
    assert forall|j: int| 0 <= j < 12 implies #[trigger] capture_at(s, UrlPattern::Shorts, j)
        is None by {
        lemma_match_starts_with_y(s, UrlPattern::Shorts, j);
    }
    assert(is_first_match(s, UrlPattern::Shorts, 12));
    lemma_first_capture_at(s, UrlPattern::Shorts, 12);
    law_capture_iff_match(s, UrlPattern::Standard);
}

} // verus!
