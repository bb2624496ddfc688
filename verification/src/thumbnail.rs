//! Choosing the thumbnail of a video.
//!
//! YouTube serves `maxresdefault.jpg` for every video, but for videos without
//! a high resolution thumbnail it is a small placeholder image. The size that
//! a HEAD request reports for it (its `content-length` header) tells the two
//! apart: above [`PLACEHOLDER_MAX_SIZE`] bytes it is a real thumbnail, else the
//! `hqdefault.jpg` thumbnail is used.
use vstd::prelude::*;

verus! {

/// Largest size, in bytes, of the placeholder served for missing thumbnails.
pub const PLACEHOLDER_MAX_SIZE: u64 = 5000;

pub open spec fn thumbnail_base() -> Seq<char> {
    "https://i.ytimg.com/vi/"@
}

/// `https://i.ytimg.com/vi/{id}/maxresdefault.jpg`
pub open spec fn maxres_url_of(video_id: Seq<char>) -> Seq<char> {
    thumbnail_base() + video_id + "/maxresdefault.jpg"@
}

/// `https://i.ytimg.com/vi/{id}/hqdefault.jpg`
pub open spec fn hq_url_of(video_id: Seq<char>) -> Seq<char> {
    thumbnail_base() + video_id + "/hqdefault.jpg"@
}

pub open spec fn is_digit(c: char) -> bool {
    '0' <= c && c <= '9'
}

/// The number that a sequence of decimal digits denotes.
pub open spec fn digits_value(d: Seq<char>) -> int
    decreases d.len(),
{
    if d.len() == 0 {
        0
    } else {
        digits_value(d.drop_last()) * 10 + (d.last() as int - '0' as int)
    }
}

/// All characters of `d` are decimal digits.
pub open spec fn all_digits(d: Seq<char>) -> bool {
    forall|k: int| 0 <= k < d.len() ==> #[trigger] is_digit(d[k])
}

/// The digits of an unsigned decimal number: the text without one leading `+`.
pub open spec fn unsigned_digits(s: Seq<char>) -> Seq<char> {
    if s.len() > 0 && s[0] == '+' {
        s.drop_first()
    } else {
        s
    }
}

/// The `u64` that `s` denotes as an unsigned decimal number: an optional `+`
/// followed by at least one digit, with a value that fits in a `u64`.
pub open spec fn decimal_u64(s: Seq<char>) -> Option<u64> {
    let d = unsigned_digits(s);
    if d.len() > 0 && all_digits(d) && digits_value(d) <= u64::MAX {
        Some(digits_value(d) as u64)
    } else {
        None
    }
}

/// The maxres thumbnail is real: its reported size parses and exceeds the
/// placeholder's size.
pub open spec fn maxres_is_real(content_length: Option<Seq<char>>) -> bool {
    match content_length {
        Some(h) => match decimal_u64(h) {
            Some(n) => n > PLACEHOLDER_MAX_SIZE,
            None => false,
        },
        None => false,
    }
}

/// The thumbnail URL chosen for `video_id` given the maxres probe's result.
pub open spec fn best_thumbnail_of(video_id: Seq<char>, content_length: Option<Seq<char>>) -> Seq<
    char,
> {
    if maxres_is_real(content_length) {
        maxres_url_of(video_id)
    } else {
        hq_url_of(video_id)
    }
}

proof fn lemma_digits_value_nonneg(d: Seq<char>)
    requires
        all_digits(d),
    ensures
        digits_value(d) >= 0,
    decreases d.len(),
{
    if d.len() > 0 {
        assert(is_digit(d[d.len() - 1]));
        lemma_digits_value_nonneg(d.drop_last());
    }
}

/// Appending digits never makes the value smaller.
proof fn lemma_digits_value_prefix(d: Seq<char>, k: int)
    requires
        all_digits(d),
        0 <= k <= d.len(),
    ensures
        digits_value(d.take(k)) <= digits_value(d),
    decreases d.len(),
{
    if k < d.len() {
        assert(d.drop_last().take(k) =~= d.take(k));
        lemma_digits_value_prefix(d.drop_last(), k);
        lemma_digits_value_nonneg(d.drop_last());
        assert(is_digit(d[d.len() - 1]));
    } else {
        assert(d.take(k) =~= d);
    }
}

/// Parse an unsigned decimal number the way `u64`'s `FromStr` does.
pub fn parse_decimal_u64(s: &str) -> (r: Option<u64>)
    ensures
        r == decimal_u64(s@),
{
    let n = s.unicode_len();
    let mut start: usize = 0;
    if n > 0 && s.get_char(0) == '+' {
        start = 1;
    }
    let ghost d = unsigned_digits(s@);
    assert(d =~= s@.skip(start as int));
    if start >= n {
        return None;
    }
    let mut acc: u64 = 0;
    let mut i: usize = start;
    while i < n
        invariant
            n == s@.len(),
            start <= i <= n,
            d =~= s@.skip(start as int),
            d == unsigned_digits(s@),
            d.len() == n - start,
            d.len() > 0,
            all_digits(d.take(i - start)),
            acc as int == digits_value(d.take(i - start)),
        decreases n - i,
    {
        let ghost k = i - start;
        let c = s.get_char(i);
        assert(d[k] == c);
        if !('0' <= c && c <= '9') {
            assert(!is_digit(d[k]));
            return None;
        }
        assert(d.take(k + 1).drop_last() =~= d.take(k));
        assert(d.take(k + 1).last() == c);
        let digit = (c as u32 - '0' as u32) as u64;
        match acc.checked_mul(10) {
            Some(m) => match m.checked_add(digit) {
                Some(v) => {
                    acc = v;
                },
                None => {
                    proof {
                        lemma_overflow_means_none(d, k + 1);
                    }
                    return None;
                },
            },
            None => {
                proof {
                    lemma_digits_value_nonneg(d.take(k));
                    lemma_overflow_means_none(d, k + 1);
                }
                return None;
            },
        }
        proof {
            assert forall|m: int| 0 <= m < k + 1 implies #[trigger] is_digit(d.take(k + 1)[m]) by {
                if m < k {
                    assert(d.take(k + 1)[m] == d.take(k)[m]);
                }
            }
        }
        i = i + 1;
    }
    assert(d.take(d.len() as int) =~= d);
    Some(acc)
}

/// Once a prefix of the digits exceeds `u64::MAX`, the text denotes no `u64`.
proof fn lemma_overflow_means_none(d: Seq<char>, k: int)
    requires
        0 < k <= d.len(),
        digits_value(d.take(k)) > u64::MAX,
    ensures
        !(all_digits(d) && digits_value(d) <= u64::MAX),
{
    if all_digits(d) {
        lemma_digits_value_prefix(d, k);
    }
}

/// `https://i.ytimg.com/vi/{video_id}/maxresdefault.jpg`
pub fn maxres_thumbnail_url(video_id: &str) -> (r: String)
    ensures
        r@ == maxres_url_of(video_id@),
{
    let mut r = "https://i.ytimg.com/vi/".to_owned();
    r.append(video_id);
    r.append("/maxresdefault.jpg");
    r
}

/// `https://i.ytimg.com/vi/{video_id}/hqdefault.jpg`
pub fn hq_thumbnail_url(video_id: &str) -> (r: String)
    ensures
        r@ == hq_url_of(video_id@),
{
    let mut r = "https://i.ytimg.com/vi/".to_owned();
    r.append(video_id);
    r.append("/hqdefault.jpg");
    r
}

/// The thumbnail URL for `video_id`, given the `content-length` header that a
/// HEAD request for its maxres thumbnail returned (`None` when the request
/// failed or the header was missing or not visible ASCII).
pub fn best_thumbnail_url(video_id: &str, maxres_content_length: Option<&str>) -> (r: String)
    ensures
        r@ == best_thumbnail_of(
            video_id@,
            match maxres_content_length {
                Some(h) => Some(h@),
                None => None,
            },
        ),
{
    if let Some(h) = maxres_content_length {
        if let Some(size) = parse_decimal_u64(h) {
            if size > PLACEHOLDER_MAX_SIZE {
                return maxres_thumbnail_url(video_id);
            }
        }
    }
    hq_thumbnail_url(video_id)
}

/// The decimal digit for `d` (0 to 9).
pub open spec fn digit_char(d: int) -> char {
    if d == 0 {
        '0'
    } else if d == 1 {
        '1'
    } else if d == 2 {
        '2'
    } else if d == 3 {
        '3'
    } else if d == 4 {
        '4'
    } else if d == 5 {
        '5'
    } else if d == 6 {
        '6'
    } else if d == 7 {
        '7'
    } else if d == 8 {
        '8'
    } else {
        '9'
    }
}

/// `n` written in decimal, without leading zeros.
pub open spec fn decimal_text(n: nat) -> Seq<char>
    decreases n,
{
    if n < 10 {
        seq![digit_char(n as int)]
    } else {
        decimal_text(n / 10).push(digit_char((n % 10) as int))
    }
}

proof fn lemma_decimal_text_digits(n: nat)
    ensures
        decimal_text(n).len() > 0,
        decimal_text(n)[0] != '+',
        all_digits(decimal_text(n)),
        digits_value(decimal_text(n)) == n,
    decreases n,
{
    let d = if n < 10 {
        n as int
    } else {
        (n % 10) as int
    };
    assert(digit_char(d) as int - '0' as int == d);
    if n < 10 {
        let t = decimal_text(n);
        assert(t.drop_last() =~= Seq::<char>::empty());
        assert(digits_value(t) == digits_value(t.drop_last()) * 10 + (t.last() as int - '0' as int));
    } else {
        lemma_decimal_text_digits(n / 10);
        let t = decimal_text(n);
        assert(t.drop_last() =~= decimal_text(n / 10));
        assert(t.last() == digit_char(d));
        assert(digits_value(t) == digits_value(t.drop_last()) * 10 + (t.last() as int - '0' as int));
        assert(n == (n / 10) * 10 + n % 10) by (nonlinear_arith);
        assert forall|k: int| 0 <= k < t.len() implies #[trigger] is_digit(t[k]) by {
            if k < t.len() - 1 {
                assert(t[k] == decimal_text(n / 10)[k]);
            }
        }
    }
}

/// Every `u64`, written in decimal, with or without a leading `+`, parses
/// back to itself.
pub proof fn law_decimal_round_trip(n: u64)
    ensures
        decimal_u64(decimal_text(n as nat)) == Some(n),
        decimal_u64(seq!['+'] + decimal_text(n as nat)) == Some(n),
{
    lemma_decimal_text_digits(n as nat);
    assert((seq!['+'] + decimal_text(n as nat)).drop_first() =~= decimal_text(n as nat));
}

/// Text with any character other than the digits after an optional leading
/// `+`, or with no digits, parses to nothing.
pub proof fn law_decimal_rejects_non_digits(s: Seq<char>, k: int)
    requires
        0 <= k < s.len(),
        !is_digit(s[k]),
        !(k == 0 && s[k] == '+'),
    ensures
        decimal_u64(s) is None,
{
    let d = unsigned_digits(s);
    if s.len() > 0 && s[0] == '+' {
        assert(d[k - 1] == s[k]);
    } else {
        assert(d[k] == s[k]);
    }
}

/// The maxres thumbnail is chosen exactly when the probe's size text parses
/// as a number above 5000: for every such size, however large, the maxres
/// URL; for every other probe result, the hq URL.
pub proof fn law_thumbnail_choice(video_id: Seq<char>, content_length: Option<Seq<char>>)
    ensures
        (content_length matches Some(h) && (decimal_u64(h) matches Some(n) && n > 5000))
            ==> best_thumbnail_of(video_id, content_length) == "https://i.ytimg.com/vi/"@
            + video_id + "/maxresdefault.jpg"@,
        !(content_length matches Some(h) && (decimal_u64(h) matches Some(n) && n > 5000))
            ==> best_thumbnail_of(video_id, content_length) == "https://i.ytimg.com/vi/"@
            + video_id + "/hqdefault.jpg"@,
{
}

/// A larger reported size never turns the maxres choice into the hq one.
pub proof fn law_thumbnail_choice_monotone(video_id: Seq<char>, h1: Seq<char>, h2: Seq<char>)
    requires
        decimal_u64(h1) is Some,
        decimal_u64(h2) is Some,
        decimal_u64(h1)->0 <= decimal_u64(h2)->0,
        best_thumbnail_of(video_id, Some(h1)) == maxres_url_of(video_id),
    ensures
        best_thumbnail_of(video_id, Some(h2)) == maxres_url_of(video_id),
{
    law_thumbnail_choice(video_id, Some(h1));
    law_thumbnail_choice(video_id, Some(h2));
    reveal_strlit("/maxresdefault.jpg");
    reveal_strlit("/hqdefault.jpg");
    if !(decimal_u64(h1)->0 > 5000) {
        let a = thumbnail_base() + video_id + "/maxresdefault.jpg"@;
        let b = thumbnail_base() + video_id + "/hqdefault.jpg"@;
        assert(a.len() != b.len());
    }
}

/// Digits whose value exceeds `u64::MAX` parse to nothing.
pub proof fn law_decimal_rejects_overflow(s: Seq<char>)
    requires
        s.len() > 0,
        forall|k: int| 0 <= k < s.len() ==> '0' <= #[trigger] s[k] && s[k] <= '9',
        digits_value(s) > 18446744073709551615,
    ensures
        decimal_u64(s) is None,
{
}

} // verus!
