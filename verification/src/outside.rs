//! The calls that the library makes into std and into outside crates, each
//! behind a small trusted wrapper whose contract says what the documentation
//! or the source of the called function shows.
use vstd::prelude::*;

verus! {

/// What `serde_json::from_str::<serde_json::Value>` makes of a text, reduced
/// to what the metadata logic reads: on success the values of the root
/// object's keys `title`, `uploader`, `channel` and `thumbnail`, each where it
/// is a JSON string; on failure the `Display` text of the error.
pub uninterp spec fn yt_dlp_json_fields(text: Seq<char>) -> Result<
    (Option<Seq<char>>, Option<Seq<char>>, Option<Seq<char>>, Option<Seq<char>>),
    Seq<char>,
>;

/// What `String::from_utf8_lossy` makes of a byte sequence.
pub uninterp spec fn utf8_lossy(bytes: Seq<u8>) -> Seq<char>;

/// Whether `char::is_alphanumeric` holds of a character.
pub uninterp spec fn is_alphanumeric_char(c: char) -> bool;

/// The four string fields that the metadata logic reads from yt-dlp's JSON.
#[derive(Debug, Clone)]
pub struct JsonStringFields {
    pub title: Option<String>,
    pub uploader: Option<String>,
    pub channel: Option<String>,
    pub thumbnail: Option<String>,
}

pub open spec fn opt_string_view(o: Option<String>) -> Option<Seq<char>> {
    match o {
        Some(s) => Some(s@),
        None => None,
    }
}

impl JsonStringFields {
    pub open spec fn view(&self) -> (
        Option<Seq<char>>,
        Option<Seq<char>>,
        Option<Seq<char>>,
        Option<Seq<char>>,
    ) {
        (
            opt_string_view(self.title),
            opt_string_view(self.uploader),
            opt_string_view(self.channel),
            opt_string_view(self.thumbnail),
        )
    }
}

/// Parses `text` with `serde_json::from_str` into a `serde_json::Value` and
/// reads `value[key].as_str()` for the four keys; an error becomes its
/// `Display` text. The contract claims only that the result is the named
/// function of the text.
#[verifier::external_body]
pub(crate) fn parse_json_string_fields(text: &str) -> (r: Result<JsonStringFields, String>)
    ensures
        match r {
            Ok(f) => yt_dlp_json_fields(text@) == Ok::<_, Seq<char>>(f.view()),
            Err(e) => yt_dlp_json_fields(text@) == Err::<
                (Option<Seq<char>>, Option<Seq<char>>, Option<Seq<char>>, Option<Seq<char>>),
                Seq<char>,
            >(e@),
        },
{
    match serde_json::from_str::<serde_json::Value>(text) {
        Ok(v) => Ok(JsonStringFields {
            title: v["title"].as_str().map(String::from),
            uploader: v["uploader"].as_str().map(String::from),
            channel: v["channel"].as_str().map(String::from),
            thumbnail: v["thumbnail"].as_str().map(String::from),
        }),
        Err(e) => Err(e.to_string()),
    }
}

/// `String::from_utf8_lossy(bytes)`, owned. Its documentation says that valid
/// UTF-8 comes back unchanged; the replacement of invalid sequences is left
/// to the name.
#[verifier::external_body]
pub(crate) fn lossy_utf8(bytes: &[u8]) -> (r: String)
    ensures
        r@ == utf8_lossy(bytes@),
        vstd::utf8::valid_utf8(bytes@) ==> r@ == vstd::utf8::decode_utf8(bytes@),
{
    String::from_utf8_lossy(bytes).into_owned()
}

/// An ASCII letter or decimal digit: `[A-Za-z0-9]`.
pub open spec fn is_ascii_alphanumeric(c: char) -> bool {
    ('a' <= c && c <= 'z') || ('A' <= c && c <= 'Z') || ('0' <= c && c <= '9')
}

/// `char::is_alphanumeric`: whether the character is Unicode alphabetic or
/// numeric. Among ASCII characters these are exactly the letters and the
/// decimal digits, which the contract states; which other characters count is
/// left to the name.
#[verifier::external_body]
pub(crate) fn char_is_alphanumeric(c: char) -> (b: bool)
    ensures
        b == is_alphanumeric_char(c),
        (c as u32) < 128 ==> (b == is_ascii_alphanumeric(c)),
{
    c.is_alphanumeric()
}

/// A lower-case hexadecimal digit.
pub open spec fn is_lower_hex(c: char) -> bool {
    ('0' <= c && c <= '9') || ('a' <= c && c <= 'f')
}

/// The hyphenated form of a UUID: 36 characters, `-` at 8, 13, 18 and 23,
/// lower-case hexadecimal digits elsewhere.
pub open spec fn is_hyphenated_uuid(s: Seq<char>) -> bool {
    &&& s.len() == 36
    &&& forall|k: int|
        0 <= k < 36 ==> if k == 8 || k == 13 || k == 18 || k == 23 {
            s[k] == '-'
        } else {
            #[trigger] is_lower_hex(s[k])
        }
}

/// A version 4 (random) UUID in hyphenated form: the version digit `4` at
/// index 14 and one of the variant digits `8`, `9`, `a`, `b` at index 19.
pub open spec fn is_v4_uuid(s: Seq<char>) -> bool {
    &&& is_hyphenated_uuid(s)
    &&& s[14] == '4'
    &&& (s[19] == '8' || s[19] == '9' || s[19] == 'a' || s[19] == 'b')
}

/// `uuid::Uuid::new_v4().to_string()`: a random UUID. The crate masks in the
/// version and variant bits and its `Display` writes the hyphenated
/// lower-case form; which random digits come out is not claimed.
#[verifier::external_body]
pub(crate) fn new_uuid_string() -> (r: String)
    ensures
        is_v4_uuid(r@),
{
    uuid::Uuid::new_v4().to_string()
}

/// The text ends in the UTC offset `+00:00`.
pub open spec fn ends_with_utc_offset(s: Seq<char>) -> bool {
    s.len() >= 6 && s.subrange(s.len() - 6, s.len() as int) == "+00:00"@
}

pub open spec fn is_ascii_digit(c: char) -> bool {
    '0' <= c && c <= '9'
}

/// Every character of `s` is a decimal digit.
pub open spec fn only_digits(s: Seq<char>) -> bool {
    forall|k: int| 0 <= k < s.len() ==> #[trigger] is_ascii_digit(s[k])
}

/// A year as RFC 3339 text: four digits, or a sign and at least four digits.
pub open spec fn is_rfc3339_year(y: Seq<char>) -> bool {
    ||| y.len() == 4 && only_digits(y)
    ||| y.len() >= 5 && (y[0] == '+' || y[0] == '-') && only_digits(y.drop_first())
}

/// `-MM-DDTHH:MM:SS`: the rest of the date and the time, two digits each.
pub open spec fn is_rfc3339_date_rest_and_time(c: Seq<char>) -> bool {
    &&& c.len() == 15
    &&& c[0] == '-' && c[3] == '-' && c[6] == 'T' && c[9] == ':' && c[12] == ':'
    &&& is_ascii_digit(c[1]) && is_ascii_digit(c[2])
    &&& is_ascii_digit(c[4]) && is_ascii_digit(c[5])
    &&& is_ascii_digit(c[7]) && is_ascii_digit(c[8])
    &&& is_ascii_digit(c[10]) && is_ascii_digit(c[11])
    &&& is_ascii_digit(c[13]) && is_ascii_digit(c[14])
}

/// Fractional seconds: none, or `.` and three, six or nine digits.
pub open spec fn is_rfc3339_fraction(f: Seq<char>) -> bool {
    ||| f.len() == 0
    ||| (f.len() == 4 || f.len() == 7 || f.len() == 10) && f[0] == '.' && only_digits(
        f.drop_first(),
    )
}

/// `{year}-MM-DDTHH:MM:SS[.fraction]+00:00`: an RFC 3339 UTC time as chrono
/// writes it.
pub open spec fn is_utc_rfc3339(s: Seq<char>) -> bool {
    &&& ends_with_utc_offset(s)
    &&& exists|yl: int|
        #![trigger is_rfc3339_year(s.take(yl))]
        4 <= yl && yl + 15 + 6 <= s.len() && is_rfc3339_year(s.take(yl))
            && is_rfc3339_date_rest_and_time(s.subrange(yl, yl + 15)) && is_rfc3339_fraction(
            s.subrange(yl + 15, s.len() - 6),
        )
}

/// `chrono::Utc::now().to_rfc3339()`: the current time as RFC 3339 text. The
/// contract states the shape that chrono's `write_rfc3339` gives every time
/// with offset zero (two digits per field, fractional seconds as chosen by
/// `SecondsFormat::AutoSi`, offset written `+00:00`); the digits depend on
/// the clock and are not claimed.
#[verifier::external_body]
pub(crate) fn now_rfc3339() -> (r: String)
    ensures
        is_utc_rfc3339(r@),
{
    chrono::Utc::now().to_rfc3339()
}

} // verus!
