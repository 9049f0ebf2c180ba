//! The calls into other crates and into the parts of the standard library that
//! carry no contract of their own. What is stated here is believed, not proved.

use crate::json::{Json, JsonMember, JsonView};
use crate::models::build_job::Timestamp;
use crate::text;
use vstd::prelude::*;
use vstd::string::*;
use vstd::utf8;

verus! {

/// `serde_json::Value`, carried from the parser to its conversion.
#[verifier::external_type_specification]
#[verifier::external_body]
pub struct ExValue(serde_json::Value);

/// What a parsed JSON value holds.
pub uninterp spec fn value_contents(value: serde_json::Value) -> JsonView;

/// What `serde_json` reads in a text: a value, or the text of its error.
pub uninterp spec fn parsed_json(text: Seq<char>) -> Result<JsonView, Seq<char>>;

/// How `serde_json` writes a value in one line.
pub uninterp spec fn json_line(value: JsonView) -> Seq<char>;

/// Calls `serde_json::from_str`: the outcome, value or error text, depends on
/// the text alone.
#[verifier::external_body]
pub(crate) fn parse_value(text: &str) -> (r: Result<serde_json::Value, String>)
    ensures
        parsed_json(text@) == match r {
            Ok(value) => Ok::<JsonView, Seq<char>>(value_contents(value)),
            Err(e) => Err::<JsonView, Seq<char>>(e@),
        },
{
    serde_json::from_str::<serde_json::Value>(text).map_err(|error| error.to_string())
}

/// Takes a `serde_json::Value` apart: the same value, variant for variant, with
/// the members of an object in the order in which the value holds them.
#[verifier::external_body]
pub(crate) fn json_of_value(value: serde_json::Value) -> (r: Json)
    ensures
        r@ == value_contents(value),
{
    match value {
        serde_json::Value::Null => Json::Null,
        serde_json::Value::Bool(b) => Json::Bool(b),
        serde_json::Value::Number(n) => Json::Number(n.to_string()),
        serde_json::Value::String(s) => Json::Text(s),
        serde_json::Value::Array(items) => Json::Array(items.into_iter().map(json_of_value).collect()),
        serde_json::Value::Object(members) => Json::Object(
            members.into_iter().map(|(key, value)| JsonMember { key, value: json_of_value(value) }).collect(),
        ),
    }
}

/// Calls `serde_json::Value::to_string`: the line depends on what the value
/// holds alone.
#[verifier::external_body]
pub(crate) fn value_line(value: &serde_json::Value) -> (r: String)
    ensures
        r@ == json_line(value_contents(*value)),
{
    value.to_string()
}

/// The small hexadecimal digit of a number below sixteen.
pub open spec fn hex_digit(d: nat) -> char {
    if d < 10 {
        (('0' as u8 + d) as u8) as char
    } else {
        (('a' as u8 + (d - 10)) as u8) as char
    }
}

/// The last `n` hexadecimal digits of a number.
pub open spec fn hex_digits(id: nat, n: nat) -> Seq<char>
    decreases n,
{
    if n == 0 {
        Seq::<char>::empty()
    } else {
        hex_digits(id / 16, (n - 1) as nat).push(hex_digit(id % 16))
    }
}

/// An identifier as text: thirty-two small hexadecimal digits in groups of
/// eight, four, four, four and twelve with hyphens between them.
pub open spec fn uuid_text(id: u128) -> Seq<char> {
    let h = hex_digits(id as nat, 32);
    h.subrange(0, 8).push('-') + h.subrange(8, 12).push('-') + h.subrange(12, 16).push('-')
        + h.subrange(16, 20).push('-') + h.subrange(20, 32)
}

/// Calls `uuid::Uuid::to_string`, which writes the hyphenated form in small
/// letters.
#[verifier::external_body]
pub(crate) fn uuid_string(id: u128) -> (r: String)
    ensures
        r@ == uuid_text(id),
{
    uuid::Uuid::from_u128(id).to_string()
}

/// Calls `uuid::Uuid::new_v4`: a random identifier, of which only the version
/// and variant bits are fixed.
#[verifier::external_body]
pub(crate) fn new_uuid() -> (r: u128)
    ensures
        (r >> 76) & 0xf == 4,
        (r >> 62) & 0x3 == 2,
{
    uuid::Uuid::new_v4().as_u128()
}

/// Calls `chrono::Utc::now`: the time on the machine's clock, whose nanoseconds
/// run up to two seconds in a leap second.
#[verifier::external_body]
pub(crate) fn utc_now() -> (r: Timestamp)
    ensures
        r.nanos < 2_000_000_000,
{
    let now = chrono::Utc::now();
    Timestamp { seconds: now.timestamp(), nanos: now.timestamp_subsec_nanos() }
}

/// The capital hexadecimal digit of a number below sixteen.
pub open spec fn upper_hex_digit(d: int) -> char {
    if d < 10 {
        (('0' as u8 + d) as u8) as char
    } else {
        (('A' as u8 + (d - 10)) as u8) as char
    }
}

/// The bytes that stand for themselves in percent-encoded text.
pub open spec fn is_unreserved(b: u8) -> bool {
    ||| '0' as u8 <= b <= '9' as u8
    ||| 'A' as u8 <= b <= 'Z' as u8
    ||| 'a' as u8 <= b <= 'z' as u8
    ||| b == '-' as u8
    ||| b == '.' as u8
    ||| b == '_' as u8
    ||| b == '~' as u8
}

/// Bytes as text: those that pass the test stand for themselves, and each other
/// one is a percent sign and two capital hexadecimal digits.
pub open spec fn escaped(bytes: Seq<u8>, stays: spec_fn(u8) -> bool) -> Seq<char>
    decreases bytes.len(),
{
    if bytes.len() == 0 {
        Seq::<char>::empty()
    } else {
        let b = bytes.last();
        let front = escaped(bytes.drop_last(), stays);
        if stays(b) {
            front.push(b as char)
        } else {
            front.push('%').push(upper_hex_digit(b as int / 16)).push(
                upper_hex_digit(b as int % 16),
            )
        }
    }
}

pub open spec fn unreserved_test() -> spec_fn(u8) -> bool {
    |b: u8| is_unreserved(b)
}

/// Bytes, percent-encoded.
pub open spec fn percent_encoded(bytes: Seq<u8>) -> Seq<char> {
    escaped(bytes, unreserved_test())
}

/// Calls `urlencoding::encode`, which percent-encodes every byte of the text
/// except letters, digits, `-`, `.`, `_` and `~`.
#[verifier::external_body]
pub(crate) fn url_encode(text: &str) -> (r: String)
    ensures
        r@ == percent_encoded(utf8::encode_utf8(text@)),
{
    urlencoding::encode(text).into_owned()
}

/// Calls `String::from_utf8`, which accepts exactly the valid UTF-8.
#[verifier::external_body]
pub(crate) fn utf8_string(bytes: Vec<u8>) -> (r: Option<String>)
    ensures
        match r {
            Some(s) => utf8::valid_utf8(bytes@) && s@ == utf8::decode_utf8(bytes@),
            None => !utf8::valid_utf8(bytes@),
        },
{
    String::from_utf8(bytes).ok()
}

/// The number that `uuid` derives from bytes within a namespace.
pub uninterp spec fn name_digest(namespace: u128, bytes: Seq<u8>) -> u128;

/// Calls `uuid::Uuid::new_v5`: an identifier computed with SHA-1 from the
/// namespace and the bytes, and from nothing else.
#[verifier::external_body]
pub(crate) fn name_uuid(namespace: u128, bytes: &Vec<u8>) -> (r: u128)
    ensures
        r == name_digest(namespace, bytes@),
{
    uuid::Uuid::new_v5(&uuid::Uuid::from_u128(namespace), bytes).as_u128()
}

/// Why no address could be made.
pub enum UrlFailure {
    /// The base is no URL.
    Invalid(String),
    /// The base cannot have a path.
    NoPath,
}

/// The address of the Cloud Build API.
pub open spec fn cloud_build_base() -> Seq<char> {
    "https://cloudbuild.googleapis.com/"@
}

/// The characters that do not count in an address: tabs and line breaks.
pub open spec fn is_dropped(c: char) -> bool {
    c == '\t' || c == '\n' || c == '\r'
}

pub open spec fn counts_test() -> spec_fn(char) -> bool {
    |c: char| !is_dropped(c)
}

/// A text without the characters that do not count in an address.
pub open spec fn counted(s: Seq<char>) -> Seq<char> {
    s.filter(counts_test())
}

/// The bytes that stand for themselves in a path segment.
pub open spec fn stays_in_path(b: u8) -> bool {
    &&& 0x20 < b < 0x7f
    &&& b != '"' as u8
    &&& b != '#' as u8
    &&& b != '%' as u8
    &&& b != '/' as u8
    &&& b != '<' as u8
    &&& b != '>' as u8
    &&& b != '?' as u8
    &&& b != '\\' as u8
    &&& b != '`' as u8
    &&& b != '{' as u8
    &&& b != '}' as u8
}

pub open spec fn path_test() -> spec_fn(u8) -> bool {
    |b: u8| stays_in_path(b)
}

/// A path segment as it stands in an address.
pub open spec fn segment_text(s: Seq<char>) -> Seq<char> {
    escaped(utf8::encode_utf8(counted(s)), path_test())
}

/// Path segments as they stand in an address.
pub open spec fn segment_texts(segments: Seq<Seq<char>>) -> Seq<Seq<char>> {
    segments.map_values(|s: Seq<char>| segment_text(s))
}

/// Path segments with slashes between them, as they stand in an address.
pub open spec fn path_text(segments: Seq<Seq<char>>) -> Seq<char> {
    text::join(segment_texts(segments), '/')
}

/// The segments that do not name anything: `.` and `..`.
pub open spec fn is_dots(s: Seq<char>) -> bool {
    s == seq!['.'] || s == seq!['.', '.']
}

/// Whether every segment stays a segment of its own: none is `.` or `..`, and the
/// first is not empty.
pub open spec fn addressable(segments: Seq<Seq<char>>) -> bool {
    &&& segments.len() > 0
    &&& counted(segments[0]).len() > 0
    &&& forall|i: int| 0 <= i < segments.len() ==> !is_dots(counted(#[trigger] segments[i]))
}

/// Whether an address with these segments has a length that a URL can have.
pub open spec fn fits_url(segments: Seq<Seq<char>>) -> bool {
    cloud_build_base().len() + path_text(segments).len() <= u32::MAX
}

/// The bytes that stand for themselves in a query.
pub open spec fn stays_in_query(b: u8) -> bool {
    ||| '0' as u8 <= b <= '9' as u8
    ||| 'A' as u8 <= b <= 'Z' as u8
    ||| 'a' as u8 <= b <= 'z' as u8
    ||| b == '*' as u8
    ||| b == '-' as u8
    ||| b == '.' as u8
    ||| b == '_' as u8
}

pub open spec fn query_test() -> spec_fn(u8) -> bool {
    |b: u8| stays_in_query(b)
}

/// Bytes as they stand in a query: escaped, but a space is a plus sign.
pub open spec fn form_text(bytes: Seq<u8>) -> Seq<char>
    decreases bytes.len(),
{
    if bytes.len() == 0 {
        Seq::<char>::empty()
    } else if bytes.last() == ' ' as u8 {
        form_text(bytes.drop_last()).push('+')
    } else {
        form_text(bytes.drop_last()) + escaped(seq![bytes.last()], query_test())
    }
}

/// A name and a value as they stand in a query.
pub open spec fn pair_text(pair: (Seq<char>, Seq<char>)) -> Seq<char> {
    form_text(utf8::encode_utf8(pair.0)).push('=') + form_text(utf8::encode_utf8(pair.1))
}

/// Query pairs as text, with `&` between them.
pub open spec fn query_text(pairs: Seq<(Seq<char>, Seq<char>)>) -> Seq<char> {
    text::join(pairs.map_values(|p: (Seq<char>, Seq<char>)| pair_text(p)), '&')
}

/// The names and values of query pairs as texts.
pub open spec fn pair_texts(pairs: Seq<(String, String)>) -> Seq<(Seq<char>, Seq<char>)> {
    pairs.map_values(|p: (String, String)| (p.0@, p.1@))
}

/// The address that `url` makes of a base and path segments.
pub uninterp spec fn url_of_path(base: Seq<char>, segments: Seq<Seq<char>>) -> Seq<char>;

/// Calls `reqwest::Url::parse` and `PathSegmentsMut::extend`, for the base of the
/// Cloud Build API. An address comes out that depends on the texts alone and
/// begins with the base. Where every segment stays a segment of its own, the
/// segments follow it with slashes between them, without tabs and line breaks
/// and with the bytes escaped that may not stand in a segment. What a segment
/// that comes to `.` or `..`, or an empty first one, does to the others is not
/// stated. The crate panics where base and path have more than `u32::MAX` bytes,
/// so these are left out.
#[verifier::external_body]
pub(crate) fn path_url(base: &str, segments: &Vec<String>) -> (r: Result<String, UrlFailure>)
    requires
        base@ == cloud_build_base(),
        fits_url(text::texts(segments@)),
    ensures
        r is Ok,
        r->Ok_0@ == url_of_path(base@, text::texts(segments@)),
        base@.is_prefix_of(r->Ok_0@),
        addressable(text::texts(segments@)) ==> r->Ok_0@ == base@ + path_text(
            text::texts(segments@),
        ),
{
    let mut url = reqwest::Url::parse(base).map_err(|error| UrlFailure::Invalid(error.to_string()))?;
    url.path_segments_mut().map_err(|_| UrlFailure::NoPath)?.extend(segments);
    Ok(url.to_string())
}

/// Calls `reqwest::Url::parse`, `PathSegmentsMut::extend` and
/// `Serializer::extend_pairs`, for the base of the Cloud Build API. The address
/// is that of base and segments, then `?` and the pairs, in which a space is a
/// plus sign and the bytes are escaped that may not stand in a query. Of base
/// and segments the same is said as for a path alone.
#[verifier::external_body]
pub(crate) fn query_url(base: &str, segments: &Vec<String>, pairs: &Vec<(String, String)>) -> (r:
    Result<String, UrlFailure>)
    requires
        base@ == cloud_build_base(),
        fits_url(text::texts(segments@)),
    ensures
        r is Ok,
        r->Ok_0@ == url_of_path(base@, text::texts(segments@)).push('?') + query_text(
            pair_texts(pairs@),
        ),
        base@.is_prefix_of(r->Ok_0@),
        addressable(text::texts(segments@)) ==> r->Ok_0@ == (base@ + path_text(
            text::texts(segments@),
        )).push('?') + query_text(pair_texts(pairs@)),
{
    let mut url = reqwest::Url::parse(base).map_err(|error| UrlFailure::Invalid(error.to_string()))?;
    url.path_segments_mut().map_err(|_| UrlFailure::NoPath)?.extend(segments);
    url.query_pairs_mut().extend_pairs(pairs);
    Ok(url.to_string())
}

/// What `String::from_utf8_lossy` makes of bytes.
pub uninterp spec fn lossy_text(bytes: Seq<u8>) -> Seq<char>;

/// Calls `String::from_utf8_lossy`, which keeps valid UTF-8 as it is; how other
/// bytes are replaced is not stated.
#[verifier::external_body]
pub(crate) fn lossy_string(bytes: &Vec<u8>) -> (r: String)
    ensures
        r@ == lossy_text(bytes@),
        utf8::valid_utf8(bytes@) ==> r@ == utf8::decode_utf8(bytes@),
{
    String::from_utf8_lossy(bytes).into_owned()
}

} // verus!
