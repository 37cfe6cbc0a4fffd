//! The header fields that the engine adds to a response head before it is
//! committed: `Date`, and `Content-Length` where the body knows its length.

use vstd::prelude::*;

verus! {

/// `http::HeaderMap`, the header fields of a message.
#[verifier::external_type_specification]
#[verifier::external_body]
#[verifier::reject_recursive_types(T)]
pub struct ExHeaderMap<T>(http::HeaderMap<T>);

/// `http::HeaderValue`, the value of one header field.
#[verifier::external_type_specification]
#[verifier::external_body]
pub struct ExHeaderValue(http::HeaderValue);

/// What a header map holds: for each field name, in lower case, the values
/// stored under it, first to last.
pub uninterp spec fn header_fields(h: http::HeaderMap<http::HeaderValue>) -> Map<
    Seq<char>,
    Seq<Seq<u8>>,
>;

/// The bytes that a header value holds.
pub uninterp spec fn header_value_bytes(v: http::HeaderValue) -> Seq<u8>;

/// The IMF-fixdate text of the instant `secs` seconds after the Unix epoch.
pub uninterp spec fn imf_fixdate(secs: u64) -> Seq<u8>;

/// The first instant, in seconds after the Unix epoch, that has no
/// IMF-fixdate: the start of the year 10000.
pub const DATE_LIMIT: u64 = 253402300800;

/// The number of names from which on a header map may refuse a new one: a
/// map that holds fewer takes every field.
pub const HEADER_ROOM: usize = 6554;

/// Whether the fields take a value under `name`: the name is there
/// already, or the map holds fewer names than it may refuse at.
pub open spec fn accepts(fields: Map<Seq<char>, Seq<Seq<u8>>>, name: Seq<char>) -> bool {
    fields.contains_key(name) || (fields.dom().finite() && fields.dom().len() < HEADER_ROOM)
}

/// Field names that this module looks up and inserts: lower-case letters,
/// digits and hyphens, at most 64 of them.
pub open spec fn is_field_name(name: Seq<char>) -> bool {
    &&& 1 <= name.len() <= 64
    &&& forall|i: int|
        0 <= i < name.len() ==> {
            let c = #[trigger] name[i];
            ('a' <= c && c <= 'z') || ('0' <= c && c <= '9') || c == '-'
        }
}

/// Bytes that may stand in a field value: visible characters, space, tab and
/// the bytes above ASCII.
pub open spec fn is_field_value(value: Seq<u8>) -> bool {
    forall|i: int|
        0 <= i < value.len() ==> {
            let b = #[trigger] value[i];
            (b >= 32 && b != 127) || b == 9
        }
}

/// `httpdate::fmt_http_date` of the instant `secs` seconds after the epoch.
/// It formats 29 bytes of printable ASCII, the same for the same instant, and
/// panics from the year 10000 on, which `requires` excludes.
#[verifier::external_body]
fn format_http_date(secs: u64) -> (text: Vec<u8>)
    requires
        secs < DATE_LIMIT,
    ensures
        text@ == imf_fixdate(secs),
        text@.len() == 29,
        forall|i: int| 0 <= i < text@.len() ==> 32 <= #[trigger] text@[i] < 127,
{
    let at = std::time::UNIX_EPOCH + std::time::Duration::from_secs(secs);
    httpdate::fmt_http_date(at).into_bytes()
}

/// `HeaderMap::contains_key` with a `&str` key: whether any value is stored
/// under the name. For a name of lower-case letters, digits and hyphens the
/// lookup is by the name as written.
#[verifier::external_body]
fn header_contains(headers: &http::HeaderMap<http::HeaderValue>, name: &str) -> (found: bool)
    requires
        is_field_name(name@),
    ensures
        found == header_fields(*headers).contains_key(name@),
{
    headers.contains_key(name)
}

/// `HeaderValue::from_bytes`: accepts exactly the byte strings without
/// control characters other than tab, and keeps the bytes.
#[verifier::external_body]
fn header_value_from_bytes(src: &[u8]) -> (value: Option<http::HeaderValue>)
    ensures
        value is Some <==> is_field_value(src@),
        value is Some ==> header_value_bytes(value->0) == src@,
{
    http::HeaderValue::from_bytes(src).ok()
}

/// `HeaderMap::try_insert` with a `&'static str` key. When it accepts, the
/// name holds the one new value; when it refuses, the map holds what it
/// held. It refuses only where its table cannot grow, which takes a map of
/// `HEADER_ROOM` names or more. The outside function panics on an invalid
/// name, which `requires` excludes.
#[verifier::external_body]
fn header_try_insert(
    headers: &mut http::HeaderMap<http::HeaderValue>,
    name: &'static str,
    value: http::HeaderValue,
) -> (done: bool)
    requires
        is_field_name(name@),
    ensures
        done ==> header_fields(*final(headers)) == header_fields(*old(headers)).insert(
            name@,
            seq![header_value_bytes(value)],
        ),
        !done ==> header_fields(*final(headers)) == header_fields(*old(headers)),
        header_fields(*old(headers)).dom().finite() && header_fields(*old(headers)).dom().len()
            < HEADER_ROOM ==> done,
{
    headers.try_insert(name, value).is_ok()
}

/// The decimal digits of `n`, most significant first, as ASCII.
pub open spec fn decimal_text(n: nat) -> Seq<u8>
    decreases n,
{
    if n < 10 {
        seq![(48 + n) as u8]
    } else {
        decimal_text(n / 10).push((48 + n % 10) as u8)
    }
}

/// Every byte of a decimal text is an ASCII digit.
pub proof fn lemma_decimal_text_digits(n: nat)
    ensures
        decimal_text(n).len() >= 1,
        forall|i: int| 0 <= i < decimal_text(n).len() ==> 48 <= #[trigger] decimal_text(n)[i] <= 57,
    decreases n,
{
    if n >= 10 {
        lemma_decimal_text_digits(n / 10);
    }
}

/// Formats `n` in decimal.
pub fn format_decimal(n: u64) -> (text: Vec<u8>)
    ensures
        text@ == decimal_text(n as nat),
{
    let mut text: Vec<u8> = Vec::new();
    let mut rest: u64 = n / 10;
    let low: u64 = 48 + n % 10;
    text.push(low as u8);
    while rest > 0
        invariant
            decimal_text(n as nat) == if rest > 0 {
                decimal_text(rest as nat) + text@
            } else {
                text@
            },
        decreases rest,
    {
        let digit: u64 = 48 + rest % 10;
        text.insert(0, digit as u8);
        rest = rest / 10;
    }
    text
}

/// The name of the `Date` field.
pub open spec fn date_name() -> Seq<char> {
    seq!['d', 'a', 't', 'e']
}

/// The name of the `Content-Length` field.
pub open spec fn content_length_name() -> Seq<char> {
    seq!['c', 'o', 'n', 't', 'e', 'n', 't', '-', 'l', 'e', 'n', 'g', 't', 'h']
}

/// The fields with `value` stored under `name`, unless the name already holds
/// something.
pub open spec fn with_default(
    fields: Map<Seq<char>, Seq<Seq<u8>>>,
    name: Seq<char>,
    value: Seq<u8>,
) -> Map<Seq<char>, Seq<Seq<u8>>> {
    if fields.contains_key(name) {
        fields
    } else {
        fields.insert(name, seq![value])
    }
}

/// The fields with the date added.
pub open spec fn dated(fields: Map<Seq<char>, Seq<Seq<u8>>>, date: Seq<u8>) -> Map<
    Seq<char>,
    Seq<Seq<u8>>,
> {
    with_default(fields, date_name(), date)
}

/// The fields of a committed head: what the application set, the date
/// unless it set one, and the body's length where it is known and the
/// application set none.
pub open spec fn synthesized(
    fields: Map<Seq<char>, Seq<Seq<u8>>>,
    date: Seq<u8>,
    content_length: Option<u64>,
) -> Map<Seq<char>, Seq<Seq<u8>>> {
    match content_length {
        Some(len) => with_default(
            dated(fields, date),
            content_length_name(),
            decimal_text(len as nat),
        ),
        None => dated(fields, date),
    }
}

/// Whether the fields take all that a committed head adds to them.
pub open spec fn completes(
    fields: Map<Seq<char>, Seq<Seq<u8>>>,
    date: Seq<u8>,
    content_length: Option<u64>,
) -> bool {
    &&& accepts(fields, date_name())
    &&& content_length is Some ==> accepts(dated(fields, date), content_length_name())
}

/// A map with room for two more names takes all that a committed head adds
/// to it.
pub proof fn lemma_room_for_two_completes(
    fields: Map<Seq<char>, Seq<Seq<u8>>>,
    date: Seq<u8>,
    content_length: Option<u64>,
)
    requires
        fields.dom().finite(),
        fields.dom().len() + 1 < HEADER_ROOM,
    ensures
        completes(fields, date, content_length),
{
    assert(fields.insert(date_name(), seq![date]).dom() =~= fields.dom().insert(date_name()));
}

/// Why a head could not be completed.
#[derive(Clone, Copy, Debug, PartialEq, Eq, Structural)]
pub enum HeadError {
    /// The header map refused another field.
    TooManyFields,
}

/// Stores `value` under `name` unless the name already holds something.
/// Returns `false` when the map refused the new field.
fn insert_default(
    headers: &mut http::HeaderMap<http::HeaderValue>,
    name: &'static str,
    value: &Vec<u8>,
) -> (done: bool)
    requires
        is_field_name(name@),
        is_field_value(value@),
    ensures
        done ==> header_fields(*final(headers)) == with_default(
            header_fields(*old(headers)),
            name@,
            value@,
        ),
        !done ==> header_fields(*final(headers)) == header_fields(*old(headers)),
        accepts(header_fields(*old(headers)), name@) ==> done,
{
    if header_contains(headers, name) {
        return true;
    }
    match header_value_from_bytes(value.as_slice()) {
        Some(v) => header_try_insert(headers, name, v),
        None => false,
    }
}

/// Completes a response head at the instant `now`, in seconds after the
/// Unix epoch: adds `Date` if absent, and `Content-Length` if absent and the
/// body's length is known. It succeeds wherever the map takes these fields.
/// On `Err` the map has refused one; the date may have been added, nothing
/// else.
pub fn synthesize_headers(
    headers: &mut http::HeaderMap<http::HeaderValue>,
    now: u64,
    content_length: Option<u64>,
) -> (r: Result<(), HeadError>)
    requires
        now < DATE_LIMIT,
    ensures
        r is Ok ==> header_fields(*final(headers)) == synthesized(
            header_fields(*old(headers)),
            imf_fixdate(now),
            content_length,
        ),
        r is Err ==> {
            ||| header_fields(*final(headers)) == header_fields(*old(headers))
            ||| header_fields(*final(headers)) == dated(
                header_fields(*old(headers)),
                imf_fixdate(now),
            )
        },
        completes(header_fields(*old(headers)), imf_fixdate(now), content_length) ==> r is Ok,
{
    proof {
        reveal_strlit("date");
        reveal_strlit("content-length");
        assert("date"@ =~= date_name());
        assert("content-length"@ =~= content_length_name());
    }
    let date = format_http_date(now);
    if !insert_default(headers, "date", &date) {
        return Err(HeadError::TooManyFields);
    }
    match content_length {
        Some(len) => {
            let text = format_decimal(len);
            proof {
                lemma_decimal_text_digits(len as nat);
            }
            if !insert_default(headers, "content-length", &text) {
                return Err(HeadError::TooManyFields);
            }
        },
        None => {},
    }
    Ok(())
}

} // verus!
