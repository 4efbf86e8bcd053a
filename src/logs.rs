//! Normalization of raw log records into canonical ones.
use vstd::prelude::*;
use vstd::utf8::{decode_utf8, valid_utf8};
use crate::types::{CanisterLogRecord, EventLog, FetchCanisterLogsResponse};

verus! {

/// Nanoseconds in one second.
pub const NANOS_PER_SECOND: u64 = 1_000_000_000;

/// The lowercase hexadecimal digit of a value below sixteen.
pub open spec fn hex_digit(n: u8) -> char {
    if n < 10 {
        ((n + 48) as u8) as char
    } else {
        ((n + 87) as u8) as char
    }
}

/// The lowercase hexadecimal form of some bytes: two digits per byte, the
/// high half first.
pub open spec fn hex_lower(b: Seq<u8>) -> Seq<char>
    decreases b.len(),
{
    if b.len() == 0 {
        seq![]
    } else {
        hex_lower(b.drop_last()) + seq![hex_digit(b.last() / 16), hex_digit(b.last() % 16)]
    }
}

/// The message that stands for a payload that is not displayable text.
pub open spec fn bytes_message(b: Seq<u8>) -> Seq<char> {
    "(bytes) 0x"@ + hex_lower(b)
}

/// What `{:?}` renders of a string.
pub uninterp spec fn debug_text(s: Seq<char>) -> Seq<char>;

/// Whether the escape marker `\u{` starts at position `i` of some text.
pub open spec fn marker_at(t: Seq<char>, i: int) -> bool {
    0 <= i && i + 3 <= t.len() && t[i] == '\\' && t[i + 1] == 'u' && t[i + 2] == '{'
}

/// Whether some text holds the escape marker `\u{`.
pub open spec fn has_unicode_escape(t: Seq<char>) -> bool {
    exists|i: int| #[trigger] marker_at(t, i)
}

/// Whether decoded text is shown as it is: its debug rendering escapes no
/// character as `\u{..}`.
///
/// This rejects control characters, and also valid text that `{:?}` chooses
/// to escape, such as format characters or a leading combining mark: such
/// text is shown as bytes, though it may be legitimate.
pub open spec fn is_displayable(s: Seq<char>) -> bool {
    !has_unicode_escape(debug_text(s))
}

/// The message of a record with the given payload.
pub open spec fn message_of(content: Seq<u8>) -> Seq<char> {
    if valid_utf8(content) && is_displayable(decode_utf8(content)) {
        decode_utf8(content)
    } else {
        bytes_message(content)
    }
}

/// Whole seconds of a time given in nanoseconds, truncated.
pub open spec fn seconds_of_nanos(nanos: u64) -> int {
    nanos as int / NANOS_PER_SECOND as int
}

/// Whether a canonical record is the normal form of a raw one.
pub open spec fn normalizes_to(r: CanisterLogRecord, e: EventLog) -> bool {
    &&& e.index == r.idx
    &&& e.timestamp as int == seconds_of_nanos(r.timestamp_nanos)
    &&& e.logs@ == message_of(r.content@)
}

/// Relies on hex::encode: lowercase digits, two per byte, high half first.
#[verifier::external_body]
fn encode_hex(bytes: &[u8]) -> (r: String)
    ensures
        r@ == hex_lower(bytes@),
{
    hex::encode(bytes)
}

/// Relies on String::from_utf8: it accepts exactly the valid UTF-8 byte
/// sequences and decodes them.
#[verifier::external_body]
fn text_from_utf8(bytes: Vec<u8>) -> (r: Option<String>)
    ensures
        match r {
            Some(s) => valid_utf8(bytes@) && s@ == decode_utf8(bytes@),
            None => !valid_utf8(bytes@),
        },
{
    String::from_utf8(bytes).ok()
}

/// Relies on the `Debug` impl of `str`, through `format!`.
#[verifier::external_body]
fn debug_form(s: &str) -> (r: String)
    ensures
        r@ == debug_text(s@),
{
    format!("{s:?}")
}

/// Renders a payload as the fixed marker followed by `0x` and its bytes in
/// lowercase hexadecimal.
pub fn format_bytes(bytes: &[u8]) -> (r: String)
    ensures
        r@ == bytes_message(bytes@),
{
    let mut r = "(bytes) 0x".to_owned();
    let hex = encode_hex(bytes);
    r.append(hex.as_str());
    r
}

/// Whether some text holds the escape marker `\u{`.
pub fn contains_unicode_escape(t: &str) -> (r: bool)
    ensures
        r == has_unicode_escape(t@),
{
    let mut chars: Vec<char> = Vec::new();
    for c in it: t.chars()
        invariant
            chars@ == it.seq().take(it.index() as int),
    {
        chars.push(c);
    }
    assert(chars@ == t@);
    let n = chars.len();
    let mut i: usize = 0;
    while i < n && n - i >= 3
        invariant
            i <= n,
            chars@ == t@,
            n == chars.len(),
            forall|j: int| 0 <= j < i ==> !#[trigger] marker_at(t@, j),
        decreases n - i,
    {
        if chars[i] == '\\' && chars[i + 1] == 'u' && chars[i + 2] == '{' {
            assert(marker_at(t@, i as int));
            return true;
        }
        i = i + 1;
    }
    assert forall|j: int| !marker_at(t@, j) by {
        if 0 <= j < i {
        }
    }
    false
}

/// The last nanosecond of the year 9999, the latest instant that the `time`
/// crate represents in its default configuration.
pub const LATEST_NANOS: i128 = 253_402_300_799_999_999_999;

#[verifier::external_type_specification]
#[verifier::external_body]
pub struct ExComponentRange(time::error::ComponentRange);

/// Relies on time::OffsetDateTime::from_unix_timestamp_nanos, which floors the
/// time to whole seconds and accepts every instant from the Unix epoch through
/// the year 9999, and on OffsetDateTime::unix_timestamp, which gives those
/// seconds back.
#[verifier::external_body]
fn unix_seconds_from_nanos(nanos: i128) -> (r: Result<i64, time::error::ComponentRange>)
    ensures
        0 <= nanos <= LATEST_NANOS ==> r is Ok,
        r matches Ok(s) ==> s as int == nanos as int / NANOS_PER_SECOND as int,
{
    time::OffsetDateTime::from_unix_timestamp_nanos(nanos).map(|t| t.unix_timestamp())
}

/// Whether decoded text is shown as it is rather than as bytes.
pub fn is_displayable_text(s: &str) -> (r: bool)
    ensures
        r == is_displayable(s@),
{
    let debug = debug_form(s);
    !contains_unicode_escape(debug.as_str())
}

/// The message of a record: the payload as text where it is valid,
/// displayable UTF-8, else its bytes in hexadecimal behind a marker.
pub fn render_message(content: &Vec<u8>) -> (r: String)
    ensures
        r@ == message_of(content@),
{
    match text_from_utf8(content.clone()) {
        Some(s) => {
            if is_displayable_text(s.as_str()) {
                s
            } else {
                format_bytes(content.as_slice())
            }
        },
        None => format_bytes(content.as_slice()),
    }
}

/// The whole seconds of a time in nanoseconds since the Unix epoch.
pub fn timestamp_seconds(nanos: u64) -> (r: i64)
    ensures
        r as int == seconds_of_nanos(nanos),
{
    match unix_seconds_from_nanos(nanos as i128) {
        Ok(s) => s,
        Err(_) => {
            assert(false);
            0
        },
    }
}

/// The canonical form of one raw record.
pub fn normalize_record(r: &CanisterLogRecord) -> (e: EventLog)
    ensures
        normalizes_to(*r, e),
{
    let timestamp = timestamp_seconds(r.timestamp_nanos);
    let message = render_message(&r.content);
    EventLog::new(r.idx, timestamp, message)
}

/// The canonical records of a response, one for each raw record, in order.
pub fn format_canister_logs(logs: FetchCanisterLogsResponse) -> (out: Vec<EventLog>)
    ensures
        out.len() == logs.canister_log_records.len(),
        forall|i: int|
            0 <= i < out.len() ==> normalizes_to(
                #[trigger] logs.canister_log_records[i],
                out[i],
            ),
{
    let records = &logs.canister_log_records;
    let mut out: Vec<EventLog> = Vec::new();
    let mut i: usize = 0;
    while i < records.len()
        invariant
            i <= records.len(),
            out.len() == i,
            forall|j: int| 0 <= j < i ==> normalizes_to(#[trigger] records[j], out[j]),
        decreases records.len() - i,
    {
        out.push(normalize_record(&records[i]));
        i = i + 1;
    }
    out
}

/// A payload that is valid UTF-8, and whose text is displayable, becomes its
/// decoded text exactly.
pub proof fn lemma_displayable_text_kept(content: Seq<u8>)
    requires
        valid_utf8(content),
        !has_unicode_escape(debug_text(decode_utf8(content))),
    ensures
        message_of(content) == decode_utf8(content),
{
}

/// A payload that is not valid UTF-8, or whose text renders an escape marker,
/// becomes the marker `(bytes) 0x` followed by the lowercase hexadecimal form
/// of all its bytes.
pub proof fn lemma_other_payload_as_hex(content: Seq<u8>)
    requires
        !valid_utf8(content) || has_unicode_escape(debug_text(decode_utf8(content))),
    ensures
        message_of(content) == "(bytes) 0x"@ + hex_lower(content),
{
}

} // verus!
