use vstd::prelude::*;
use crate::model::Timestamp;

verus! {

/// The hyphenated lower-case text of the identifier with this 128-bit value.
pub uninterp spec fn uuid_text_of(id: u128) -> Seq<char>;

/// The 128-bit value of the identifier this text spells, if it spells one.
pub uninterp spec fn uuid_value_of(text: Seq<char>) -> Option<u128>;

/// The RFC 3339 text of this UTC instant, if it lies in the representable range.
pub uninterp spec fn rfc3339_text_of(secs: i64, nanos: u32) -> Option<Seq<char>>;

/// The UTC instant this RFC 3339 text names, if it is well formed.
pub uninterp spec fn rfc3339_instant_of(text: Seq<char>) -> Option<(i64, u32)>;

/// Relies on uuid::Uuid::new_v4: a random version-4 identifier, taken as its
/// 128-bit value. Nothing is promised of the value.
#[verifier::external_body]
pub(crate) fn fresh_id() -> (r: u128) {
    uuid::Uuid::new_v4().as_u128()
}

/// Relies on chrono::Utc::now: the current time of the system clock, as
/// seconds and nanoseconds. Nothing is promised of the value.
#[verifier::external_body]
pub(crate) fn current_time() -> (r: Timestamp) {
    let now = chrono::Utc::now();
    Timestamp { secs: now.timestamp(), nanos: now.timestamp_subsec_nanos() }
}

/// Relies on uuid's hyphenated formatting of `Uuid::from_u128(id)`: eight,
/// four, four, four and twelve hex digits joined by hyphens, 36 characters.
#[verifier::external_body]
pub(crate) fn uuid_text(id: u128) -> (r: String)
    ensures
        r@ == uuid_text_of(id),
        r@.len() == 36,
{
    uuid::Uuid::from_u128(id).hyphenated().to_string()
}

/// Relies on uuid::Uuid::parse_str: the identifier the text spells, or `None`.
#[verifier::external_body]
pub(crate) fn parse_uuid(text: &str) -> (r: Option<u128>)
    ensures
        r == uuid_value_of(text@),
{
    uuid::Uuid::parse_str(text).ok().map(|u| u.as_u128())
}

/// Relies on chrono::DateTime::to_rfc3339 of `DateTime::from_timestamp(secs,
/// nanos)`, which is `None` out of chrono's range.
#[verifier::external_body]
pub(crate) fn rfc3339_text(secs: i64, nanos: u32) -> (r: Option<String>)
    ensures
        r is Some <==> rfc3339_text_of(secs, nanos) is Some,
        r matches Some(t) ==> rfc3339_text_of(secs, nanos) == Some(t@),
{
    chrono::DateTime::from_timestamp(secs, nanos).map(|d| d.to_rfc3339())
}

/// Relies on chrono::DateTime::parse_from_rfc3339: the instant named by the
/// text, as UTC seconds and nanoseconds, or `None` when the text is not RFC 3339.
#[verifier::external_body]
pub(crate) fn parse_rfc3339(text: &str) -> (r: Option<(i64, u32)>)
    ensures
        r == rfc3339_instant_of(text@),
{
    chrono::DateTime::parse_from_rfc3339(text).ok().map(|d| (d.timestamp(), d.timestamp_subsec_nanos()))
}

} // verus!
