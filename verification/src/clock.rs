//! Points in time as texts. A point in time is the number of nanoseconds since the start of
//! 1970 in UTC.
use time::format_description::well_known::Rfc3339;
use vstd::prelude::*;

verus! {

/// The text of a point in time after RFC 3339; `None` where it has none, as outside the
/// years that the `time` crate covers.
pub uninterp spec fn rfc3339(nanos: i128) -> Option<Seq<char>>;

/// Calls `time::OffsetDateTime::format` with the well-known RFC 3339 description, on the
/// point in time that `from_unix_timestamp_nanos` gives. The claim: the text, or that there
/// is none, depends on the point in time alone.
#[verifier::external_body]
fn format_rfc3339(nanos: i128) -> (r: Option<String>)
    ensures
        r.deep_view() == rfc3339(nanos),
{
    let moment = time::OffsetDateTime::from_unix_timestamp_nanos(nanos).ok()?;
    moment.format(&Rfc3339).ok()
}

/// A text, or "unknown" where there is none.
pub open spec fn known(text: Option<Seq<char>>) -> Seq<char> {
    match text {
        Some(t) => t,
        None => "unknown"@,
    }
}

/// Returns a text, or "unknown" where there is none.
pub fn or_unknown(text: Option<String>) -> (r: String)
    ensures
        r@ == known(text.deep_view()),
{
    match text {
        Some(t) => t,
        None => "unknown".to_owned(),
    }
}

/// The text that stands for a point in time.
pub open spec fn timestamp_text(nanos: i128) -> Seq<char> {
    known(rfc3339(nanos))
}

/// Returns the text that stands for a point in time.
pub fn timestamp(nanos: i128) -> (r: String)
    ensures
        r@ == timestamp_text(nanos),
{
    or_unknown(format_rfc3339(nanos))
}

} // verus!
