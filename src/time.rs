//! Unix timestamps rendered as RFC 3339 / ISO 8601 text.
use vstd::prelude::*;
use crate::model::ControlError;

verus! {

/// The RFC 3339 text in UTC (`+00:00`) of a count of seconds since the Unix epoch.
pub uninterp spec fn rfc3339_of(epoch: int) -> Seq<char>;

/// Seconds well inside the calendar range that timestamps can be rendered in
/// (about 253,000 years either side of the epoch).
pub open spec fn in_calendar_range(epoch: int) -> bool {
    -8_000_000_000_000 <= epoch <= 8_000_000_000_000
}

/// Relies on chrono's `DateTime::<Utc>::from_timestamp`, which gives `None`
/// only for seconds outside its calendar (years -262142 to 262142), and on
/// `DateTime::to_rfc3339` for the text.
#[verifier::external_body]
fn chrono_rfc3339(epoch: i64) -> (r: Option<String>)
    ensures
        r matches Some(s) ==> s@ == rfc3339_of(epoch as int),
        in_calendar_range(epoch as int) ==> r is Some,
{
    match chrono::DateTime::<chrono::Utc>::from_timestamp(epoch, 0) {
        Some(d) => Some(d.to_rfc3339()),
        None => None,
    }
}

/// Renders seconds since the Unix epoch as an RFC 3339 timestamp in UTC.
pub fn epoch_to_rfc3339(epoch: i64) -> (r: Result<String, ControlError>)
    ensures
        match r {
            Ok(s) => s@ == rfc3339_of(epoch as int),
            Err(e) => e == ControlError::TimestampOutOfRange && !in_calendar_range(epoch as int),
        },
        in_calendar_range(epoch as int) ==> r is Ok,
{
    match chrono_rfc3339(epoch) {
        Some(s) => Ok(s),
        None => Err(ControlError::TimestampOutOfRange),
    }
}

} // verus!
