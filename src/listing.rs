//! The lines of the table and backup listings.
use vstd::prelude::*;
use crate::model::{BackupSummary, ControlError};
use crate::text::{decimal, decimal_of, join_note, str_eq, with_note};
use crate::time::{epoch_to_rfc3339, in_calendar_range, rfc3339_of};

verus! {

/// The line of a table in a region's listing: marked `* ` when it is the
/// table in use, indented by two spaces otherwise.
pub open spec fn spec_table_line(
    region: Seq<char>,
    table_name: Seq<char>,
    current: Option<(Seq<char>, Seq<char>)>,
) -> Seq<char> {
    if current == Some((region, table_name)) {
        "* "@ + table_name
    } else {
        "  "@ + table_name
    }
}

/// The listing line of `table_name` in `region`, given the table in use as
/// (region, name), if one is recorded.
pub fn table_list_line(region: &str, table_name: &str, current: &Option<(String, String)>) -> (r:
    String)
    ensures
        r@ == spec_table_line(
            region@,
            table_name@,
            match current {
                Some((cr, cn)) => Some((cr@, cn@)),
                None => None,
            },
        ),
{
    let in_use = match current {
        Some((cr, cn)) => str_eq(cr.as_str(), region) && str_eq(cn.as_str(), table_name),
        None => false,
    };
    let mut s = if in_use {
        String::from_str("* ")
    } else {
        String::from_str("  ")
    };
    s.append(table_name);
    s
}

/// The header of the backup listing.
pub fn backup_header() -> (r: Vec<String>)
    ensures
        r@.len() == 4,
        r@[0]@ == "Table"@,
        r@[1]@ == "Status"@,
        r@[2]@ == "CreatedAt"@,
        r@[3]@ == "BackupName (size)"@,
{
    let mut v: Vec<String> = Vec::new();
    v.push(String::from_str("Table"));
    v.push(String::from_str("Status"));
    v.push(String::from_str("CreatedAt"));
    v.push(String::from_str("BackupName (size)"));
    v
}

/// The backup has the fields that its listing row shows.
pub open spec fn listable(b: BackupSummary) -> bool {
    b.table_name is Some && b.backup_status is Some && b.backup_creation_date_time is Some
        && b.backup_name is Some && b.backup_size_bytes is Some
}

/// The cells of one backup in the listing: table, status, creation time, and
/// `name (N bytes)`.
pub fn backup_row(b: &BackupSummary) -> (r: Result<Vec<String>, ControlError>)
    ensures
        match r {
            Ok(v) => listable(*b) && v@.len() == 4 && v@[0]@ == b.table_name->0@ && v@[1]@
                == b.backup_status->0@ && v@[2]@ == rfc3339_of(
                b.backup_creation_date_time->0 as int,
            ) && v@[3]@ == with_note(
                b.backup_name->0@,
                decimal_of(b.backup_size_bytes->0 as int) + " bytes"@,
            ),
            Err(e) => !listable(*b) && e == ControlError::MissingField || listable(*b) && e
                == ControlError::TimestampOutOfRange && !in_calendar_range(
                b.backup_creation_date_time->0 as int,
            ),
        },
        listable(*b) && in_calendar_range(b.backup_creation_date_time->0 as int) ==> r is Ok,
{
    match (
        &b.table_name,
        &b.backup_status,
        b.backup_creation_date_time,
        &b.backup_name,
        b.backup_size_bytes,
    ) {
        (Some(table), Some(status), Some(created), Some(name), Some(size)) => {
            let created_at = match epoch_to_rfc3339(created) {
                Ok(t) => t,
                Err(e) => {
                    return Err(e);
                },
            };
            let mut note = decimal(size as i128);
            note.append(" bytes");
            let mut v: Vec<String> = Vec::new();
            v.push(table.clone());
            v.push(status.clone());
            v.push(created_at);
            v.push(join_note(name.as_str(), note.as_str()));
            Ok(v)
        },
        _ => Err(ControlError::MissingField),
    }
}

} // verus!
