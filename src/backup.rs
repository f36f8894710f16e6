//! Backups: which are eligible for restore, how one is resolved by name or by
//! a selection, and the names that backup and restore give.
use vstd::prelude::*;
use crate::model::{BackupSummary, ControlError};
use crate::search::{first_index, lemma_first_index_is, lemma_first_index_none};
use crate::text::{decimal, decimal_of, eq_ignoring_case, join_note, same_ignoring_case, str_eq, with_note};
use crate::time::{epoch_to_rfc3339, in_calendar_range, rfc3339_of};

verus! {

/// A backup can be restored from: its status is `AVAILABLE`, in any case.
pub open spec fn eligible(b: BackupSummary) -> bool {
    b.backup_status matches Some(s) && same_ignoring_case(s@, "AVAILABLE"@)
}

/// The eligibility test as a predicate.
pub open spec fn eligible_pred() -> spec_fn(BackupSummary) -> bool {
    |b: BackupSummary| eligible(b)
}

/// Whether a backup can be restored from.
pub fn is_eligible(b: &BackupSummary) -> (r: bool)
    ensures
        r == eligible(*b),
{
    match &b.backup_status {
        Some(s) => eq_ignoring_case(s.as_str(), "AVAILABLE"),
        None => false,
    }
}

fn copy_opt_string(s: &Option<String>) -> (r: Option<String>)
    ensures
        r == *s,
{
    match s {
        Some(x) => Some(x.clone()),
        None => None,
    }
}

fn copy_backup(b: &BackupSummary) -> (r: BackupSummary)
    ensures
        r == *b,
{
    BackupSummary {
        table_name: copy_opt_string(&b.table_name),
        backup_name: copy_opt_string(&b.backup_name),
        backup_arn: copy_opt_string(&b.backup_arn),
        backup_status: copy_opt_string(&b.backup_status),
        backup_size_bytes: b.backup_size_bytes,
        backup_creation_date_time: b.backup_creation_date_time,
    }
}

/// The eligible backups of a list, in the order given.
pub fn filter_available(backups: &Vec<BackupSummary>) -> (r: Vec<BackupSummary>)
    ensures
        r@ == backups@.filter(eligible_pred()),
{
    let mut out: Vec<BackupSummary> = Vec::new();
    let mut i: usize = 0;
    while i < backups.len()
        invariant
            i <= backups@.len(),
            out@ == backups@.take(i as int).filter(eligible_pred()),
        decreases backups@.len() - i,
    {
        proof {
            assert(backups@.take(i + 1).drop_last() =~= backups@.take(i as int));
            reveal(Seq::filter);
        }
        if is_eligible(&backups[i]) {
            out.push(copy_backup(&backups[i]));
        }
        i = i + 1;
    }
    assert(backups@.take(backups@.len() as int) =~= backups@);
    out
}

/// A backup of the given name.
pub open spec fn has_backup_name(name: Seq<char>) -> spec_fn(BackupSummary) -> bool {
    |b: BackupSummary| b.backup_name matches Some(n) && n@ == name
}

/// The ARN of the first backup of `backups` named `name`: not found where
/// none is, and a missing field where that backup has no ARN.
pub open spec fn spec_arn_by_name(name: Seq<char>, backups: Seq<BackupSummary>) -> Result<
    Seq<char>,
    ControlError,
> {
    match first_index(backups, has_backup_name(name)) {
        None => Err(ControlError::BackupNotFound),
        Some(i) => match backups[i].backup_arn {
            Some(a) => Ok(a@),
            None => Err(ControlError::MissingField),
        },
    }
}

/// Looks up a backup by exact name among the eligible backups and gives its ARN.
pub fn fetch_arn_from_backup_name(backup_name: &str, available_backups: &Vec<BackupSummary>) -> (r:
    Result<String, ControlError>)
    ensures
        match r {
            Ok(a) => spec_arn_by_name(backup_name@, available_backups@) == Ok::<_, ControlError>(a@),
            Err(e) => spec_arn_by_name(backup_name@, available_backups@) == Err::<Seq<char>, _>(e),
        },
{
    let mut i: usize = 0;
    while i < available_backups.len()
        invariant
            i <= available_backups@.len(),
            forall|j: int|
                0 <= j < i ==> !has_backup_name(backup_name@)(#[trigger] available_backups@[j]),
        decreases available_backups@.len() - i,
    {
        let b = &available_backups[i];
        let found = match &b.backup_name {
            Some(n) => str_eq(n.as_str(), backup_name),
            None => false,
        };
        if found {
            proof {
                lemma_first_index_is(available_backups@, has_backup_name(backup_name@), i as int);
            }
            return match &b.backup_arn {
                Some(a) => Ok(a.clone()),
                None => Err(ControlError::MissingField),
            };
        }
        i = i + 1;
    }
    proof {
        lemma_first_index_none(available_backups@, has_backup_name(backup_name@));
    }
    Err(ControlError::BackupNotFound)
}

/// Resolving a name among the eligible backups fails as not found whenever no
/// eligible backup has that name, even where an ineligible one does.
pub proof fn lemma_ineligible_name_not_found(name: Seq<char>, backups: Seq<BackupSummary>)
    requires
        forall|i: int|
            0 <= i < backups.len() && has_backup_name(name)(#[trigger] backups[i]) ==> !eligible(
                backups[i],
            ),
    ensures
        spec_arn_by_name(name, backups.filter(eligible_pred())) == Err::<Seq<char>, ControlError>(
            ControlError::BackupNotFound,
        ),
{
    let f = backups.filter(eligible_pred());
    broadcast use vstd::seq_lib::group_filter_ensures;

    assert forall|j: int| 0 <= j < f.len() implies !has_backup_name(name)(#[trigger] f[j]) by {
        assert(eligible_pred()(f[j]));
        assert(f.contains(f[j]));
        backups.lemma_filter_contains_rev(eligible_pred(), f[j]);
        let k = choose|k: int| 0 <= k < backups.len() && backups[k] == f[j];
        assert(has_backup_name(name)(backups[k]) ==> !eligible(backups[k]));
    }
    lemma_first_index_none(f, has_backup_name(name));
}

/// How a backup is offered for selection: `name (created-at, N bytes)`.
pub open spec fn spec_backup_label(b: BackupSummary) -> Seq<char> {
    with_note(
        b.backup_name->0@,
        rfc3339_of(b.backup_creation_date_time->0 as int) + ", "@ + decimal_of(
            b.backup_size_bytes->0 as int,
        ) + " bytes"@,
    )
}

/// The backup has the fields that its label shows.
pub open spec fn labelable(b: BackupSummary) -> bool {
    b.backup_name is Some && b.backup_creation_date_time is Some && b.backup_size_bytes is Some
}

/// `s` is the label of `b`.
pub open spec fn labels(b: BackupSummary, s: Seq<char>) -> bool {
    labelable(b) && s == spec_backup_label(b)
}

/// The label of one backup in the selection list.
pub fn backup_label(b: &BackupSummary) -> (r: Result<String, ControlError>)
    ensures
        match r {
            Ok(s) => labels(*b, s@),
            Err(e) => !labelable(*b) && e == ControlError::MissingField || labelable(*b) && e
                == ControlError::TimestampOutOfRange && !in_calendar_range(
                b.backup_creation_date_time->0 as int,
            ),
        },
        labelable(*b) && in_calendar_range(b.backup_creation_date_time->0 as int) ==> r is Ok,
{
    match (&b.backup_name, b.backup_creation_date_time, b.backup_size_bytes) {
        (Some(name), Some(created), Some(size)) => {
            let mut note = match epoch_to_rfc3339(created) {
                Ok(t) => t,
                Err(e) => {
                    return Err(e);
                },
            };
            note.append(", ");
            let digits = decimal(size as i128);
            note.append(digits.as_str());
            note.append(" bytes");
            Ok(join_note(name.as_str(), note.as_str()))
        },
        _ => Err(ControlError::MissingField),
    }
}

/// The labels of the eligible backups, in order, for an interactive selection.
pub fn selection_texts(available_backups: &Vec<BackupSummary>) -> (r: Result<
    Vec<String>,
    ControlError,
>)
    ensures
        r matches Ok(v) ==> v@.len() == available_backups@.len() && forall|i: int|
            0 <= i < v@.len() ==> labels(available_backups@[i], (#[trigger] v@[i])@),
        (forall|i: int|
            0 <= i < available_backups@.len() ==> labelable(#[trigger] available_backups@[i])
                && in_calendar_range(available_backups@[i].backup_creation_date_time->0 as int))
            ==> r is Ok,
        r matches Err(e) ==> exists|i: int|
            0 <= i < available_backups@.len() && !(labelable(#[trigger] available_backups@[i])
                && in_calendar_range(available_backups@[i].backup_creation_date_time->0 as int)),
{
    let mut out: Vec<String> = Vec::new();
    let mut i: usize = 0;
    while i < available_backups.len()
        invariant
            i <= available_backups@.len(),
            out@.len() == i,
            forall|k: int|
                0 <= k < i ==> labels(available_backups@[k], (#[trigger] out@[k])@),
        decreases available_backups@.len() - i,
    {
        let ghost before = out@;
        match backup_label(&available_backups[i]) {
            Ok(s) => {
                out.push(s);
                assert forall|k: int| 0 <= k < i + 1 implies labels(
                    available_backups@[k],
                    (#[trigger] out@[k])@,
                ) by {
                    if k < i {
                        assert(out@[k] == before[k]);
                    }
                }
            },
            Err(e) => {
                return Err(e);
            },
        }
        i = i + 1;
    }
    Ok(out)
}

/// The ARN of the backup at `selection` in the eligible list.
pub fn select_backup(available_backups: &Vec<BackupSummary>, selection: usize) -> (r: Result<
    String,
    ControlError,
>)
    ensures
        selection >= available_backups@.len() ==> r == Err::<String, _>(
            ControlError::InvalidSelection,
        ),
        selection < available_backups@.len() ==> match available_backups@[selection as int].backup_arn {
            Some(a) => r matches Ok(s) && s@ == a@,
            None => r == Err::<String, _>(ControlError::MissingField),
        },
{
    if selection >= available_backups.len() {
        return Err(ControlError::InvalidSelection);
    }
    match &available_backups[selection].backup_arn {
        Some(a) => Ok(a.clone()),
        None => Err(ControlError::MissingField),
    }
}

/// What the restore workflow does next, once the eligible backups are known.
pub enum RestorePlan {
    /// Nothing to restore from: the workflow ends successfully.
    NoEligibleBackup,
    /// The backup, by ARN, to restore from.
    Resolved(String),
    /// Offer these labels, one per eligible backup in order, and wait for a choice.
    AwaitingSelection(Vec<String>),
}

/// Decides how the backup to restore from is found: by the given name among
/// the eligible backups, or by offering them all for selection.
pub fn plan_restore(backup_name: &Option<String>, available_backups: &Vec<BackupSummary>) -> (r:
    Result<RestorePlan, ControlError>)
    ensures
        available_backups@.len() == 0 ==> r matches Ok(RestorePlan::NoEligibleBackup),
        available_backups@.len() > 0 && backup_name is Some ==> match spec_arn_by_name(
            backup_name->0@,
            available_backups@,
        ) {
            Ok(a) => r matches Ok(RestorePlan::Resolved(s)) && s@ == a,
            Err(e) => r == Err::<RestorePlan, _>(e),
        },
        available_backups@.len() > 0 && backup_name is None ==> match r {
            Ok(RestorePlan::AwaitingSelection(v)) => v@.len() == available_backups@.len()
                && forall|i: int|
                0 <= i < v@.len() ==> (#[trigger] v@[i])@ == spec_backup_label(
                    available_backups@[i],
                ),
            Ok(_) => false,
            Err(_) => exists|i: int|
                0 <= i < available_backups@.len() && !(labelable(#[trigger] available_backups@[i])
                    && in_calendar_range(
                    available_backups@[i].backup_creation_date_time->0 as int,
                )),
        },
{
    if available_backups.len() == 0 {
        return Ok(RestorePlan::NoEligibleBackup);
    }
    match backup_name {
        Some(name) => match fetch_arn_from_backup_name(name.as_str(), available_backups) {
            Ok(a) => Ok(RestorePlan::Resolved(a)),
            Err(e) => Err(e),
        },
        None => match selection_texts(available_backups) {
            Ok(v) => Ok(RestorePlan::AwaitingSelection(v)),
            Err(e) => Err(e),
        },
    }
}

/// The name a restored table gets when none is given: `{source}--restore-{epoch}`.
pub open spec fn spec_restore_name(source: Seq<char>, epoch: int) -> Seq<char> {
    source + "--restore-"@ + decimal_of(epoch)
}

/// The target table of a restore: the given name, or one made from the
/// source table's name and the current time in seconds.
pub fn restore_target_name(source_table_name: &str, restore_name: &Option<String>, epoch: u64) -> (r:
    String)
    ensures
        match restore_name {
            Some(n) => r@ == n@,
            None => r@ == spec_restore_name(source_table_name@, epoch as int),
        },
{
    match restore_name {
        Some(n) => n.clone(),
        None => {
            let mut s = String::from_str(source_table_name);
            s.append("--restore-");
            let digits = decimal(epoch as i128);
            s.append(digits.as_str());
            s
        },
    }
}

/// The name an on-demand backup gets: `{table}--dynein-{epoch}`.
pub open spec fn spec_backup_name(table: Seq<char>, epoch: int) -> Seq<char> {
    table + "--dynein-"@ + decimal_of(epoch)
}

/// Names a new backup of `table_name` taken at `epoch` seconds.
pub fn backup_name_for(table_name: &str, epoch: u64) -> (r: String)
    ensures
        r@ == spec_backup_name(table_name@, epoch as int),
{
    let mut s = String::from_str(table_name);
    s.append("--dynein-");
    let digits = decimal(epoch as i128);
    s.append(digits.as_str());
    s
}

} // verus!
