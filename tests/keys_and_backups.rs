use dynein::backup::{
    backup_label, backup_name_for, fetch_arn_from_backup_name, filter_available, is_eligible,
    plan_restore, restore_target_name, select_backup, selection_texts, RestorePlan,
};
use dynein::keys::{
    create_index_request, create_table_request, generate_essential_key_definitions, parse_key_spec,
};
use dynein::listing::{backup_header, backup_row, table_list_line};
use dynein::model::{BackupSummary, ControlError};

fn keys(v: &[&str]) -> Vec<String> {
    v.iter().map(|s| s.to_string()).collect()
}

fn backup(name: &str, status: &str) -> BackupSummary {
    BackupSummary {
        table_name: Some("Music".to_string()),
        backup_name: Some(name.to_string()),
        backup_arn: Some(format!("arn:{}", name)),
        backup_status: Some(status.to_string()),
        backup_size_bytes: Some(1234),
        backup_creation_date_time: Some(0),
    }
}

#[test]
fn two_key_specifiers() {
    let (ks, ad) = generate_essential_key_definitions(&keys(&["pk,S", "sk,N"])).unwrap();
    assert_eq!(ks.len(), 2);
    assert_eq!((ks[0].attribute_name.as_str(), ks[0].key_type.as_str()), ("pk", "HASH"));
    assert_eq!((ks[1].attribute_name.as_str(), ks[1].key_type.as_str()), ("sk", "RANGE"));
    assert_eq!((ad[0].attribute_name.as_str(), ad[0].attribute_type.as_str()), ("pk", "S"));
    assert_eq!((ad[1].attribute_name.as_str(), ad[1].attribute_type.as_str()), ("sk", "N"));
}

#[test]
fn key_type_defaults_to_string() {
    let (ks, ad) = generate_essential_key_definitions(&keys(&["id"])).unwrap();
    assert_eq!(ks[0].attribute_name, "id");
    assert_eq!(ks[0].key_type, "HASH");
    assert_eq!(ad[0].attribute_type, "S");
}

#[test]
fn key_type_is_upper_cased() {
    assert_eq!(parse_key_spec("id,n"), Ok(("id".to_string(), "N".to_string())));
    assert_eq!(parse_key_spec("data,b"), Ok(("data".to_string(), "B".to_string())));
}

#[test]
fn key_spec_with_two_commas_fails() {
    assert_eq!(parse_key_spec("a,S,N"), Err(ControlError::InvalidKeyFormat));
    assert!(matches!(
        generate_essential_key_definitions(&keys(&["a,S,N"])),
        Err(ControlError::InvalidKeyFormat)
    ));
}

#[test]
fn three_key_specifiers_fail_without_request() {
    let r = create_table_request("t", &keys(&["a", "b", "c"]));
    match r {
        Err(e) => {
            assert_eq!(e, ControlError::InvalidKeyCount);
            assert_eq!(e.exit_code(), 1);
        }
        Ok(_) => panic!("a request was built"),
    }
    assert!(matches!(create_index_request("t", "i", &keys(&["a", "b", "c"])), Err(ControlError::InvalidKeyCount)));
}

#[test]
fn no_key_specifier_fails() {
    assert!(matches!(create_table_request("t", &keys(&[])), Err(ControlError::InvalidKeyCount)));
}

#[test]
fn create_table_request_is_on_demand() {
    let q = create_table_request("Music", &keys(&["Artist", "Song,s"])).unwrap();
    assert_eq!(q.table_name, "Music");
    assert_eq!(q.billing_mode, "PAY_PER_REQUEST");
    assert_eq!(q.key_schema[1].key_type, "RANGE");
    assert_eq!(q.attribute_definitions[1].attribute_type, "S");
}

#[test]
fn create_index_request_projects_all() {
    let q = create_index_request("Music", "byYear", &keys(&["Year,N"])).unwrap();
    assert_eq!(q.table_name, "Music");
    assert_eq!(q.index_name, "byYear");
    assert_eq!(q.projection_type, "ALL");
    assert_eq!(q.key_schema[0].key_type, "HASH");
    assert_eq!(q.attribute_definitions[0].attribute_type, "N");
}

#[test]
fn only_available_backups_are_eligible() {
    let raw = vec![backup("A", "available"), backup("B", "expired")];
    let eligible = filter_available(&raw);
    assert_eq!(eligible.len(), 1);
    assert_eq!(eligible[0].backup_name, Some("A".to_string()));
    assert_eq!(fetch_arn_from_backup_name("B", &eligible), Err(ControlError::BackupNotFound));
    assert_eq!(fetch_arn_from_backup_name("A", &eligible), Ok("arn:A".to_string()));
}

#[test]
fn service_status_spelling_is_eligible() {
    assert!(is_eligible(&backup("A", "AVAILABLE")));
    assert!(!is_eligible(&backup("A", "CREATING")));
    let mut no_status = backup("A", "AVAILABLE");
    no_status.backup_status = None;
    assert!(!is_eligible(&no_status));
}

#[test]
fn backup_label_shows_time_and_size() {
    assert_eq!(backup_label(&backup("A", "AVAILABLE")), Ok("A (1970-01-01T00:00:00+00:00, 1234 bytes)".to_string()));
}

#[test]
fn selection_lists_each_backup_in_order() {
    let v = selection_texts(&vec![backup("A", "AVAILABLE"), backup("B", "AVAILABLE")]).unwrap();
    assert_eq!(v.len(), 2);
    assert!(v[0].starts_with("A ("));
    assert!(v[1].starts_with("B ("));
}

#[test]
fn select_by_index() {
    let v = vec![backup("A", "AVAILABLE"), backup("B", "AVAILABLE")];
    assert_eq!(select_backup(&v, 1), Ok("arn:B".to_string()));
    assert_eq!(select_backup(&v, 2), Err(ControlError::InvalidSelection));
}

#[test]
fn plan_with_no_eligible_backup_ends() {
    assert!(matches!(plan_restore(&None, &vec![]), Ok(RestorePlan::NoEligibleBackup)));
    assert!(matches!(plan_restore(&Some("A".to_string()), &vec![]), Ok(RestorePlan::NoEligibleBackup)));
}

#[test]
fn plan_by_name_and_by_selection() {
    let v = vec![backup("A", "AVAILABLE")];
    match plan_restore(&Some("A".to_string()), &v) {
        Ok(RestorePlan::Resolved(arn)) => assert_eq!(arn, "arn:A"),
        _ => panic!("expected a resolved backup"),
    }
    assert!(matches!(plan_restore(&Some("Z".to_string()), &v), Err(ControlError::BackupNotFound)));
    match plan_restore(&None, &v) {
        Ok(RestorePlan::AwaitingSelection(labels)) => {
            assert_eq!(labels, vec!["A (1970-01-01T00:00:00+00:00, 1234 bytes)".to_string()])
        }
        _ => panic!("expected a selection"),
    }
}

#[test]
fn restore_target_name_given_or_made() {
    assert_eq!(restore_target_name("Music", &Some("Copy".to_string()), 5), "Copy");
    assert_eq!(restore_target_name("Music", &None, 1597410967), "Music--restore-1597410967");
}

#[test]
fn backup_name_has_epoch() {
    assert_eq!(backup_name_for("Music", 0), "Music--dynein-0");
    assert_eq!(backup_name_for("Music", u64::MAX), "Music--dynein-18446744073709551615");
}

#[test]
fn table_line_marks_table_in_use() {
    let current = Some(("us-east-1".to_string(), "Music".to_string()));
    assert_eq!(table_list_line("us-east-1", "Music", &current), "* Music");
    assert_eq!(table_list_line("us-east-1", "Books", &current), "  Books");
    assert_eq!(table_list_line("eu-west-1", "Music", &current), "  Music");
    assert_eq!(table_list_line("us-east-1", "Music", &None), "  Music");
}

#[test]
fn backup_listing_row() {
    assert_eq!(backup_header(), vec!["Table", "Status", "CreatedAt", "BackupName (size)"]);
    let row = backup_row(&backup("A", "AVAILABLE")).unwrap();
    assert_eq!(row, vec!["Music", "AVAILABLE", "1970-01-01T00:00:00+00:00", "A (1234 bytes)"]);
    let mut b = backup("A", "AVAILABLE");
    b.backup_size_bytes = None;
    assert_eq!(backup_row(&b), Err(ControlError::MissingField));
}

#[test]
fn negative_size_rendered_with_sign() {
    let mut b = backup("A", "AVAILABLE");
    b.backup_size_bytes = Some(-5);
    assert_eq!(backup_row(&b).unwrap()[3], "A (-5 bytes)");
}
