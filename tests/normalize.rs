use dynein::describe::{
    extract_capacity, extract_mode, extract_secondary_indexes, extract_stream, primary_keys,
    typed_key_for_schema, KeyRole,
};
use dynein::model::{
    AttributeDefinition, BillingModeSummary, CapacityUnits, ControlError, IndexKind,
    KeySchemaElement, Mode, ProvisionedThroughputDescription, SecondaryIndexDescription,
    StreamSpecification, TableDescription,
};
use dynein::table::{check_output_format, normalize_table_description};
use dynein::time::epoch_to_rfc3339;

fn key(name: &str, role: &str) -> KeySchemaElement {
    KeySchemaElement { attribute_name: name.to_string(), key_type: role.to_string() }
}

fn attr(name: &str, kind: &str) -> AttributeDefinition {
    AttributeDefinition { attribute_name: name.to_string(), attribute_type: kind.to_string() }
}

fn throughput(read: i64, write: i64) -> Option<ProvisionedThroughputDescription> {
    Some(ProvisionedThroughputDescription {
        read_capacity_units: Some(read),
        write_capacity_units: Some(write),
    })
}

fn index(name: &str, ks: Vec<KeySchemaElement>, read: i64, write: i64) -> SecondaryIndexDescription {
    SecondaryIndexDescription {
        index_name: Some(name.to_string()),
        key_schema: Some(ks),
        provisioned_throughput: throughput(read, write),
    }
}

fn table(billing: Option<&str>) -> TableDescription {
    TableDescription {
        table_name: Some("Music".to_string()),
        table_status: Some("ACTIVE".to_string()),
        key_schema: Some(vec![key("Artist", "HASH"), key("Song", "RANGE")]),
        attribute_definitions: Some(vec![attr("Artist", "S"), attr("Song", "S"), attr("Year", "N")]),
        billing_mode_summary: billing.map(|b| BillingModeSummary { billing_mode: Some(b.to_string()) }),
        provisioned_throughput: throughput(5, 7),
        global_secondary_indexes: Some(vec![index("byYear", vec![key("Year", "HASH")], 1, 2)]),
        local_secondary_indexes: Some(vec![index(
            "bySongYear",
            vec![key("Artist", "HASH"), key("Year", "RANGE")],
            5,
            7,
        )]),
        latest_stream_arn: None,
        stream_specification: None,
        item_count: Some(42),
        table_size_bytes: Some(1024),
        creation_date_time: Some(0),
    }
}

#[test]
fn mode_absent_summary_is_provisioned() {
    assert_eq!(extract_mode(&None), Mode::Provisioned);
}

#[test]
fn mode_pay_per_request_is_on_demand() {
    let bs = Some(BillingModeSummary { billing_mode: Some("PAY_PER_REQUEST".to_string()) });
    assert_eq!(extract_mode(&bs), Mode::OnDemand);
}

#[test]
fn mode_other_value_is_provisioned() {
    let bs = Some(BillingModeSummary { billing_mode: Some("PROVISIONED".to_string()) });
    assert_eq!(extract_mode(&bs), Mode::Provisioned);
    let empty = Some(BillingModeSummary { billing_mode: None });
    assert_eq!(extract_mode(&empty), Mode::Provisioned);
}

#[test]
fn capacity_on_demand_is_absent_even_with_throughput() {
    assert_eq!(extract_capacity(&Mode::OnDemand, &throughput(5, 7)), Ok(None));
    assert_eq!(extract_capacity(&Mode::OnDemand, &None), Ok(None));
}

#[test]
fn capacity_provisioned_is_read_and_write() {
    assert_eq!(
        extract_capacity(&Mode::Provisioned, &throughput(5, 7)),
        Ok(Some(CapacityUnits { wcu: 7, rcu: 5 }))
    );
}

#[test]
fn capacity_provisioned_without_description_fails() {
    assert_eq!(extract_capacity(&Mode::Provisioned, &None), Err(ControlError::MissingCapacity));
    let partial = Some(ProvisionedThroughputDescription {
        read_capacity_units: Some(1),
        write_capacity_units: None,
    });
    assert_eq!(extract_capacity(&Mode::Provisioned, &partial), Err(ControlError::MissingCapacity));
}

#[test]
fn key_schema_partition_only() {
    let ks = vec![key("pk", "HASH")];
    let attrs = vec![attr("pk", "S")];
    let keys = primary_keys(&ks, &attrs).unwrap();
    assert_eq!(keys.pk, "pk (S)");
    assert_eq!(keys.sk, None);
    let pk = typed_key_for_schema(KeyRole::Partition, &ks, &attrs).unwrap().unwrap();
    assert_eq!(pk.name, "pk");
    assert_eq!(pk.kind, "S");
    assert!(typed_key_for_schema(KeyRole::Sort, &ks, &attrs).unwrap().is_none());
}

#[test]
fn key_schema_with_sort_key() {
    let ks = vec![key("sk", "RANGE"), key("pk", "HASH")];
    let attrs = vec![attr("pk", "N"), attr("sk", "B")];
    let keys = primary_keys(&ks, &attrs).unwrap();
    assert_eq!(keys.pk, "pk (N)");
    assert_eq!(keys.sk, Some("sk (B)".to_string()));
}

#[test]
fn key_schema_without_partition_key_fails() {
    let ks = vec![key("sk", "RANGE")];
    let attrs = vec![attr("sk", "S")];
    assert!(matches!(primary_keys(&ks, &attrs), Err(ControlError::MissingPartitionKey)));
}

#[test]
fn key_schema_unresolved_attribute_fails() {
    let ks = vec![key("pk", "HASH")];
    let attrs = vec![attr("other", "S")];
    assert!(matches!(primary_keys(&ks, &attrs), Err(ControlError::UnresolvedKey)));
    assert!(matches!(
        typed_key_for_schema(KeyRole::Partition, &ks, &attrs),
        Err(ControlError::UnresolvedKey)
    ));
}

#[test]
fn local_index_has_no_capacity_in_either_mode() {
    let attrs = vec![attr("pk", "S"), attr("sk", "N")];
    let lsi = Some(vec![index("l1", vec![key("pk", "HASH"), key("sk", "RANGE")], 3, 4)]);
    for mode in [Mode::Provisioned, Mode::OnDemand] {
        let out = extract_secondary_indexes(&IndexKind::Local, &mode, &attrs, &lsi).unwrap().unwrap();
        assert_eq!(out.len(), 1);
        assert_eq!(out[0].name, "l1");
        assert_eq!(out[0].schema.pk, "pk (S)");
        assert_eq!(out[0].schema.sk, Some("sk (N)".to_string()));
        assert_eq!(out[0].capacity, None);
    }
}

#[test]
fn global_index_capacity_follows_mode() {
    let attrs = vec![attr("g", "S")];
    let gsi = Some(vec![index("g1", vec![key("g", "HASH")], 3, 4)]);
    let prov = extract_secondary_indexes(&IndexKind::Global, &Mode::Provisioned, &attrs, &gsi)
        .unwrap()
        .unwrap();
    assert_eq!(prov[0].capacity, Some(CapacityUnits { wcu: 4, rcu: 3 }));
    let od = extract_secondary_indexes(&IndexKind::Global, &Mode::OnDemand, &attrs, &gsi)
        .unwrap()
        .unwrap();
    assert_eq!(od[0].capacity, None);
}

#[test]
fn indexes_absent_stay_absent() {
    let attrs = vec![attr("g", "S")];
    assert!(extract_secondary_indexes(&IndexKind::Global, &Mode::Provisioned, &attrs, &None)
        .unwrap()
        .is_none());
}

#[test]
fn indexes_keep_source_order() {
    let attrs = vec![attr("a", "S"), attr("b", "N")];
    let gsi = Some(vec![
        index("second", vec![key("b", "HASH")], 1, 1),
        index("first", vec![key("a", "HASH")], 2, 2),
    ]);
    let out = extract_secondary_indexes(&IndexKind::Global, &Mode::Provisioned, &attrs, &gsi)
        .unwrap()
        .unwrap();
    assert_eq!(out[0].name, "second");
    assert_eq!(out[1].name, "first");
    assert_eq!(out[1].schema.pk, "a (S)");
}

#[test]
fn index_without_name_fails() {
    let attrs = vec![attr("a", "S")];
    let gsi = Some(vec![SecondaryIndexDescription {
        index_name: None,
        key_schema: Some(vec![key("a", "HASH")]),
        provisioned_throughput: None,
    }]);
    assert!(matches!(
        extract_secondary_indexes(&IndexKind::Global, &Mode::OnDemand, &attrs, &gsi),
        Err(ControlError::MissingField)
    ));
}

#[test]
fn stream_absent_and_present() {
    assert_eq!(extract_stream(&None, &None), Ok(None));
    let spec = Some(StreamSpecification { stream_view_type: Some("NEW_IMAGE".to_string()) });
    assert_eq!(extract_stream(&Some("arn1".to_string()), &spec), Ok(Some("arn1 (NEW_IMAGE)".to_string())));
}

#[test]
fn stream_arn_without_view_type_fails() {
    assert_eq!(extract_stream(&Some("arn1".to_string()), &None), Err(ControlError::MissingField));
}

#[test]
fn epoch_zero_is_unix_epoch() {
    assert_eq!(epoch_to_rfc3339(0), Ok("1970-01-01T00:00:00+00:00".to_string()));
}

#[test]
fn epoch_later_value() {
    assert_eq!(epoch_to_rfc3339(1_597_410_967), Ok("2020-08-14T13:16:07+00:00".to_string()));
}

#[test]
fn epoch_out_of_range_fails() {
    assert_eq!(epoch_to_rfc3339(i64::MAX), Err(ControlError::TimestampOutOfRange));
}

#[test]
fn normalize_provisioned_table() {
    let t = normalize_table_description("us-west-2", &table(None)).unwrap();
    assert_eq!(t.name, "Music");
    assert_eq!(t.region, "us-west-2");
    assert_eq!(t.status, "ACTIVE");
    assert_eq!(t.schema.pk, "Artist (S)");
    assert_eq!(t.schema.sk, Some("Song (S)".to_string()));
    assert_eq!(t.mode, Mode::Provisioned);
    assert_eq!(t.capacity, Some(CapacityUnits { wcu: 7, rcu: 5 }));
    let gsi = t.gsi.unwrap();
    assert_eq!(gsi[0].name, "byYear");
    assert_eq!(gsi[0].schema.pk, "Year (N)");
    assert_eq!(gsi[0].capacity, Some(CapacityUnits { wcu: 2, rcu: 1 }));
    let lsi = t.lsi.unwrap();
    assert_eq!(lsi[0].schema.sk, Some("Year (N)".to_string()));
    assert_eq!(lsi[0].capacity, None);
    assert_eq!(t.stream, None);
    assert_eq!(t.count, 42);
    assert_eq!(t.size_bytes, 1024);
    assert_eq!(t.created_at, "1970-01-01T00:00:00+00:00");
}

#[test]
fn normalize_on_demand_table_hides_capacity() {
    let t = normalize_table_description("eu-west-1", &table(Some("PAY_PER_REQUEST"))).unwrap();
    assert_eq!(t.mode, Mode::OnDemand);
    assert_eq!(t.capacity, None);
    assert_eq!(t.gsi.unwrap()[0].capacity, None);
}

#[test]
fn normalize_with_stream() {
    let mut d = table(None);
    d.latest_stream_arn = Some("arn:stream".to_string());
    d.stream_specification = Some(StreamSpecification { stream_view_type: Some("KEYS_ONLY".to_string()) });
    let t = normalize_table_description("r", &d).unwrap();
    assert_eq!(t.stream, Some("arn:stream (KEYS_ONLY)".to_string()));
}

#[test]
fn normalize_missing_name_fails() {
    let mut d = table(None);
    d.table_name = None;
    assert!(matches!(normalize_table_description("r", &d), Err(ControlError::MissingField)));
}

#[test]
fn normalize_unresolved_key_fails() {
    let mut d = table(None);
    d.attribute_definitions = Some(vec![attr("Song", "S")]);
    assert!(matches!(normalize_table_description("r", &d), Err(ControlError::UnresolvedKey)));
}

#[test]
fn normalize_provisioned_without_capacity_fails() {
    let mut d = table(None);
    d.provisioned_throughput = None;
    assert!(matches!(normalize_table_description("r", &d), Err(ControlError::MissingCapacity)));
}

#[test]
fn output_format_yaml_or_default() {
    assert_eq!(check_output_format(&None), Ok(()));
    assert_eq!(check_output_format(&Some("yaml".to_string())), Ok(()));
    assert_eq!(check_output_format(&Some("json".to_string())), Err(ControlError::UnsupportedOutput));
    assert_eq!(ControlError::UnsupportedOutput.exit_code(), 1);
}
