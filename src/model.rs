//! The service's raw table and backup metadata, as plain values, and the
//! normalized records built from it.
use vstd::prelude::*;

verus! {

/// How a table's read and write capacity is billed.
#[derive(Clone, Copy, Debug, PartialEq, Eq, Structural)]
pub enum Mode {
    Provisioned,
    OnDemand,
}

/// The billing-mode summary of a table; absent on tables that predate on-demand billing.
pub struct BillingModeSummary {
    pub billing_mode: Option<String>,
}

/// The throughput that the service reports for a table or a global index.
pub struct ProvisionedThroughputDescription {
    pub read_capacity_units: Option<i64>,
    pub write_capacity_units: Option<i64>,
}

/// One entry of a key schema: an attribute and its role (`HASH` or `RANGE`).
pub struct KeySchemaElement {
    pub attribute_name: String,
    pub key_type: String,
}

/// The scalar type (`S`, `N` or `B`) of a key attribute.
pub struct AttributeDefinition {
    pub attribute_name: String,
    pub attribute_type: String,
}

/// The stream settings of a table.
pub struct StreamSpecification {
    pub stream_view_type: Option<String>,
}

/// The two kinds of secondary index.
#[derive(Clone, Copy, Debug, PartialEq, Eq, Structural)]
pub enum IndexKind {
    /// Has capacity of its own under provisioned billing.
    Global,
    /// Always shares the base table's throughput.
    Local,
}

/// A secondary index as the service describes it.
pub struct SecondaryIndexDescription {
    pub index_name: Option<String>,
    pub key_schema: Option<Vec<KeySchemaElement>>,
    pub provisioned_throughput: Option<ProvisionedThroughputDescription>,
}

/// A table as the service describes it. `creation_date_time` is in whole
/// seconds since the Unix epoch.
pub struct TableDescription {
    pub table_name: Option<String>,
    pub table_status: Option<String>,
    pub key_schema: Option<Vec<KeySchemaElement>>,
    pub attribute_definitions: Option<Vec<AttributeDefinition>>,
    pub billing_mode_summary: Option<BillingModeSummary>,
    pub provisioned_throughput: Option<ProvisionedThroughputDescription>,
    pub global_secondary_indexes: Option<Vec<SecondaryIndexDescription>>,
    pub local_secondary_indexes: Option<Vec<SecondaryIndexDescription>>,
    pub latest_stream_arn: Option<String>,
    pub stream_specification: Option<StreamSpecification>,
    pub item_count: Option<i64>,
    pub table_size_bytes: Option<i64>,
    pub creation_date_time: Option<i64>,
}

/// A backup as the service lists it. `backup_creation_date_time` is in whole
/// seconds since the Unix epoch.
pub struct BackupSummary {
    pub table_name: Option<String>,
    pub backup_name: Option<String>,
    pub backup_arn: Option<String>,
    pub backup_status: Option<String>,
    pub backup_size_bytes: Option<i64>,
    pub backup_creation_date_time: Option<i64>,
}

/// Read and write capacity units.
#[derive(Clone, Copy, Debug, PartialEq, Eq, Structural)]
pub struct CapacityUnits {
    pub wcu: i64,
    pub rcu: i64,
}

/// A key attribute with its scalar type.
pub struct TypedKey {
    pub name: String,
    pub kind: String,
}

impl View for TypedKey {
    type V = (Seq<char>, Seq<char>);

    open spec fn view(&self) -> (Seq<char>, Seq<char>) {
        (self.name@, self.kind@)
    }
}

/// The view of an optional string.
pub open spec fn opt_view(s: Option<String>) -> Option<Seq<char>> {
    match s {
        Some(x) => Some(x@),
        None => None,
    }
}

/// The partition key and optional sort key of a table or index, as shown.
pub struct PrimaryKeys {
    pub pk: String,
    pub sk: Option<String>,
}

impl View for PrimaryKeys {
    type V = (Seq<char>, Option<Seq<char>>);

    open spec fn view(&self) -> (Seq<char>, Option<Seq<char>>) {
        (self.pk@, opt_view(self.sk))
    }
}

/// A normalized secondary index.
pub struct SecondaryIndex {
    pub name: String,
    pub schema: PrimaryKeys,
    pub capacity: Option<CapacityUnits>,
}

impl View for SecondaryIndex {
    type V = (Seq<char>, (Seq<char>, Option<Seq<char>>), Option<CapacityUnits>);

    open spec fn view(&self) -> Self::V {
        (self.name@, self.schema@, self.capacity)
    }
}

/// The normalized description of one table.
pub struct NormalizedTableDescription {
    pub name: String,
    pub region: String,
    pub status: String,
    pub schema: PrimaryKeys,
    pub mode: Mode,
    pub capacity: Option<CapacityUnits>,
    pub gsi: Option<Vec<SecondaryIndex>>,
    pub lsi: Option<Vec<SecondaryIndex>>,
    pub stream: Option<String>,
    pub count: i64,
    pub size_bytes: i64,
    pub created_at: String,
}

/// What can go wrong in this library.
#[derive(Clone, Copy, Debug, PartialEq, Eq, Structural)]
pub enum ControlError {
    /// Not one or two key specifiers were given.
    InvalidKeyCount,
    /// A key specifier holds more than one comma.
    InvalidKeyFormat,
    /// An output format other than YAML was asked for.
    UnsupportedOutput,
    /// No eligible backup has the given name.
    BackupNotFound,
    /// A selection index beyond the list of eligible backups.
    InvalidSelection,
    /// The service left out a field that it always sends.
    MissingField,
    /// A provisioned table or global index came without its capacity.
    MissingCapacity,
    /// A key schema has no partition key.
    MissingPartitionKey,
    /// A key attribute has no type definition.
    UnresolvedKey,
    /// A timestamp outside the representable calendar range.
    TimestampOutOfRange,
}

impl ControlError {
    /// The process exit code that this error leads to.
    pub fn exit_code(&self) -> (r: i32)
        ensures
            r == 1,
    {
        1
    }
}

} // verus!
