//! The table description aggregator: one normalized record from one raw
//! description, and the choice of output format.
use vstd::prelude::*;
use crate::describe::{
    extract_capacity, extract_mode, extract_secondary_indexes, extract_stream, indexes_view,
    primary_keys, spec_capacity, spec_indexes, spec_indexes_error, spec_mode, spec_primary_keys,
    spec_stream,
};
use crate::model::{ControlError, IndexKind, NormalizedTableDescription, TableDescription, opt_view};
use crate::text::str_eq;
use crate::time::{epoch_to_rfc3339, in_calendar_range, rfc3339_of};

verus! {

/// A field that the service always sends is missing.
pub open spec fn lacks_field(desc: TableDescription) -> bool {
    desc.table_name is None || desc.table_status is None || desc.key_schema is None
        || desc.attribute_definitions is None || desc.item_count is None
        || desc.table_size_bytes is None || desc.creation_date_time is None
}

/// The first reason, in the order checked, why a description cannot be
/// normalized: missing fields, then the key schema, the table's capacity, the
/// global indexes, the local indexes and the stream.
pub open spec fn table_problem(desc: TableDescription) -> Option<ControlError> {
    if lacks_field(desc) {
        Some(ControlError::MissingField)
    } else {
        let attrs = desc.attribute_definitions->0@;
        let mode = spec_mode(desc.billing_mode_summary);
        let keys = spec_primary_keys(desc.key_schema->0@, attrs);
        if keys is Err {
            Some(keys->Err_0)
        } else if spec_capacity(mode, desc.provisioned_throughput) is None {
            Some(ControlError::MissingCapacity)
        } else if spec_indexes_error(
            IndexKind::Global,
            mode,
            attrs,
            desc.global_secondary_indexes,
        ) is Some {
            spec_indexes_error(IndexKind::Global, mode, attrs, desc.global_secondary_indexes)
        } else if spec_indexes_error(
            IndexKind::Local,
            mode,
            attrs,
            desc.local_secondary_indexes,
        ) is Some {
            spec_indexes_error(IndexKind::Local, mode, attrs, desc.local_secondary_indexes)
        } else if spec_stream(desc.latest_stream_arn, desc.stream_specification) is None {
            Some(ControlError::MissingField)
        } else {
            None
        }
    }
}

/// `t` is the normalized record of `desc` in `region`.
pub open spec fn normalizes(
    t: NormalizedTableDescription,
    region: Seq<char>,
    desc: TableDescription,
) -> bool {
    let attrs = desc.attribute_definitions->0@;
    let mode = spec_mode(desc.billing_mode_summary);
    &&& t.name@ == desc.table_name->0@
    &&& t.region@ == region
    &&& t.status@ == desc.table_status->0@
    &&& spec_primary_keys(desc.key_schema->0@, attrs) == Ok::<_, ControlError>(t.schema@)
    &&& t.mode == mode
    &&& spec_capacity(mode, desc.provisioned_throughput) == Some(t.capacity)
    &&& indexes_view(t.gsi) == spec_indexes(
        IndexKind::Global,
        mode,
        attrs,
        desc.global_secondary_indexes,
    )
    &&& indexes_view(t.lsi) == spec_indexes(
        IndexKind::Local,
        mode,
        attrs,
        desc.local_secondary_indexes,
    )
    &&& spec_stream(desc.latest_stream_arn, desc.stream_specification) == Some(opt_view(t.stream))
    &&& t.count == desc.item_count->0
    &&& t.size_bytes == desc.table_size_bytes->0
    &&& t.created_at@ == rfc3339_of(desc.creation_date_time->0 as int)
}

/// Builds the normalized record of a table description.
pub fn normalize_table_description(region: &str, desc: &TableDescription) -> (r: Result<
    NormalizedTableDescription,
    ControlError,
>)
    ensures
        match r {
            Ok(t) => table_problem(*desc) is None && normalizes(t, region@, *desc),
            Err(e) => table_problem(*desc) == Some(e) || (table_problem(*desc) is None && e
                == ControlError::TimestampOutOfRange && !in_calendar_range(
                desc.creation_date_time->0 as int,
            )),
        },
        table_problem(*desc) is None && in_calendar_range(desc.creation_date_time->0 as int)
            ==> r is Ok,
        r matches Ok(t) ==> (t.capacity is None <==> t.mode == crate::model::Mode::OnDemand),
        r matches Ok(t) ==> (t.lsi matches Some(v) ==> forall|i: int|
            0 <= i < v@.len() ==> (#[trigger] v@[i]).capacity is None),
{
    let (name, status, ks, attrs, count, size_bytes, created) = match (
        &desc.table_name,
        &desc.table_status,
        &desc.key_schema,
        &desc.attribute_definitions,
        desc.item_count,
        desc.table_size_bytes,
        desc.creation_date_time,
    ) {
        (Some(n), Some(s), Some(k), Some(a), Some(c), Some(b), Some(t)) => (n, s, k, a, c, b, t),
        _ => {
            return Err(ControlError::MissingField);
        },
    };
    let mode = extract_mode(&desc.billing_mode_summary);
    let schema = match primary_keys(ks, attrs) {
        Ok(p) => p,
        Err(e) => {
            return Err(e);
        },
    };
    let capacity = match extract_capacity(&mode, &desc.provisioned_throughput) {
        Ok(c) => c,
        Err(e) => {
            return Err(e);
        },
    };
    let gsi = match extract_secondary_indexes(
        &IndexKind::Global,
        &mode,
        attrs,
        &desc.global_secondary_indexes,
    ) {
        Ok(g) => g,
        Err(e) => {
            return Err(e);
        },
    };
    let lsi = match extract_secondary_indexes(
        &IndexKind::Local,
        &mode,
        attrs,
        &desc.local_secondary_indexes,
    ) {
        Ok(l) => l,
        Err(e) => {
            return Err(e);
        },
    };
    let stream = match extract_stream(&desc.latest_stream_arn, &desc.stream_specification) {
        Ok(s) => s,
        Err(e) => {
            return Err(e);
        },
    };
    let created_at = match epoch_to_rfc3339(created) {
        Ok(s) => s,
        Err(e) => {
            return Err(e);
        },
    };
    Ok(
        NormalizedTableDescription {
            name: name.clone(),
            region: String::from_str(region),
            status: status.clone(),
            schema,
            mode,
            capacity,
            gsi,
            lsi,
            stream,
            count,
            size_bytes,
            created_at,
        },
    )
}

/// Whether an output format can be rendered: only the default and `yaml`.
pub open spec fn supported_output(output: Option<Seq<char>>) -> bool {
    match output {
        None => true,
        Some(o) => o == seq!['y', 'a', 'm', 'l'],
    }
}

/// Accepts the default output format and `yaml`; any other is a caller error.
pub fn check_output_format(output: &Option<String>) -> (r: Result<(), ControlError>)
    ensures
        r is Ok <==> supported_output(opt_view(*output)),
        r matches Err(e) ==> e == ControlError::UnsupportedOutput,
{
    match output {
        None => Ok(()),
        Some(o) => {
            proof {
                reveal_strlit("yaml");
            }
            assert("yaml"@ =~= seq!['y', 'a', 'm', 'l']);
            if str_eq(o.as_str(), "yaml") {
                Ok(())
            } else {
                Err(ControlError::UnsupportedOutput)
            }
        },
    }
}

} // verus!
