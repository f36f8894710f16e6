//! Normalization of a raw table description: billing mode, capacity, key
//! schema, secondary indexes and stream.
use vstd::prelude::*;
use crate::model::{
    AttributeDefinition, BillingModeSummary, CapacityUnits, ControlError, IndexKind,
    KeySchemaElement, Mode, PrimaryKeys, ProvisionedThroughputDescription, SecondaryIndex,
    SecondaryIndexDescription, StreamSpecification, TypedKey, opt_view,
};
use crate::search::{first_index, lemma_first_index_is, lemma_first_index_none};
use crate::text::{join_note, str_eq, with_note};

verus! {

/// The billing-mode value that marks an on-demand table.
pub open spec fn on_demand_tag() -> Seq<char> {
    seq!['P', 'A', 'Y', '_', 'P', 'E', 'R', '_', 'R', 'E', 'Q', 'U', 'E', 'S', 'T']
}

/// The role tag of a partition key.
pub open spec fn hash_tag() -> Seq<char> {
    seq!['H', 'A', 'S', 'H']
}

/// The role tag of a sort key.
pub open spec fn range_tag() -> Seq<char> {
    seq!['R', 'A', 'N', 'G', 'E']
}

/// The billing mode that a summary describes.
pub open spec fn spec_mode(bs: Option<BillingModeSummary>) -> Mode {
    match bs {
        Some(s) => match s.billing_mode {
            Some(m) => if m@ == on_demand_tag() {
                Mode::OnDemand
            } else {
                Mode::Provisioned
            },
            None => Mode::Provisioned,
        },
        None => Mode::Provisioned,
    }
}

/// Determines the billing mode: on-demand exactly when a summary is present
/// and names on-demand billing.
pub fn extract_mode(bs: &Option<BillingModeSummary>) -> (r: Mode)
    ensures
        r == spec_mode(*bs),
{
    match bs {
        None => Mode::Provisioned,
        Some(x) => match &x.billing_mode {
            None => Mode::Provisioned,
            Some(m) => {
                proof {
                    reveal_strlit("PAY_PER_REQUEST");
                }
                assert("PAY_PER_REQUEST"@ =~= on_demand_tag());
                if str_eq(m.as_str(), "PAY_PER_REQUEST") {
                    Mode::OnDemand
                } else {
                    Mode::Provisioned
                }
            },
        },
    }
}

/// The visible capacity: `Some(None)` when there is none to show,
/// `Some(Some(c))` for capacity `c`, and `None` where a provisioned
/// description lacks it.
pub open spec fn spec_capacity(
    mode: Mode,
    desc: Option<ProvisionedThroughputDescription>,
) -> Option<Option<CapacityUnits>> {
    if mode == Mode::OnDemand {
        Some(None)
    } else {
        match desc {
            Some(d) => match (d.read_capacity_units, d.write_capacity_units) {
                (Some(r), Some(w)) => Some(Some(CapacityUnits { wcu: w, rcu: r })),
                _ => None,
            },
            None => None,
        }
    }
}

/// Derives the capacity to show, gated by the billing mode.
pub fn extract_capacity(mode: &Mode, cap_desc: &Option<ProvisionedThroughputDescription>) -> (r:
    Result<Option<CapacityUnits>, ControlError>)
    ensures
        match r {
            Ok(c) => spec_capacity(*mode, *cap_desc) == Some(c),
            Err(e) => spec_capacity(*mode, *cap_desc) is None && e == ControlError::MissingCapacity,
        },
        *mode == Mode::OnDemand ==> r == Ok::<Option<CapacityUnits>, ControlError>(None),
        *mode == Mode::Provisioned && cap_desc is Some && cap_desc->0.read_capacity_units is Some
            && cap_desc->0.write_capacity_units is Some ==> r == Ok::<
            Option<CapacityUnits>,
            ControlError,
        >(
            Some(
                (CapacityUnits {
                    wcu: cap_desc->0.write_capacity_units->0,
                    rcu: cap_desc->0.read_capacity_units->0,
                }),
            ),
        ),
{
    if *mode == Mode::OnDemand {
        return Ok(None);
    }
    match cap_desc {
        Some(d) => match (d.read_capacity_units, d.write_capacity_units) {
            (Some(r), Some(w)) => Ok(Some(CapacityUnits { wcu: w, rcu: r })),
            _ => Err(ControlError::MissingCapacity),
        },
        None => Err(ControlError::MissingCapacity),
    }
}


/// Which key of a schema is asked for.
#[derive(Clone, Copy, Debug, PartialEq, Eq, Structural)]
pub enum KeyRole {
    Partition,
    Sort,
}

/// The tag that marks a role in a key schema.
pub open spec fn role_tag(role: KeyRole) -> Seq<char> {
    match role {
        KeyRole::Partition => hash_tag(),
        KeyRole::Sort => range_tag(),
    }
}

/// A schema entry with the given role tag.
pub open spec fn has_role(tag: Seq<char>) -> spec_fn(KeySchemaElement) -> bool {
    |k: KeySchemaElement| k.key_type@ == tag
}

/// An attribute definition of the given name.
pub open spec fn defines(name: Seq<char>) -> spec_fn(AttributeDefinition) -> bool {
    |a: AttributeDefinition| a.attribute_name@ == name
}

/// Resolves a role to a typed key: `Some(None)` when the schema has no entry
/// of that role, `Some(Some((name, type)))` from the first entry of the role and
/// the first definition of its attribute, and `None` when that attribute has no
/// definition.
pub open spec fn resolve_key(
    role: KeyRole,
    ks: Seq<KeySchemaElement>,
    attrs: Seq<AttributeDefinition>,
) -> Option<Option<(Seq<char>, Seq<char>)>> {
    match first_index(ks, has_role(role_tag(role))) {
        None => Some(None),
        Some(i) => match first_index(attrs, defines(ks[i].attribute_name@)) {
            None => None,
            Some(j) => Some(Some((ks[i].attribute_name@, attrs[j].attribute_type@))),
        },
    }
}

/// The shown partition and sort keys of a schema, or the error that resolving
/// them meets.
pub open spec fn spec_primary_keys(
    ks: Seq<KeySchemaElement>,
    attrs: Seq<AttributeDefinition>,
) -> Result<(Seq<char>, Option<Seq<char>>), ControlError> {
    match resolve_key(KeyRole::Partition, ks, attrs) {
        None => Err(ControlError::UnresolvedKey),
        Some(None) => Err(ControlError::MissingPartitionKey),
        Some(Some((n, t))) => match resolve_key(KeyRole::Sort, ks, attrs) {
            None => Err(ControlError::UnresolvedKey),
            Some(None) => Ok((with_note(n, t), None)),
            Some(Some((sn, st))) => Ok((with_note(n, t), Some(with_note(sn, st)))),
        },
    }
}

impl TypedKey {
    /// The key as shown: `name (TYPE)`.
    pub fn display(&self) -> (r: String)
        ensures
            r@ == with_note(self.name@, self.kind@),
    {
        join_note(self.name.as_str(), self.kind.as_str())
    }
}

fn find_role(ks: &Vec<KeySchemaElement>, tag: &str) -> (r: Option<usize>)
    ensures
        match r {
            Some(i) => i < ks@.len() && first_index(ks@, has_role(tag@)) == Some(i as int),
            None => first_index(ks@, has_role(tag@)) is None,
        },
{
    let mut i: usize = 0;
    while i < ks.len()
        invariant
            i <= ks@.len(),
            forall|j: int| 0 <= j < i ==> !has_role(tag@)(#[trigger] ks@[j]),
        decreases ks@.len() - i,
    {
        if str_eq(ks[i].key_type.as_str(), tag) {
            proof {
                lemma_first_index_is(ks@, has_role(tag@), i as int);
            }
            return Some(i);
        }
        i = i + 1;
    }
    proof {
        lemma_first_index_none(ks@, has_role(tag@));
    }
    None
}

fn find_definition(attrs: &Vec<AttributeDefinition>, name: &str) -> (r: Option<usize>)
    ensures
        match r {
            Some(i) => i < attrs@.len() && first_index(attrs@, defines(name@)) == Some(i as int),
            None => first_index(attrs@, defines(name@)) is None,
        },
{
    let mut i: usize = 0;
    while i < attrs.len()
        invariant
            i <= attrs@.len(),
            forall|j: int| 0 <= j < i ==> !defines(name@)(#[trigger] attrs@[j]),
        decreases attrs@.len() - i,
    {
        if str_eq(attrs[i].attribute_name.as_str(), name) {
            proof {
                lemma_first_index_is(attrs@, defines(name@), i as int);
            }
            return Some(i);
        }
        i = i + 1;
    }
    proof {
        lemma_first_index_none(attrs@, defines(name@));
    }
    None
}

/// Finds the key of the given role in a schema and types it from the
/// attribute definitions.
pub fn typed_key_for_schema(
    role: KeyRole,
    ks: &Vec<KeySchemaElement>,
    attrs: &Vec<AttributeDefinition>,
) -> (r: Result<Option<TypedKey>, ControlError>)
    ensures
        match r {
            Ok(Some(k)) => resolve_key(role, ks@, attrs@) == Some(Some(k@)),
            Ok(None) => resolve_key(role, ks@, attrs@) == Some(None::<(Seq<char>, Seq<char>)>),
            Err(e) => resolve_key(role, ks@, attrs@) is None && e == ControlError::UnresolvedKey,
        },
{
    proof {
        reveal_strlit("HASH");
        reveal_strlit("RANGE");
    }
    let tag = match role {
        KeyRole::Partition => "HASH",
        KeyRole::Sort => "RANGE",
    };
    assert(tag@ =~= role_tag(role));
    match find_role(ks, tag) {
        None => Ok(None),
        Some(i) => {
            let name = &ks[i].attribute_name;
            match find_definition(attrs, name.as_str()) {
                None => Err(ControlError::UnresolvedKey),
                Some(j) => Ok(
                    Some(TypedKey { name: name.clone(), kind: attrs[j].attribute_type.clone() }),
                ),
            }
        },
    }
}

/// Resolves the partition key, which must be there, and the sort key, which
/// may not, into their shown form.
pub fn primary_keys(ks: &Vec<KeySchemaElement>, attrs: &Vec<AttributeDefinition>) -> (r: Result<
    PrimaryKeys,
    ControlError,
>)
    ensures
        match r {
            Ok(p) => spec_primary_keys(ks@, attrs@) == Ok::<_, ControlError>(p@),
            Err(e) => spec_primary_keys(ks@, attrs@) == Err::<(Seq<char>, Option<Seq<char>>), _>(e),
        },
{
    let pk = match typed_key_for_schema(KeyRole::Partition, ks, attrs) {
        Err(e) => {
            return Err(e);
        },
        Ok(None) => {
            return Err(ControlError::MissingPartitionKey);
        },
        Ok(Some(k)) => k,
    };
    let sk = match typed_key_for_schema(KeyRole::Sort, ks, attrs) {
        Err(e) => {
            return Err(e);
        },
        Ok(None) => None,
        Ok(Some(k)) => Some(k.display()),
    };
    Ok(PrimaryKeys { pk: pk.display(), sk })
}


/// The capacity that an index reports: a global index follows the table's
/// billing mode, a local one never has capacity of its own.
pub open spec fn spec_index_capacity(
    kind: IndexKind,
    mode: Mode,
    idx: SecondaryIndexDescription,
) -> Option<Option<CapacityUnits>> {
    match kind {
        IndexKind::Global => spec_capacity(mode, idx.provisioned_throughput),
        IndexKind::Local => Some(None),
    }
}

/// The normalized form of one index: its name, shown keys and capacity.
pub open spec fn spec_index(
    kind: IndexKind,
    mode: Mode,
    attrs: Seq<AttributeDefinition>,
    idx: SecondaryIndexDescription,
) -> Result<(Seq<char>, (Seq<char>, Option<Seq<char>>), Option<CapacityUnits>), ControlError> {
    match idx.index_name {
        None => Err(ControlError::MissingField),
        Some(n) => match idx.key_schema {
            None => Err(ControlError::MissingField),
            Some(ks) => match spec_primary_keys(ks@, attrs) {
                Err(e) => Err(e),
                Ok(p) => match spec_index_capacity(kind, mode, idx) {
                    None => Err(ControlError::MissingCapacity),
                    Some(c) => Ok((n@, p, c)),
                },
            },
        },
    }
}

impl SecondaryIndexDescription {
    /// The name of the index.
    pub fn retrieve_index_name(&self) -> (r: &Option<String>)
        ensures
            *r == self.index_name,
    {
        &self.index_name
    }

    /// The key schema of the index.
    pub fn retrieve_key_schema(&self) -> (r: &Option<Vec<KeySchemaElement>>)
        ensures
            *r == self.key_schema,
    {
        &self.key_schema
    }

}

impl IndexKind {
    /// The capacity that an index of this kind shows under the table's billing mode.
    pub fn extract_index_capacity(&self, idx: &SecondaryIndexDescription, m: &Mode) -> (r: Result<
        Option<CapacityUnits>,
        ControlError,
    >)
        ensures
            match r {
                Ok(c) => spec_index_capacity(*self, *m, *idx) == Some(c),
                Err(e) => spec_index_capacity(*self, *m, *idx) is None && e
                    == ControlError::MissingCapacity,
            },
            *self == IndexKind::Local ==> r == Ok::<Option<CapacityUnits>, ControlError>(None),
    {
        match self {
            IndexKind::Global => extract_capacity(m, &idx.provisioned_throughput),
            IndexKind::Local => Ok(None),
        }
    }
}

/// Normalizes one index.
pub fn normalize_index(
    kind: &IndexKind,
    mode: &Mode,
    attr_defs: &Vec<AttributeDefinition>,
    idx: &SecondaryIndexDescription,
) -> (r: Result<SecondaryIndex, ControlError>)
    ensures
        match r {
            Ok(x) => spec_index(*kind, *mode, attr_defs@, *idx) == Ok::<_, ControlError>(x@),
            Err(e) => spec_index(*kind, *mode, attr_defs@, *idx) == Err::<
                (Seq<char>, (Seq<char>, Option<Seq<char>>), Option<CapacityUnits>),
                _,
            >(e),
        },
{
    let name = match idx.retrieve_index_name() {
        None => {
            return Err(ControlError::MissingField);
        },
        Some(n) => n.clone(),
    };
    let ks = match idx.retrieve_key_schema() {
        None => {
            return Err(ControlError::MissingField);
        },
        Some(ks) => ks,
    };
    let schema = match primary_keys(ks, attr_defs) {
        Err(e) => {
            return Err(e);
        },
        Ok(p) => p,
    };
    match kind.extract_index_capacity(idx, mode) {
        Err(e) => Err(e),
        Ok(capacity) => Ok(SecondaryIndex { name, schema, capacity }),
    }
}

/// An index that cannot be normalized.
pub open spec fn index_fails(
    kind: IndexKind,
    mode: Mode,
    attrs: Seq<AttributeDefinition>,
) -> spec_fn(SecondaryIndexDescription) -> bool {
    |x: SecondaryIndexDescription| spec_index(kind, mode, attrs, x) is Err
}

/// The error of the first index of a list that cannot be normalized, if any.
pub open spec fn spec_indexes_error(
    kind: IndexKind,
    mode: Mode,
    attrs: Seq<AttributeDefinition>,
    indexes: Option<Vec<SecondaryIndexDescription>>,
) -> Option<ControlError> {
    match indexes {
        None => None,
        Some(v) => match first_index(v@, index_fails(kind, mode, attrs)) {
            None => None,
            Some(i) => match spec_index(kind, mode, attrs, v@[i]) {
                Err(e) => Some(e),
                Ok(_) => None,
            },
        },
    }
}

/// The normalized form of a list of indexes, where none fails.
pub open spec fn spec_indexes(
    kind: IndexKind,
    mode: Mode,
    attrs: Seq<AttributeDefinition>,
    indexes: Option<Vec<SecondaryIndexDescription>>,
) -> Option<Seq<(Seq<char>, (Seq<char>, Option<Seq<char>>), Option<CapacityUnits>)>> {
    match indexes {
        None => None,
        Some(v) => Some(v@.map_values(|x: SecondaryIndexDescription| spec_index(kind, mode, attrs, x)->Ok_0)),
    }
}

/// The view of an optional list of normalized indexes.
pub open spec fn indexes_view(o: Option<Vec<SecondaryIndex>>) -> Option<
    Seq<(Seq<char>, (Seq<char>, Option<Seq<char>>), Option<CapacityUnits>)>,
> {
    match o {
        None => None,
        Some(v) => Some(v@.map_values(|x: SecondaryIndex| x@)),
    }
}

/// Normalizes a list of indexes of one kind, in order; absent stays absent.
/// Fails with the error of the first index that cannot be normalized.
pub fn extract_secondary_indexes(
    kind: &IndexKind,
    mode: &Mode,
    attr_defs: &Vec<AttributeDefinition>,
    indexes: &Option<Vec<SecondaryIndexDescription>>,
) -> (r: Result<Option<Vec<SecondaryIndex>>, ControlError>)
    ensures
        indexes is None ==> r matches Ok(None),
        match r {
            Ok(o) => spec_indexes_error(*kind, *mode, attr_defs@, *indexes) is None && indexes_view(o)
                == spec_indexes(*kind, *mode, attr_defs@, *indexes),
            Err(e) => spec_indexes_error(*kind, *mode, attr_defs@, *indexes) == Some(e),
        },
        r matches Ok(Some(v)) ==> indexes is Some && v@.len() == indexes->0@.len() && forall|i: int|
            0 <= i < v@.len() ==> spec_index(*kind, *mode, attr_defs@, indexes->0@[i]) == Ok::<
                _,
                ControlError,
            >(#[trigger] v@[i]@),
        *kind == IndexKind::Local ==> (r matches Ok(Some(v)) ==> forall|i: int|
            0 <= i < v@.len() ==> (#[trigger] v@[i]).capacity is None),
{
    match indexes {
        None => Ok(None),
        Some(idxs) => {
            let mut xs: Vec<SecondaryIndex> = Vec::new();
            let mut i: usize = 0;
            while i < idxs.len()
                invariant
                    *indexes == Some::<Vec<SecondaryIndexDescription>>(*idxs),
                    i <= idxs@.len(),
                    xs@.len() == i,
                    forall|k: int|
                        0 <= k < i ==> spec_index(*kind, *mode, attr_defs@, idxs@[k]) == Ok::<
                            _,
                            ControlError,
                        >(#[trigger] xs@[k]@),
                decreases idxs@.len() - i,
            {
                match normalize_index(kind, mode, attr_defs, &idxs[i]) {
                    Err(e) => {
                        proof {
                            assert forall|k: int| 0 <= k < i implies !index_fails(
                                *kind,
                                *mode,
                                attr_defs@,
                            )(#[trigger] idxs@[k]) by {
                                assert(spec_index(*kind, *mode, attr_defs@, idxs@[k]) == Ok::<
                                    _,
                                    ControlError,
                                >(xs@[k]@));
                            }
                            lemma_first_index_is(idxs@, index_fails(*kind, *mode, attr_defs@), i as int);
                        }
                        return Err(e);
                    },
                    Ok(x) => {
                        xs.push(x);
                    },
                }
                i = i + 1;
            }
            proof {
                assert forall|k: int| 0 <= k < idxs@.len() implies !index_fails(*kind, *mode, attr_defs@)(
                    #[trigger] idxs@[k],
                ) by {
                    assert(spec_index(*kind, *mode, attr_defs@, idxs@[k]) == Ok::<_, ControlError>(
                        xs@[k]@,
                    ));
                }
                lemma_first_index_none(idxs@, index_fails(*kind, *mode, attr_defs@));
                assert(xs@.map_values(|x: SecondaryIndex| x@) =~= idxs@.map_values(
                    |x: SecondaryIndexDescription| spec_index(*kind, *mode, attr_defs@, x)->Ok_0,
                ));
            }
            assert forall|k: int| 0 <= k < xs@.len() && *kind == IndexKind::Local implies (
            #[trigger] xs@[k]).capacity is None by {
                assert(spec_index(*kind, *mode, attr_defs@, idxs@[k]) == Ok::<_, ControlError>(xs@[k]@));
            }
            Ok(Some(xs))
        },
    }
}

/// The stream shown for a table: `Some(None)` without a stream ARN,
/// `Some(Some("arn (VIEW_TYPE)"))` with one, and `None` where the view type
/// that must accompany an ARN is missing.
pub open spec fn spec_stream(
    arn: Option<String>,
    spec: Option<StreamSpecification>,
) -> Option<Option<Seq<char>>> {
    match arn {
        None => Some(None),
        Some(a) => match spec {
            Some(s) => match s.stream_view_type {
                Some(v) => Some(Some(with_note(a@, v@))),
                None => None,
            },
            None => None,
        },
    }
}

/// Folds the stream ARN and view type into one description.
pub fn extract_stream(arn: &Option<String>, spec: &Option<StreamSpecification>) -> (r: Result<
    Option<String>,
    ControlError,
>)
    ensures
        match r {
            Ok(s) => spec_stream(*arn, *spec) == Some(opt_view(s)),
            Err(e) => spec_stream(*arn, *spec) is None && e == ControlError::MissingField,
        },
        arn is None ==> r == Ok::<Option<String>, ControlError>(None),
{
    match arn {
        None => Ok(None),
        Some(a) => match spec {
            Some(s) => match &s.stream_view_type {
                Some(v) => Ok(Some(join_note(a.as_str(), v.as_str()))),
                None => Err(ControlError::MissingField),
            },
            None => Err(ControlError::MissingField),
        },
    }
}

} // verus!
