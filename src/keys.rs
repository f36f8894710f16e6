//! Key specifiers of the form `name[,TYPE]`, and the key schema and
//! attribute definitions that they declare for a new table or index.
use vstd::prelude::*;
use crate::describe::{hash_tag, on_demand_tag, range_tag};
use crate::model::{AttributeDefinition, ControlError, KeySchemaElement};
use crate::search::{first_index, lemma_first_index_is, lemma_first_index_none};
use crate::text::{to_upper, upper_of};

verus! {

/// A comma.
pub open spec fn is_comma() -> spec_fn(char) -> bool {
    |c: char| c == ','
}

/// A string without commas.
pub open spec fn comma_free(s: Seq<char>) -> bool {
    forall|k: int| 0 <= k < s.len() ==> s[k] != ','
}

/// The attribute name and type that a key specifier declares: without a
/// comma the whole text is the name and the type is `S`; with one comma the
/// type is what follows it, upper-cased; with more, the specifier is invalid.
pub open spec fn spec_key_spec(s: Seq<char>) -> Option<(Seq<char>, Seq<char>)> {
    match first_index(s, is_comma()) {
        None => Some((s, seq!['S'])),
        Some(i) => if comma_free(s.skip(i + 1)) {
            Some((s.take(i), upper_of(s.skip(i + 1))))
        } else {
            None
        },
    }
}

/// Splits one key specifier into its attribute name and type.
pub fn parse_key_spec(spec: &str) -> (r: Result<(String, String), ControlError>)
    ensures
        match r {
            Ok((name, kind)) => spec_key_spec(spec@) == Some((name@, kind@)),
            Err(e) => spec_key_spec(spec@) is None && e == ControlError::InvalidKeyFormat,
        },
{
    let n = spec.unicode_len();
    let mut i: usize = 0;
    while i < n && spec.get_char(i) != ','
        invariant
            n == spec@.len(),
            i <= n,
            forall|k: int| 0 <= k < i ==> !is_comma()(#[trigger] spec@[k]),
        decreases n - i,
    {
        i = i + 1;
    }
    if i == n {
        proof {
            lemma_first_index_none(spec@, is_comma());
            reveal_strlit("S");
        }
        assert("S"@ =~= seq!['S']);
        return Ok((String::from_str(spec), String::from_str("S")));
    }
    proof {
        lemma_first_index_is(spec@, is_comma(), i as int);
    }
    let mut j: usize = i + 1;
    while j < n
        invariant
            n == spec@.len(),
            i < n,
            i + 1 <= j <= n,
            first_index(spec@, is_comma()) == Some(i as int),
            forall|k: int| i + 1 <= k < j ==> spec@[k] != ',',
        decreases n - j,
    {
        if spec.get_char(j) == ',' {
            assert(spec@.skip(i + 1)[j - i - 1] == ',');
            return Err(ControlError::InvalidKeyFormat);
        }
        j = j + 1;
    }
    assert(comma_free(spec@.skip(i + 1)));
    let name = spec.substring_char(0, i);
    let rest = spec.substring_char(i + 1, n);
    assert(name@ =~= spec@.take(i as int));
    assert(rest@ =~= spec@.skip(i + 1));
    Ok((String::from_str(name), to_upper(rest)))
}

/// The attribute name that a valid key specifier declares.
pub open spec fn spec_key_name(s: Seq<char>) -> Seq<char> {
    match spec_key_spec(s) {
        Some((n, _)) => n,
        None => Seq::empty(),
    }
}

/// The key schema, as (name, role) pairs, that valid key specifiers declare.
pub open spec fn spec_key_schema(keys: Seq<Seq<char>>) -> Seq<(Seq<char>, Seq<char>)> {
    Seq::new(
        keys.len(),
        |i: int|
            (
                spec_key_name(keys[i]),
                if i == 0 {
                    hash_tag()
                } else {
                    range_tag()
                },
            ),
    )
}

/// The key schema and attribute definitions that a list of key specifiers
/// declares: the first is the partition key, the second the sort key.
pub open spec fn spec_key_definitions(keys: Seq<Seq<char>>) -> Result<
    (Seq<(Seq<char>, Seq<char>)>, Seq<(Seq<char>, Seq<char>)>),
    ControlError,
> {
    if keys.len() == 0 || keys.len() > 2 {
        Err(ControlError::InvalidKeyCount)
    } else if exists|k: int| 0 <= k < keys.len() && spec_key_spec(#[trigger] keys[k]) is None {
        Err(ControlError::InvalidKeyFormat)
    } else {
        Ok((spec_key_schema(keys), Seq::new(keys.len(), |i: int| spec_key_spec(keys[i])->0)))
    }
}

/// The view of key schema entries as (name, role) pairs.
pub open spec fn key_schema_view(ks: Seq<KeySchemaElement>) -> Seq<(Seq<char>, Seq<char>)> {
    ks.map_values(|k: KeySchemaElement| (k.attribute_name@, k.key_type@))
}

/// The view of attribute definitions as (name, type) pairs.
pub open spec fn attribute_view(ad: Seq<AttributeDefinition>) -> Seq<(Seq<char>, Seq<char>)> {
    ad.map_values(|a: AttributeDefinition| (a.attribute_name@, a.attribute_type@))
}

/// The views of a list of strings.
pub open spec fn strings_view(v: Seq<String>) -> Seq<Seq<char>> {
    v.map_values(|s: String| s@)
}

/// `ks` and `ad` are the key schema and attribute definitions that `keys` declare.
pub open spec fn declares(
    keys: Seq<Seq<char>>,
    ks: Seq<KeySchemaElement>,
    ad: Seq<AttributeDefinition>,
) -> bool {
    &&& spec_key_definitions(keys) is Ok
    &&& key_schema_view(ks) == spec_key_schema(keys)
    &&& ad.len() == keys.len()
    &&& forall|i: int|
        0 <= i < ad.len() ==> spec_key_spec(keys[i]) == Some(
            ((#[trigger] ad[i]).attribute_name@, ad[i].attribute_type@),
        )
}

/// Builds the key schema and attribute definitions from one or two key
/// specifiers.
pub fn generate_essential_key_definitions(given_keys: &Vec<String>) -> (r: Result<
    (Vec<KeySchemaElement>, Vec<AttributeDefinition>),
    ControlError,
>)
    ensures
        match r {
            Ok((ks, ad)) => declares(strings_view(given_keys@), ks@, ad@),
            Err(e) => spec_key_definitions(strings_view(given_keys@)) == Err::<
                (Seq<(Seq<char>, Seq<char>)>, Seq<(Seq<char>, Seq<char>)>),
                ControlError,
            >(e),
        },
{
    let ghost keys = strings_view(given_keys@);
    if given_keys.len() == 0 || given_keys.len() > 2 {
        return Err(ControlError::InvalidKeyCount);
    }
    let mut key_schema: Vec<KeySchemaElement> = Vec::new();
    let mut attribute_definitions: Vec<AttributeDefinition> = Vec::new();
    let mut i: usize = 0;
    while i < given_keys.len()
        invariant
            keys == strings_view(given_keys@),
            1 <= given_keys@.len() <= 2,
            i <= given_keys@.len(),
            key_schema@.len() == i,
            attribute_definitions@.len() == i,
            forall|k: int|
                0 <= k < i ==> spec_key_spec(#[trigger] given_keys@[k]@) == Some(
                    (key_schema@[k].attribute_name@, attribute_definitions@[k].attribute_type@),
                ) && attribute_definitions@[k].attribute_name@ == key_schema@[k].attribute_name@
                    && key_schema@[k].key_type@ == if k == 0 {
                    hash_tag()
                } else {
                    range_tag()
                },
        decreases given_keys@.len() - i,
    {
        let (name, kind) = match parse_key_spec(given_keys[i].as_str()) {
            Ok(p) => p,
            Err(e) => {
                assert(spec_key_spec(keys[i as int]) is None);
                return Err(e);
            },
        };
        proof {
            reveal_strlit("HASH");
            reveal_strlit("RANGE");
        }
        let role = if i == 0 {
            "HASH"
        } else {
            "RANGE"
        };
        assert(role@ =~= if i == 0 {
            hash_tag()
        } else {
            range_tag()
        });
        key_schema.push(
            KeySchemaElement { attribute_name: name.clone(), key_type: String::from_str(role) },
        );
        attribute_definitions.push(AttributeDefinition { attribute_name: name, attribute_type: kind });
        i = i + 1;
    }
    assert(!exists|k: int| 0 <= k < keys.len() && spec_key_spec(#[trigger] keys[k]) is None) by {
        assert forall|k: int| 0 <= k < keys.len() implies spec_key_spec(#[trigger] keys[k]) is Some by {
            assert(keys[k] == given_keys@[k]@);
        }
    }
    assert(key_schema_view(key_schema@) =~= spec_key_schema(keys));
    assert forall|k: int| 0 <= k < attribute_definitions@.len() implies spec_key_spec(keys[k]) == Some(
        (
            (#[trigger] attribute_definitions@[k]).attribute_name@,
            attribute_definitions@[k].attribute_type@,
        ),
    ) by {
        assert(keys[k] == given_keys@[k]@);
    }
    Ok((key_schema, attribute_definitions))
}


/// A request to create an on-demand table.
pub struct CreateTableRequest {
    pub table_name: String,
    pub billing_mode: String,
    pub key_schema: Vec<KeySchemaElement>,
    pub attribute_definitions: Vec<AttributeDefinition>,
}

/// A request to add a global index, projecting all attributes, to a table.
pub struct CreateIndexRequest {
    pub table_name: String,
    pub index_name: String,
    pub key_schema: Vec<KeySchemaElement>,
    pub attribute_definitions: Vec<AttributeDefinition>,
    pub projection_type: String,
}

/// Builds the request that creates table `name`, billed on demand, with the
/// keys that `given_keys` declare. Bad key specifiers give an error, and no
/// request.
pub fn create_table_request(name: &str, given_keys: &Vec<String>) -> (r: Result<
    CreateTableRequest,
    ControlError,
>)
    ensures
        match r {
            Ok(q) => q.table_name@ == name@ && q.billing_mode@ == on_demand_tag() && declares(
                strings_view(given_keys@),
                q.key_schema@,
                q.attribute_definitions@,
            ),
            Err(e) => spec_key_definitions(strings_view(given_keys@)) == Err::<
                (Seq<(Seq<char>, Seq<char>)>, Seq<(Seq<char>, Seq<char>)>),
                ControlError,
            >(e),
        },
{
    let (key_schema, attribute_definitions) = match generate_essential_key_definitions(given_keys) {
        Ok(p) => p,
        Err(e) => {
            return Err(e);
        },
    };
    proof {
        reveal_strlit("PAY_PER_REQUEST");
    }
    assert("PAY_PER_REQUEST"@ =~= on_demand_tag());
    Ok(
        CreateTableRequest {
            table_name: String::from_str(name),
            billing_mode: String::from_str("PAY_PER_REQUEST"),
            key_schema,
            attribute_definitions,
        },
    )
}

/// The projection that created indexes use.
pub open spec fn all_tag() -> Seq<char> {
    seq!['A', 'L', 'L']
}

/// Builds the request that adds global index `index_name` to `table_name`,
/// with the keys that `given_keys` declare and all attributes projected. Bad
/// key specifiers give an error, and no request.
pub fn create_index_request(table_name: &str, index_name: &str, given_keys: &Vec<String>) -> (r:
    Result<CreateIndexRequest, ControlError>)
    ensures
        match r {
            Ok(q) => q.table_name@ == table_name@ && q.index_name@ == index_name@
                && q.projection_type@ == all_tag() && declares(
                strings_view(given_keys@),
                q.key_schema@,
                q.attribute_definitions@,
            ),
            Err(e) => spec_key_definitions(strings_view(given_keys@)) == Err::<
                (Seq<(Seq<char>, Seq<char>)>, Seq<(Seq<char>, Seq<char>)>),
                ControlError,
            >(e),
        },
{
    let (key_schema, attribute_definitions) = match generate_essential_key_definitions(given_keys) {
        Ok(p) => p,
        Err(e) => {
            return Err(e);
        },
    };
    proof {
        reveal_strlit("ALL");
    }
    assert("ALL"@ =~= all_tag());
    Ok(
        CreateIndexRequest {
            table_name: String::from_str(table_name),
            index_name: String::from_str(index_name),
            key_schema,
            attribute_definitions,
            projection_type: String::from_str("ALL"),
        },
    )
}

} // verus!
