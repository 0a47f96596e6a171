use vstd::prelude::*;

use crate::ast::operation_visitor::OperationVisitorContext;
use crate::static_graphql::query::Document;
use crate::static_graphql::schema::{self, ObjectType, TypeDefinition};
use crate::text::{concat3, str_eq};
use crate::validation::utils::{error_at, error_spec, ErrorView, ValidationErrorContext};

use super::rule::{RuleKind, ValidationRule};

verus! {

/// Unique input field names
///
/// Walks the object types of the schema in order and keeps, for each field
/// name, the first object type that declares a field so named; each later
/// field of that name is reported, located at that first type and naming it.
pub struct UniqueInputFieldNames;

pub open spec fn unique_input_field_names_code() -> Seq<char> {
    "UniqueInputFieldNames"@
}

/// The fields of the first `m` fields of `o`, each with `o`.
pub open spec fn object_field_pairs<'a>(o: &'a ObjectType, m: int) -> Seq<(Seq<char>, &'a ObjectType)>
    decreases m,
{
    if m <= 0 || m > o.fields@.len() {
        Seq::empty()
    } else {
        object_field_pairs(o, m - 1).push((o.fields@[m - 1].name@, o))
    }
}

/// The fields of the object types among the first `n` definitions of the
/// schema, in order, each with its object type.
pub open spec fn schema_field_pairs<'a>(schema: &'a schema::Document, n: int) -> Seq<
    (Seq<char>, &'a ObjectType),
>
    decreases n,
{
    if n <= 0 || n > schema.definitions@.len() {
        Seq::empty()
    } else {
        match &schema.definitions@[n - 1] {
            schema::Definition::TypeDefinition(TypeDefinition::Object(o)) => schema_field_pairs(
                schema,
                n - 1,
            ) + object_field_pairs(o, o.fields@.len() as int),
            _ => schema_field_pairs(schema, n - 1),
        }
    }
}

/// The object type of the first of the first `k` pairs whose field is named `name`.
pub open spec fn first_owner<'a>(pairs: Seq<(Seq<char>, &'a ObjectType)>, name: Seq<char>, k: int) -> Option<
    &'a ObjectType,
>
    decreases k,
{
    if k <= 0 || k > pairs.len() {
        None
    } else {
        match first_owner(pairs, name, k - 1) {
            Some(t) => Some(t),
            None => if pairs[k - 1].0 == name {
                Some(pairs[k - 1].1)
            } else {
                None
            },
        }
    }
}

/// The errors for the first `k` pairs.
pub open spec fn repeated_field_errors<'a>(pairs: Seq<(Seq<char>, &'a ObjectType)>, k: int) -> Seq<
    ErrorView,
>
    decreases k,
{
    if k <= 0 || k > pairs.len() {
        Seq::empty()
    } else {
        repeated_field_errors(pairs, k - 1) + match first_owner(pairs, pairs[k - 1].0, k - 1) {
            Some(t) => seq![
                error_spec(
                    unique_input_field_names_code(),
                    "There can be only one input field named  \""@ + t.name@ + "\"."@,
                    seq![t.position],
                ),
            ],
            None => Seq::empty(),
        }
    }
}

/// The errors of the rule on a schema.
pub open spec fn unique_input_field_names_errors(schema: &schema::Document) -> Seq<ErrorView> {
    let pairs = schema_field_pairs(schema, schema.definitions@.len() as int);
    repeated_field_errors(pairs, pairs.len() as int)
}

/// The view of a list of field names with their object types.
pub open spec fn pair_views<'a>(v: Seq<(&'a String, &'a ObjectType)>) -> Seq<(Seq<char>, &'a ObjectType)> {
    v.map_values(|p: (&'a String, &'a ObjectType)| (p.0@, p.1))
}

/// The object type of the first of the first `k` pairs whose field is named `name`.
fn find_first_owner<'a>(pairs: &Vec<(&'a String, &'a ObjectType)>, name: &str, k: usize) -> (r: Option<
    &'a ObjectType,
>)
    requires
        k <= pairs@.len(),
    ensures
        r == first_owner(pair_views(pairs@), name@, k as int),
{
    let ghost pv = pair_views(pairs@);
    let mut i: usize = 0;
    while i < k
        invariant
            i <= k,
            k <= pairs@.len(),
            pv == pair_views(pairs@),
            first_owner(pv, name@, i as int) is None,
        decreases k - i,
    {
        if str_eq(pairs[i].0.as_str(), name) {
            proof {
                first_owner_stable(pv, name@, i + 1, k as int);
            }
            return Some(pairs[i].1);
        }
        i = i + 1;
    }
    None
}

/// Once an owner is found, later prefixes find the same one.
proof fn first_owner_stable<'a>(pairs: Seq<(Seq<char>, &'a ObjectType)>, name: Seq<char>, m: int, n: int)
    requires
        0 < m <= n <= pairs.len(),
        first_owner(pairs, name, m) is Some,
    ensures
        first_owner(pairs, name, n) == first_owner(pairs, name, m),
    decreases n - m,
{
    if n > m {
        first_owner_stable(pairs, name, m, n - 1);
    }
}

impl UniqueInputFieldNames {
    pub fn new() -> (r: Self) {
        UniqueInputFieldNames
    }
}

impl ValidationRule for UniqueInputFieldNames {
    open spec fn spec_kind(&self) -> RuleKind {
        RuleKind::UniqueInputFieldNames
    }

    open spec fn spec_errors<'a>(&self, schema: &'a schema::Document, doc: &'a Document) -> Seq<
        ErrorView,
    > {
        unique_input_field_names_errors(schema)
    }

    fn kind(&self) -> (k: RuleKind) {
        RuleKind::UniqueInputFieldNames
    }

    fn error_code(&self) -> (r: &'static str)
        ensures
            r@ == unique_input_field_names_code(),
    {
        "UniqueInputFieldNames"
    }

    fn validate<'a>(&self, ctx: &OperationVisitorContext<'a>, error_collector: &mut ValidationErrorContext) {
        let schema = ctx.schema;
        let mut pairs: Vec<(&'a String, &'a ObjectType)> = Vec::new();
        let mut i: usize = 0;
        while i < schema.definitions.len()
            invariant
                i <= schema.definitions@.len(),
                schema == ctx.schema,
                pair_views(pairs@) == schema_field_pairs(schema, i as int),
            decreases schema.definitions@.len() - i,
        {
            if let schema::Definition::TypeDefinition(TypeDefinition::Object(o)) = &schema.definitions[i] {
                let ghost before = pair_views(pairs@);
                let mut j: usize = 0;
                while j < o.fields.len()
                    invariant
                        j <= o.fields@.len(),
                        pair_views(pairs@) == before + object_field_pairs(o, j as int),
                    decreases o.fields@.len() - j,
                {
                    let ghost prev = pairs@;
                    pairs.push((&o.fields[j].name, o));
                    assert(pair_views(pairs@) =~= pair_views(prev).push((o.fields@[j as int].name@, o)));
                    assert(object_field_pairs(o, j + 1) == object_field_pairs(o, j as int).push(
                        (o.fields@[j as int].name@, o),
                    ));
                    assert(pair_views(pairs@) =~= before + object_field_pairs(o, j + 1));
                    j = j + 1;
                }
            }
            i = i + 1;
        }
        let ghost pv = pair_views(pairs@);
        let ghost start = error_collector.reported();
        let mut k: usize = 0;
        while k < pairs.len()
            invariant
                k <= pairs@.len(),
                pv == pair_views(pairs@),
                error_collector.reported() == start + repeated_field_errors(pv, k as int),
            decreases pairs@.len() - k,
        {
            if let Some(t) = find_first_owner(&pairs, pairs[k].0.as_str(), k) {
                let message = concat3("There can be only one input field named  \"", t.name.as_str(), "\".");
                error_collector.report_error(error_at("UniqueInputFieldNames", message, t.position));
            }
            k = k + 1;
        }
    }
}

} // verus!
