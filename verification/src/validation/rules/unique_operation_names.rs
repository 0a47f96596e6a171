use vstd::prelude::*;

use crate::ast::ext::op_name;
use crate::ast::operation_visitor::OperationVisitorContext;
use crate::static_graphql::query::{Definition, Document, OperationDefinition};
use crate::static_graphql::schema;
use crate::text::concat3;
use crate::validation::utils::{error_nowhere, error_spec, ErrorView, ValidationErrorContext};

use super::names::{repeated, repeated_empty_iff_unique, repeated_names, texts};
use super::rule::{RuleKind, ValidationRule};

verus! {

/// Unique operation names
///
/// A GraphQL document is only valid if all defined operations have unique names.
///
/// See https://spec.graphql.org/draft/#sec-Operation-Name-Uniqueness
pub struct UniqueOperationNames;

pub open spec fn unique_operation_names_code() -> Seq<char> {
    "UniqueOperationNames"@
}

/// The names of the named operations among the first `n` definitions, in order.
pub open spec fn operation_names_upto(doc: &Document, n: int) -> Seq<Seq<char>>
    decreases n,
{
    if n <= 0 || n > doc.definitions@.len() {
        Seq::empty()
    } else {
        let prev = operation_names_upto(doc, n - 1);
        match &doc.definitions@[n - 1] {
            Definition::Operation(op) => match op_name(op) {
                Some(name) => prev.push(name),
                None => prev,
            },
            _ => prev,
        }
    }
}

/// The errors of the rule: one for each operation name used more than once,
/// in the order of first use.
pub open spec fn unique_operation_names_errors(doc: &Document) -> Seq<ErrorView> {
    let names = operation_names_upto(doc, doc.definitions@.len() as int);
    repeated(names, names.len() as int).map_values(
        |name: Seq<char>|
            error_spec(
                unique_operation_names_code(),
                "There can be only one operation named \""@ + name + "\"."@,
                Seq::empty(),
            ),
    )
}

/// A document passes the rule exactly when no two of its operations share a name.
pub proof fn unique_operation_names_law(doc: &Document)
    ensures
        ({
            let names = operation_names_upto(doc, doc.definitions@.len() as int);
            unique_operation_names_errors(doc).len() == 0 <==> forall|i: int, j: int|
                0 <= i < j < names.len() ==> names[i] != names[j]
        }),
{
    let names = operation_names_upto(doc, doc.definitions@.len() as int);
    repeated_empty_iff_unique(names);
}


/// The name of an operation; the query shorthand has none.
pub fn operation_name(op: &OperationDefinition) -> (r: Option<&String>)
    ensures
        match r {
            Some(n) => op_name(op) == Some(n@),
            None => op_name(op) is None,
        },
{
    match op {
        OperationDefinition::Query(q) => q.name.as_ref(),
        OperationDefinition::SelectionSet(_) => None,
        OperationDefinition::Mutation(m) => m.name.as_ref(),
        OperationDefinition::Subscription(s) => s.name.as_ref(),
    }
}

/// Reports one error for each name among `repeated_list`, with a message built from `head`.
pub fn report_repeated(
    repeated_list: &Vec<&String>,
    code: &'static str,
    head: &str,
    errors: &mut ValidationErrorContext,
)
    ensures
        final(errors).reported() == old(errors).reported() + texts(repeated_list@).map_values(
            |name: Seq<char>| error_spec(code@, head@ + name + "\"."@, Seq::empty()),
        ),
{
    let ghost start = errors.reported();
    let ghost f = |name: Seq<char>| error_spec(code@, head@ + name + "\"."@, Seq::empty());
    let mut i: usize = 0;
    while i < repeated_list.len()
        invariant
            i <= repeated_list@.len(),
            f == (|name: Seq<char>| error_spec(code@, head@ + name + "\"."@, Seq::empty())),
            errors.reported() == start + texts(repeated_list@.subrange(0, i as int)).map_values(f),
        decreases repeated_list@.len() - i,
    {
        let name = repeated_list[i];
        errors.report_error(error_nowhere(code, concat3(head, name.as_str(), "\".")));
        proof {
            assert(repeated_list@.subrange(0, i + 1) =~= repeated_list@.subrange(0, i as int).push(
                name,
            ));
            assert(texts(repeated_list@.subrange(0, i + 1)).map_values(f) =~= texts(
                repeated_list@.subrange(0, i as int),
            ).map_values(f).push(f(name@)));
        }
        i = i + 1;
    }
    assert(repeated_list@.subrange(0, repeated_list@.len() as int) =~= repeated_list@);
}

impl UniqueOperationNames {
    pub fn new() -> (r: Self) {
        UniqueOperationNames
    }
}

impl ValidationRule for UniqueOperationNames {
    open spec fn spec_kind(&self) -> RuleKind {
        RuleKind::UniqueOperationNames
    }

    open spec fn spec_errors<'a>(&self, schema: &'a schema::Document, doc: &'a Document) -> Seq<
        ErrorView,
    > {
        unique_operation_names_errors(doc)
    }

    fn kind(&self) -> (k: RuleKind) {
        RuleKind::UniqueOperationNames
    }

    fn error_code(&self) -> (r: &'static str)
        ensures
            r@ == unique_operation_names_code(),
    {
        "UniqueOperationNames"
    }

    fn validate<'a>(&self, ctx: &OperationVisitorContext<'a>, error_collector: &mut ValidationErrorContext) {
        let doc = ctx.operation;
        let mut names: Vec<&String> = Vec::new();
        let mut i: usize = 0;
        while i < doc.definitions.len()
            invariant
                i <= doc.definitions@.len(),
                texts(names@) == operation_names_upto(doc, i as int),
            decreases doc.definitions@.len() - i,
        {
            if let Definition::Operation(op) = &doc.definitions[i] {
                if let Some(name) = operation_name(op) {
                    names.push(name);
                    assert(texts(names@) =~= operation_names_upto(doc, i as int).push(name@));
                }
            }
            i = i + 1;
        }
        let repeated_list = repeated_names(&names);
        report_repeated(
            &repeated_list,
            "UniqueOperationNames",
            "There can be only one operation named \"",
            error_collector,
        );
        proof {
            reveal_strlit("There can be only one operation named \"");
            reveal_strlit("UniqueOperationNames");
        }
        assert(texts(repeated_list@).map_values(
            |name: Seq<char>|
                error_spec(
                    "UniqueOperationNames"@,
                    "There can be only one operation named \""@ + name + "\"."@,
                    Seq::empty(),
                ),
        ) =~= unique_operation_names_errors(doc));
    }
}

} // verus!
