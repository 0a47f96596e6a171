use vstd::prelude::*;

use crate::ast::operation_visitor::OperationVisitorContext;
use crate::static_graphql::query::{Definition, Document};
use crate::static_graphql::schema;
use crate::validation::utils::{error_spec, ErrorView, ValidationErrorContext};

use super::names::{repeated, repeated_empty_iff_unique, repeated_names, texts};
use super::rule::{RuleKind, ValidationRule};
use super::unique_operation_names::report_repeated;

verus! {

/// Unique fragment names
///
/// A GraphQL document is only valid if all defined fragments have unique names.
///
/// See https://spec.graphql.org/draft/#sec-Fragment-Name-Uniqueness
pub struct UniqueFragmentNames;

pub open spec fn unique_fragment_names_code() -> Seq<char> {
    "UniqueFragmentNames"@
}

/// The names of the fragments among the first `n` definitions, in order.
pub open spec fn fragment_names_upto(doc: &Document, n: int) -> Seq<Seq<char>>
    decreases n,
{
    if n <= 0 || n > doc.definitions@.len() {
        Seq::empty()
    } else {
        let prev = fragment_names_upto(doc, n - 1);
        match &doc.definitions@[n - 1] {
            Definition::Fragment(f) => prev.push(f.name@),
            _ => prev,
        }
    }
}

/// The errors of the rule: one for each fragment name used more than once,
/// in the order of first use.
pub open spec fn unique_fragment_names_errors(doc: &Document) -> Seq<ErrorView> {
    let names = fragment_names_upto(doc, doc.definitions@.len() as int);
    repeated(names, names.len() as int).map_values(
        |name: Seq<char>|
            error_spec(
                unique_fragment_names_code(),
                "There can be only one fragment named \""@ + name + "\"."@,
                Seq::empty(),
            ),
    )
}

/// A document passes the rule exactly when no two of its fragments share a name.
pub proof fn unique_fragment_names_law(doc: &Document)
    ensures
        ({
            let names = fragment_names_upto(doc, doc.definitions@.len() as int);
            unique_fragment_names_errors(doc).len() == 0 <==> forall|i: int, j: int|
                0 <= i < j < names.len() ==> names[i] != names[j]
        }),
{
    let names = fragment_names_upto(doc, doc.definitions@.len() as int);
    repeated_empty_iff_unique(names);
}

/// Whether definition `k` of a document is a fragment named `name`.
pub open spec fn defines_fragment(doc: &Document, k: int, name: Seq<char>) -> bool {
    doc.definitions@[k] matches Definition::Fragment(f) && f.name@ == name
}

/// A name among the fragment names is the name of a fragment definition.
pub proof fn fragment_name_defined(doc: &Document, n: int, j: int)
    requires
        0 <= n <= doc.definitions@.len(),
        0 <= j < fragment_names_upto(doc, n).len(),
    ensures
        exists|k: int| 0 <= k < n && #[trigger] defines_fragment(doc, k, fragment_names_upto(doc, n)[j]),
    decreases n,
{
    if n > 0 {
        let prev = fragment_names_upto(doc, n - 1);
        match &doc.definitions@[n - 1] {
            Definition::Fragment(f) => {
                if j < prev.len() {
                    fragment_name_defined(doc, n - 1, j);
                    assert(fragment_names_upto(doc, n)[j] == prev[j]);
                    let k = choose|k: int| 0 <= k < n - 1 && #[trigger] defines_fragment(doc, k, prev[j]);
                    assert(defines_fragment(doc, k, fragment_names_upto(doc, n)[j]));
                } else {
                    assert(fragment_names_upto(doc, n)[j] == f.name@);
                    assert(defines_fragment(doc, n - 1, f.name@));
                }
            },
            _ => {
                fragment_name_defined(doc, n - 1, j);
                assert(fragment_names_upto(doc, n) == prev);
                let k = choose|k: int| 0 <= k < n - 1 && #[trigger] defines_fragment(doc, k, prev[j]);
                assert(defines_fragment(doc, k, fragment_names_upto(doc, n)[j]));
            },
        }
    }
}

/// The names of the fragments of a document, in order.
pub fn fragment_names(doc: &Document) -> (r: Vec<&String>)
    ensures
        texts(r@) == fragment_names_upto(doc, doc.definitions@.len() as int),
{
    let mut names: Vec<&String> = Vec::new();
    let mut i: usize = 0;
    while i < doc.definitions.len()
        invariant
            i <= doc.definitions@.len(),
            texts(names@) == fragment_names_upto(doc, i as int),
        decreases doc.definitions@.len() - i,
    {
        if let Definition::Fragment(f) = &doc.definitions[i] {
            names.push(&f.name);
            assert(texts(names@) =~= fragment_names_upto(doc, i as int).push(f.name@));
        }
        i = i + 1;
    }
    names
}

impl UniqueFragmentNames {
    pub fn new() -> (r: Self) {
        UniqueFragmentNames
    }
}

impl ValidationRule for UniqueFragmentNames {
    open spec fn spec_kind(&self) -> RuleKind {
        RuleKind::UniqueFragmentNames
    }

    open spec fn spec_errors<'a>(&self, schema: &'a schema::Document, doc: &'a Document) -> Seq<
        ErrorView,
    > {
        unique_fragment_names_errors(doc)
    }

    fn kind(&self) -> (k: RuleKind) {
        RuleKind::UniqueFragmentNames
    }

    fn error_code(&self) -> (r: &'static str)
        ensures
            r@ == unique_fragment_names_code(),
    {
        "UniqueFragmentNames"
    }

    fn validate<'a>(&self, ctx: &OperationVisitorContext<'a>, error_collector: &mut ValidationErrorContext) {
        let names = fragment_names(ctx.operation);
        let repeated_list = repeated_names(&names);
        report_repeated(
            &repeated_list,
            "UniqueFragmentNames",
            "There can be only one fragment named \"",
            error_collector,
        );
        assert(texts(repeated_list@).map_values(
            |name: Seq<char>|
                error_spec(
                    "UniqueFragmentNames"@,
                    "There can be only one fragment named \""@ + name + "\"."@,
                    Seq::empty(),
                ),
        ) =~= unique_fragment_names_errors(ctx.operation));
    }
}

} // verus!
