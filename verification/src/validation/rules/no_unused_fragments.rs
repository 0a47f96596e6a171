use vstd::prelude::*;

use crate::ast::operation_visitor::{
    document_steps, document_visit_steps, OperationVisitorContext, VisitNode, VisitStep,
};
use crate::static_graphql::query::Document;
use crate::static_graphql::schema;
use crate::text::{concat3, str_eq};
use crate::validation::utils::{error_nowhere, error_spec, ErrorView, ValidationErrorContext};

use super::names::{distinct, distinct_names, texts};
use super::rule::{RuleKind, ValidationRule};
use super::unique_fragment_names::{fragment_names, fragment_names_upto};

verus! {

/// No unused fragments
///
/// A GraphQL document is only valid if all fragment definitions are spread
/// within operations, or spread within other fragments spread within operations.
///
/// See https://spec.graphql.org/draft/#sec-Fragments-Must-Be-Used
pub struct NoUnusedFragments;

pub open spec fn no_unused_fragments_code() -> Seq<char> {
    "NoUnusedFragments"@
}

/// The fragment names spread at the first `n` steps of a traversal, in order.
pub open spec fn spread_names_upto<'a>(steps: Seq<VisitStep<'a>>, n: int) -> Seq<Seq<char>>
    decreases n,
{
    if n <= 0 || n > steps.len() {
        Seq::empty()
    } else {
        match steps[n - 1].node {
            VisitNode::FragmentSpread(sp) => spread_names_upto(steps, n - 1).push(sp.fragment_name@),
            _ => spread_names_upto(steps, n - 1),
        }
    }
}

/// The names of the fragments that no spread of the traversal names, each
/// once, in the order of the definitions.
pub open spec fn unused_fragment_names<'a>(schema: &'a schema::Document, doc: &'a Document) -> Seq<
    Seq<char>,
> {
    let defined = fragment_names_upto(doc, doc.definitions@.len() as int);
    let steps = document_steps(schema, doc);
    let used = spread_names_upto(steps, steps.len() as int);
    distinct(defined, defined.len() as int).filter(|name: Seq<char>| !used.contains(name))
}

/// The errors of the rule: one for each fragment that is never spread.
pub open spec fn no_unused_fragments_errors<'a>(schema: &'a schema::Document, doc: &'a Document) -> Seq<
    ErrorView,
> {
    unused_fragment_names(schema, doc).map_values(
        |name: Seq<char>|
            error_spec(
                no_unused_fragments_code(),
                "Fragment \""@ + name + "\" is never used."@,
                Seq::empty(),
            ),
    )
}

/// Whether `name` is among `names`.
fn contains_text(names: &Vec<&String>, name: &str) -> (r: bool)
    ensures
        r == texts(names@).contains(name@),
{
    let mut i: usize = 0;
    while i < names.len()
        invariant
            i <= names@.len(),
            forall|j: int| 0 <= j < i ==> names@[j]@ != name@,
        decreases names@.len() - i,
    {
        if str_eq(names[i].as_str(), name) {
            assert(texts(names@)[i as int] == name@);
            return true;
        }
        i = i + 1;
    }
    assert(!texts(names@).contains(name@)) by {
        if texts(names@).contains(name@) {
            let j = choose|j: int| 0 <= j < texts(names@).len() && texts(names@)[j] == name@;
            assert(names@[j]@ == name@);
        }
    }
    false
}

impl NoUnusedFragments {
    pub fn new() -> (r: Self) {
        NoUnusedFragments
    }
}

impl ValidationRule for NoUnusedFragments {
    open spec fn spec_kind(&self) -> RuleKind {
        RuleKind::NoUnusedFragments
    }

    open spec fn spec_errors<'a>(&self, schema: &'a schema::Document, doc: &'a Document) -> Seq<
        ErrorView,
    > {
        no_unused_fragments_errors(schema, doc)
    }

    fn kind(&self) -> (k: RuleKind) {
        RuleKind::NoUnusedFragments
    }

    fn error_code(&self) -> (r: &'static str)
        ensures
            r@ == no_unused_fragments_code(),
    {
        "NoUnusedFragments"
    }

    fn validate<'a>(&self, ctx: &OperationVisitorContext<'a>, error_collector: &mut ValidationErrorContext) {
        let steps = document_visit_steps(ctx.schema, ctx.operation);
        let mut used: Vec<&String> = Vec::new();
        let mut i: usize = 0;
        while i < steps.len()
            invariant
                i <= steps@.len(),
                texts(used@) == spread_names_upto(steps@, i as int),
            decreases steps@.len() - i,
        {
            if let VisitNode::FragmentSpread(sp) = steps[i].node {
                used.push(&sp.fragment_name);
                assert(texts(used@) =~= spread_names_upto(steps@, i as int).push(sp.fragment_name@));
            }
            i = i + 1;
        }
        let defined = fragment_names(ctx.operation);
        let candidates = distinct_names(&defined);
        let ghost used_texts = texts(used@);
        let ghost pred = |name: Seq<char>| !used_texts.contains(name);
        let ghost f = |name: Seq<char>|
            error_spec(no_unused_fragments_code(), "Fragment \""@ + name + "\" is never used."@, Seq::empty());
        let ghost start = error_collector.reported();
        let mut k: usize = 0;
        while k < candidates.len()
            invariant
                k <= candidates@.len(),
                used_texts == texts(used@),
                pred == (|name: Seq<char>| !used_texts.contains(name)),
                f == (|name: Seq<char>|
                    error_spec(no_unused_fragments_code(), "Fragment \""@ + name + "\" is never used."@, Seq::empty())),
                error_collector.reported() == start + texts(candidates@.subrange(0, k as int)).filter(
                    pred,
                ).map_values(f),
            decreases candidates@.len() - k,
        {
            let name = candidates[k];
            proof {
                assert(candidates@.subrange(0, k + 1) =~= candidates@.subrange(0, k as int).push(name));
                assert(texts(candidates@.subrange(0, k + 1)) =~= texts(candidates@.subrange(0, k as int)).push(name@));
                texts(candidates@.subrange(0, k as int)).lemma_filter_push(name@, pred);
            }
            if !contains_text(&used, name.as_str()) {
                let message = concat3("Fragment \"", name.as_str(), "\" is never used.");
                error_collector.report_error(error_nowhere("NoUnusedFragments", message));
                assert(texts(candidates@.subrange(0, k + 1)).filter(pred).map_values(f) =~= texts(
                    candidates@.subrange(0, k as int),
                ).filter(pred).map_values(f).push(f(name@)));
            }
            k = k + 1;
        }
        assert(candidates@.subrange(0, candidates@.len() as int) =~= candidates@);
    }
}

} // verus!
