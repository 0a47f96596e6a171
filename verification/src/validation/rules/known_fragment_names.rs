use vstd::prelude::*;

use crate::ast::operation_visitor::{known_fragment, OperationVisitorContext, VisitNode, VisitStep};
use crate::static_graphql::query::Document;
use crate::static_graphql::schema;
use crate::text::concat3;
use crate::validation::utils::{error_at, error_spec, ErrorView, ValidationErrorContext};

use super::rule::{traversal_errors, visit_with, RuleKind, StepRule, ValidationRule};

verus! {

/// Known fragment names
///
/// A GraphQL document is only valid if all `...Fragment` fragment spreads refer
/// to fragments defined in the same document.
///
/// See https://spec.graphql.org/draft/#sec-Fragment-spread-target-defined
pub struct KnownFragmentNames;

pub open spec fn known_fragment_names_code() -> Seq<char> {
    "KnownFragmentNames"@
}

/// The errors at one step: a fragment spread that names no fragment of the document.
pub open spec fn known_fragment_names_step<'a>(doc: &'a Document, s: VisitStep<'a>) -> Seq<ErrorView> {
    match s.node {
        VisitNode::FragmentSpread(sp) => if known_fragment(doc, sp.fragment_name@) is None {
            seq![
                error_spec(
                    known_fragment_names_code(),
                    "Unknown fragment \""@ + sp.fragment_name@ + "\"."@,
                    seq![sp.position],
                ),
            ]
        } else {
            Seq::empty()
        },
        _ => Seq::empty(),
    }
}

impl KnownFragmentNames {
    pub fn new() -> (r: Self) {
        KnownFragmentNames
    }
}

impl StepRule for KnownFragmentNames {
    open spec fn step_errors<'a>(
        &self,
        schema: &'a schema::Document,
        doc: &'a Document,
        s: VisitStep<'a>,
    ) -> Seq<ErrorView> {
        known_fragment_names_step(doc, s)
    }

    fn check_step<'a>(
        &self,
        ctx: &OperationVisitorContext<'a>,
        s: &VisitStep<'a>,
        errors: &mut ValidationErrorContext,
    ) {
        if let VisitNode::FragmentSpread(sp) = s.node {
            if ctx.fragment_by_name(sp.fragment_name.as_str()).is_none() {
                let message = concat3("Unknown fragment \"", sp.fragment_name.as_str(), "\".");
                errors.report_error(error_at("KnownFragmentNames", message, sp.position));
            }
        }
    }
}

impl ValidationRule for KnownFragmentNames {
    open spec fn spec_kind(&self) -> RuleKind {
        RuleKind::KnownFragmentNames
    }

    open spec fn spec_errors<'a>(&self, schema: &'a schema::Document, doc: &'a Document) -> Seq<
        ErrorView,
    > {
        traversal_errors(self, schema, doc)
    }

    fn kind(&self) -> (k: RuleKind) {
        RuleKind::KnownFragmentNames
    }

    fn error_code(&self) -> (r: &'static str)
        ensures
            r@ == known_fragment_names_code(),
    {
        "KnownFragmentNames"
    }

    fn validate<'a>(&self, ctx: &OperationVisitorContext<'a>, error_collector: &mut ValidationErrorContext) {
        visit_with(self, ctx, error_collector);
    }
}

} // verus!
