use vstd::prelude::*;

use crate::ast::ext::{is_composite, type_def_name, type_named, SchemaDocumentExtension, TypeDefinitionExtension};
use crate::ast::operation_visitor::{condition_name, known_fragment, OperationVisitorContext, VisitNode, VisitStep};
use crate::ast::utils::types_overlap;
use crate::static_graphql::query::{Document, TypeCondition};
use crate::static_graphql::schema;
use crate::text::{concat5, concat7};
use crate::validation::utils::{error_nowhere, error_spec, ErrorView, ValidationErrorContext};

pub use crate::ast::utils::do_types_overlap;

use super::rule::{traversal_errors, visit_with, RuleKind, StepRule, ValidationRule};

verus! {

/// Possible fragment spread
///
/// A fragment spread is only valid if the type condition could ever possibly
/// be true: if there is a non-empty intersection of the possible parent types,
/// and possible types which pass the type condition.
///
/// https://spec.graphql.org/draft/#sec-Fragment-spread-is-possible
pub struct PossibleFragmentSpreads;

pub open spec fn possible_fragment_spreads_code() -> Seq<char> {
    "PossibleFragmentSpreads"@
}

/// The errors at one step: an inline fragment, or a spread of a known
/// fragment, whose composite type cannot overlap the composite parent type.
pub open spec fn possible_fragment_spreads_step<'a>(
    schema: &'a schema::Document,
    doc: &'a Document,
    s: VisitStep<'a>,
) -> Seq<ErrorView> {
    match s.node {
        VisitNode::InlineFragment(_) => match (s.state.current_type, s.state.parent_type) {
            (Some(t), Some(p)) => if is_composite(t) && is_composite(p) && !types_overlap(schema, t, p) {
                seq![
                    error_spec(
                        possible_fragment_spreads_code(),
                        "Fragment cannot be spread here as objects of type \""@ + type_def_name(p)
                            + "\" can never be of type \""@ + type_def_name(t) + "\"."@,
                        Seq::empty(),
                    ),
                ]
            } else {
                Seq::empty()
            },
            _ => Seq::empty(),
        },
        VisitNode::FragmentSpread(sp) => match known_fragment(doc, sp.fragment_name@) {
            Some(f) => match (type_named(schema, condition_name(&f.type_condition)), s.state.parent_type) {
                (Some(t), Some(p)) => if is_composite(t) && is_composite(p) && !types_overlap(schema, t, p) {
                    seq![
                        error_spec(
                            possible_fragment_spreads_code(),
                            "Fragment \""@ + f.name@ + "\" cannot be spread here as objects of type \""@
                                + type_def_name(p) + "\" can never be of type \""@ + condition_name(
                                &f.type_condition,
                            ) + "\"."@,
                            Seq::empty(),
                        ),
                    ]
                } else {
                    Seq::empty()
                },
                _ => Seq::empty(),
            },
            None => Seq::empty(),
        },
        _ => Seq::empty(),
    }
}

impl PossibleFragmentSpreads {
    pub fn new() -> (r: Self) {
        PossibleFragmentSpreads
    }
}

impl StepRule for PossibleFragmentSpreads {
    open spec fn step_errors<'a>(
        &self,
        schema: &'a schema::Document,
        doc: &'a Document,
        s: VisitStep<'a>,
    ) -> Seq<ErrorView> {
        possible_fragment_spreads_step(schema, doc, s)
    }

    fn check_step<'a>(
        &self,
        ctx: &OperationVisitorContext<'a>,
        s: &VisitStep<'a>,
        errors: &mut ValidationErrorContext,
    ) {
        match s.node {
            VisitNode::InlineFragment(_) => {
                if let (Some(t), Some(p)) = (s.state.current_type, s.state.parent_type) {
                    if t.is_composite_type() && p.is_composite_type() && !do_types_overlap(ctx.schema, t, p) {
                        let message = concat5(
                            "Fragment cannot be spread here as objects of type \"",
                            p.name(),
                            "\" can never be of type \"",
                            t.name(),
                            "\".",
                        );
                        errors.report_error(error_nowhere("PossibleFragmentSpreads", message));
                    }
                }
            },
            VisitNode::FragmentSpread(sp) => {
                if let Some(f) = ctx.fragment_by_name(sp.fragment_name.as_str()) {
                    let TypeCondition::On(cond) = &f.type_condition;
                    if let (Some(t), Some(p)) = (ctx.schema.type_by_name(cond.as_str()), s.state.parent_type) {
                        if t.is_composite_type() && p.is_composite_type() && !do_types_overlap(ctx.schema, t, p) {
                            let message = concat7(
                                "Fragment \"",
                                f.name.as_str(),
                                "\" cannot be spread here as objects of type \"",
                                p.name(),
                                "\" can never be of type \"",
                                cond.as_str(),
                                "\".",
                            );
                            errors.report_error(error_nowhere("PossibleFragmentSpreads", message));
                        }
                    }
                }
            },
            _ => {},
        }
    }
}

impl ValidationRule for PossibleFragmentSpreads {
    open spec fn spec_kind(&self) -> RuleKind {
        RuleKind::PossibleFragmentSpreads
    }

    open spec fn spec_errors<'a>(&self, schema: &'a schema::Document, doc: &'a Document) -> Seq<
        ErrorView,
    > {
        traversal_errors(self, schema, doc)
    }

    fn kind(&self) -> (k: RuleKind) {
        RuleKind::PossibleFragmentSpreads
    }

    fn error_code(&self) -> (r: &'static str)
        ensures
            r@ == possible_fragment_spreads_code(),
    {
        "PossibleFragmentSpreads"
    }

    fn validate<'a>(&self, ctx: &OperationVisitorContext<'a>, error_collector: &mut ValidationErrorContext) {
        visit_with(self, ctx, error_collector);
    }
}

} // verus!
