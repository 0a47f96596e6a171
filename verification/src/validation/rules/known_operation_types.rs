use vstd::prelude::*;

use crate::ast::ext::{mutation_root, subscription_root, SchemaDocumentExtension};
use crate::ast::operation_visitor::{OperationVisitorContext, VisitNode, VisitStep};
use crate::static_graphql::query::{Document, OperationDefinition};
use crate::static_graphql::schema;
use crate::text::concat3;
use crate::validation::utils::{error_at, error_spec, ErrorView, ValidationErrorContext};

use super::rule::{traversal_errors, visit_with, RuleKind, StepRule, ValidationRule};

verus! {

/// Known operation types
///
/// A GraphQL operation is only valid if the schema has a root type for its kind:
/// a mutation needs a mutation type, a subscription a subscription type.
pub struct KnownOperationTypes;

pub open spec fn known_operation_types_code() -> Seq<char> {
    "KnownOperationTypes"@
}

/// The message for an operation kind that the schema has no root type for.
pub open spec fn unsupported_operation_message(kind: Seq<char>) -> Seq<char> {
    "The "@ + kind + " operation is not supported by the schema."@
}

/// The message for an operation kind that the schema has no root type for.
pub fn build_error_message(root_type_name: &str) -> (r: String)
    ensures
        r@ == unsupported_operation_message(root_type_name@),
{
    concat3("The ", root_type_name, " operation is not supported by the schema.")
}

/// The errors at one step: a mutation when the schema has no mutation type, a
/// subscription when it has no subscription type.
pub open spec fn known_operation_types_step<'a>(
    schema: &'a schema::Document,
    s: VisitStep<'a>,
) -> Seq<ErrorView> {
    match s.node {
        VisitNode::OperationDefinition(op) => match op {
            OperationDefinition::Mutation(m) => if mutation_root(schema) is None {
                seq![
                    error_spec(
                        known_operation_types_code(),
                        unsupported_operation_message("mutation"@),
                        seq![m.position],
                    ),
                ]
            } else {
                Seq::empty()
            },
            OperationDefinition::Subscription(sub) => if subscription_root(schema) is None {
                seq![
                    error_spec(
                        known_operation_types_code(),
                        unsupported_operation_message("subscription"@),
                        seq![sub.position],
                    ),
                ]
            } else {
                Seq::empty()
            },
            _ => Seq::empty(),
        },
        _ => Seq::empty(),
    }
}

impl KnownOperationTypes {
    pub fn new() -> (r: Self) {
        KnownOperationTypes
    }
}

impl StepRule for KnownOperationTypes {
    open spec fn step_errors<'a>(
        &self,
        schema: &'a schema::Document,
        doc: &'a Document,
        s: VisitStep<'a>,
    ) -> Seq<ErrorView> {
        known_operation_types_step(schema, s)
    }

    fn check_step<'a>(
        &self,
        ctx: &OperationVisitorContext<'a>,
        s: &VisitStep<'a>,
        errors: &mut ValidationErrorContext,
    ) {
        if let VisitNode::OperationDefinition(op) = s.node {
            match op {
                OperationDefinition::Mutation(m) => {
                    if ctx.schema.mutation_type().is_none() {
                        errors.report_error(
                            error_at("KnownOperationTypes", build_error_message("mutation"), m.position),
                        );
                    }
                },
                OperationDefinition::Subscription(sub) => {
                    if ctx.schema.subscription_type().is_none() {
                        errors.report_error(
                            error_at(
                                "KnownOperationTypes",
                                build_error_message("subscription"),
                                sub.position,
                            ),
                        );
                    }
                },
                _ => {},
            }
        }
    }
}

impl ValidationRule for KnownOperationTypes {
    open spec fn spec_kind(&self) -> RuleKind {
        RuleKind::KnownOperationTypes
    }

    open spec fn spec_errors<'a>(&self, schema: &'a schema::Document, doc: &'a Document) -> Seq<
        ErrorView,
    > {
        traversal_errors(self, schema, doc)
    }

    fn kind(&self) -> (k: RuleKind) {
        RuleKind::KnownOperationTypes
    }

    fn error_code(&self) -> (r: &'static str)
        ensures
            r@ == known_operation_types_code(),
    {
        "KnownOperationTypes"
    }

    fn validate<'a>(&self, ctx: &OperationVisitorContext<'a>, error_collector: &mut ValidationErrorContext) {
        visit_with(self, ctx, error_collector);
    }
}

} // verus!
