use vstd::prelude::*;

use crate::ast::ext::{is_composite, type_named, SchemaDocumentExtension, TypeDefinitionExtension};
use crate::ast::operation_visitor::{condition_name, OperationVisitorContext, VisitNode, VisitStep};
use crate::static_graphql::query::{Document, FragmentDefinition, InlineFragment, TypeCondition};
use crate::static_graphql::schema;
use crate::text::{concat3, concat5};
use crate::validation::utils::{error_at, error_spec, ErrorView, ValidationErrorContext};

use super::rule::{traversal_errors, visit_with, RuleKind, StepRule, ValidationRule};

verus! {

/// Fragments on composite type
///
/// Fragments use a type condition to determine if they apply, since fragments
/// can only be spread into a composite type (object, interface, or union), the
/// type condition must also be a composite type.
///
/// https://spec.graphql.org/draft/#sec-Fragments-On-Composite-Types
pub struct FragmentsOnCompositeTypes;

pub open spec fn fragments_on_composite_types_code() -> Seq<char> {
    "FragmentsOnCompositeTypes"@
}

/// The errors at one step: an inline fragment or a fragment definition whose
/// type condition names a type of the schema that is not composite.
pub open spec fn fragments_on_composite_types_step<'a>(
    schema: &'a schema::Document,
    s: VisitStep<'a>,
) -> Seq<ErrorView> {
    match s.node {
        VisitNode::InlineFragment(i) => match &i.type_condition {
            Some(TypeCondition::On(tc)) => match type_named(schema, tc@) {
                Some(t) => if !is_composite(t) {
                    seq![
                        error_spec(
                            fragments_on_composite_types_code(),
                            "Fragment cannot condition on non composite type \""@ + tc@ + "\"."@,
                            seq![i.position],
                        ),
                    ]
                } else {
                    Seq::empty()
                },
                None => Seq::empty(),
            },
            None => Seq::empty(),
        },
        VisitNode::FragmentDefinition(f) => match type_named(schema, condition_name(&f.type_condition)) {
            Some(t) => if !is_composite(t) {
                seq![
                    error_spec(
                        fragments_on_composite_types_code(),
                        "Fragment \""@ + f.name@ + "\" cannot condition on non composite type \""@
                            + condition_name(&f.type_condition) + "\"."@,
                        seq![f.position],
                    ),
                ]
            } else {
                Seq::empty()
            },
            None => Seq::empty(),
        },
        _ => Seq::empty(),
    }
}

impl FragmentsOnCompositeTypes {
    pub fn new() -> (r: Self) {
        FragmentsOnCompositeTypes
    }
}

impl StepRule for FragmentsOnCompositeTypes {
    open spec fn step_errors<'a>(
        &self,
        schema: &'a schema::Document,
        doc: &'a Document,
        s: VisitStep<'a>,
    ) -> Seq<ErrorView> {
        fragments_on_composite_types_step(schema, s)
    }

    fn check_step<'a>(
        &self,
        ctx: &OperationVisitorContext<'a>,
        s: &VisitStep<'a>,
        errors: &mut ValidationErrorContext,
    ) {
        match s.node {
            VisitNode::InlineFragment(i) => {
                if let Some(TypeCondition::On(tc)) = &i.type_condition {
                    if let Some(t) = ctx.schema.type_by_name(tc.as_str()) {
                        if !t.is_composite_type() {
                            let message = concat3(
                                "Fragment cannot condition on non composite type \"",
                                tc.as_str(),
                                "\".",
                            );
                            errors.report_error(
                                error_at("FragmentsOnCompositeTypes", message, i.position),
                            );
                        }
                    }
                }
            },
            VisitNode::FragmentDefinition(f) => {
                let TypeCondition::On(tc) = &f.type_condition;
                if let Some(t) = ctx.schema.type_by_name(tc.as_str()) {
                    if !t.is_composite_type() {
                        let message = concat5(
                            "Fragment \"",
                            f.name.as_str(),
                            "\" cannot condition on non composite type \"",
                            tc.as_str(),
                            "\".",
                        );
                        errors.report_error(
                            error_at("FragmentsOnCompositeTypes", message, f.position),
                        );
                    }
                }
            },
            _ => {},
        }
    }
}

impl ValidationRule for FragmentsOnCompositeTypes {
    open spec fn spec_kind(&self) -> RuleKind {
        RuleKind::FragmentsOnCompositeTypes
    }

    open spec fn spec_errors<'a>(&self, schema: &'a schema::Document, doc: &'a Document) -> Seq<
        ErrorView,
    > {
        traversal_errors(self, schema, doc)
    }

    fn kind(&self) -> (k: RuleKind) {
        RuleKind::FragmentsOnCompositeTypes
    }

    fn error_code(&self) -> (r: &'static str)
        ensures
            r@ == fragments_on_composite_types_code(),
    {
        "FragmentsOnCompositeTypes"
    }

    fn validate<'a>(&self, ctx: &OperationVisitorContext<'a>, error_collector: &mut ValidationErrorContext) {
        visit_with(self, ctx, error_collector);
    }
}


/// An inline fragment whose type condition names a type of the schema that
/// is a scalar, an enum or an input object gets exactly one error, at the
/// fragment; one that names an object, an interface or a union, names no type
/// of the schema, or has no condition gets none.
pub proof fn inline_fragment_condition_law<'a>(
    schema: &'a schema::Document,
    doc: &'a Document,
    s: VisitStep<'a>,
    i: &'a InlineFragment,
)
    requires
        s.node == VisitNode::InlineFragment(i),
    ensures
        match &i.type_condition {
            Some(TypeCondition::On(tc)) => match type_named(schema, tc@) {
                Some(t) => if t is Scalar || t is Enum || t is InputObject {
                    FragmentsOnCompositeTypes.step_errors(schema, doc, s) == seq![
                        error_spec(
                            fragments_on_composite_types_code(),
                            "Fragment cannot condition on non composite type \""@ + tc@ + "\"."@,
                            seq![i.position],
                        ),
                    ]
                } else {
                    FragmentsOnCompositeTypes.step_errors(schema, doc, s).len() == 0
                },
                None => FragmentsOnCompositeTypes.step_errors(schema, doc, s).len() == 0,
            },
            None => FragmentsOnCompositeTypes.step_errors(schema, doc, s).len() == 0,
        },
{
}

/// A fragment definition whose type condition names a type of the schema
/// that is a scalar, an enum or an input object gets exactly one error, at the
/// definition; one whose condition is composite or unknown gets none.
pub proof fn fragment_definition_condition_law<'a>(
    schema: &'a schema::Document,
    doc: &'a Document,
    s: VisitStep<'a>,
    f: &'a FragmentDefinition,
)
    requires
        s.node == VisitNode::FragmentDefinition(f),
    ensures
        match type_named(schema, condition_name(&f.type_condition)) {
            Some(t) => if t is Scalar || t is Enum || t is InputObject {
                FragmentsOnCompositeTypes.step_errors(schema, doc, s) == seq![
                    error_spec(
                        fragments_on_composite_types_code(),
                        "Fragment \""@ + f.name@ + "\" cannot condition on non composite type \""@
                            + condition_name(&f.type_condition) + "\"."@,
                        seq![f.position],
                    ),
                ]
            } else {
                FragmentsOnCompositeTypes.step_errors(schema, doc, s).len() == 0
            },
            None => FragmentsOnCompositeTypes.step_errors(schema, doc, s).len() == 0,
        },
{
}

} // verus!
