use vstd::prelude::*;

use crate::ast::ext::{
    inner_name, is_input, type_named, type_text, type_to_string, SchemaDocumentExtension,
    TypeDefinitionExtension, TypeExtension,
};
use crate::ast::operation_visitor::{OperationVisitorContext, VisitNode, VisitStep};
use crate::static_graphql::query::Document;
use crate::static_graphql::schema;
use crate::text::concat5;
use crate::validation::utils::{error_at, error_spec, ErrorView, ValidationErrorContext};

use super::rule::{traversal_errors, visit_with, RuleKind, StepRule, ValidationRule};

verus! {

/// Variables are input types
///
/// A GraphQL operation is only valid if all the variables it defines are of
/// input types (scalar, enum, or input object).
///
/// See https://spec.graphql.org/draft/#sec-Variables-Are-Input-Types
pub struct VariablesAreInputTypes;

pub open spec fn variables_are_input_types_code() -> Seq<char> {
    "VariablesAreInputTypes"@
}

/// The errors at one step: a variable whose named type the schema defines as
/// a type that is not an input type.
pub open spec fn variables_are_input_types_step<'a>(
    schema: &'a schema::Document,
    s: VisitStep<'a>,
) -> Seq<ErrorView> {
    match s.node {
        VisitNode::VariableDefinition(v) => match type_named(schema, inner_name(v.var_type)) {
            Some(t) => if !is_input(t) {
                seq![
                    error_spec(
                        variables_are_input_types_code(),
                        "Variable \"$"@ + v.name@ + "\" cannot be non-input type \""@ + type_text(
                            v.var_type,
                        ) + "\"."@,
                        seq![v.position],
                    ),
                ]
            } else {
                Seq::empty()
            },
            None => Seq::empty(),
        },
        _ => Seq::empty(),
    }
}

impl VariablesAreInputTypes {
    pub fn new() -> (r: Self) {
        VariablesAreInputTypes
    }
}

impl StepRule for VariablesAreInputTypes {
    open spec fn step_errors<'a>(
        &self,
        schema: &'a schema::Document,
        doc: &'a Document,
        s: VisitStep<'a>,
    ) -> Seq<ErrorView> {
        variables_are_input_types_step(schema, s)
    }

    fn check_step<'a>(
        &self,
        ctx: &OperationVisitorContext<'a>,
        s: &VisitStep<'a>,
        errors: &mut ValidationErrorContext,
    ) {
        if let VisitNode::VariableDefinition(v) = s.node {
            let name = v.var_type.inner_type();
            if let Some(t) = ctx.schema.type_by_name(name.as_str()) {
                if !t.is_input_type() {
                    let type_string = type_to_string(&v.var_type);
                    let message = concat5(
                        "Variable \"$",
                        v.name.as_str(),
                        "\" cannot be non-input type \"",
                        type_string.as_str(),
                        "\".",
                    );
                    errors.report_error(error_at("VariablesAreInputTypes", message, v.position));
                }
            }
        }
    }
}

impl ValidationRule for VariablesAreInputTypes {
    open spec fn spec_kind(&self) -> RuleKind {
        RuleKind::VariablesAreInputTypes
    }

    open spec fn spec_errors<'a>(&self, schema: &'a schema::Document, doc: &'a Document) -> Seq<
        ErrorView,
    > {
        traversal_errors(self, schema, doc)
    }

    fn kind(&self) -> (k: RuleKind) {
        RuleKind::VariablesAreInputTypes
    }

    fn error_code(&self) -> (r: &'static str)
        ensures
            r@ == variables_are_input_types_code(),
    {
        "VariablesAreInputTypes"
    }

    fn validate<'a>(&self, ctx: &OperationVisitorContext<'a>, error_collector: &mut ValidationErrorContext) {
        visit_with(self, ctx, error_collector);
    }
}

} // verus!
