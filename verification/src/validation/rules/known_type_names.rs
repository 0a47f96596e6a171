use vstd::prelude::*;

use crate::ast::ext::{inner_name, type_named, SchemaDocumentExtension, TypeExtension};
use crate::ast::operation_visitor::{condition_name, OperationVisitorContext, VisitNode, VisitStep};
use crate::static_graphql::common::Pos;
use crate::static_graphql::common::Type;
use crate::static_graphql::query::{Document, TypeCondition, VariableDefinition};
use crate::static_graphql::schema;
use crate::text::{concat3, is_reserved_name, starts_with_double_underscore};
use crate::validation::utils::{error_at, error_spec, ErrorView, ValidationErrorContext};

use super::rule::{traversal_errors, visit_with, RuleKind, StepRule, ValidationRule};

verus! {

/// Known type names
///
/// A GraphQL document is only valid if referenced types (specifically
/// variable definitions and fragment conditions) are defined by the type schema.
///
/// See https://spec.graphql.org/draft/#sec-Fragment-Spread-Type-Existence
pub struct KnownTypeNames;

pub open spec fn known_type_names_code() -> Seq<char> {
    "KnownTypeNames"@
}

/// The error for a type name that the schema does not define, unless it is a reserved name.
pub open spec fn unknown_type_errors(schema: &schema::Document, name: Seq<char>, pos: Pos) -> Seq<
    ErrorView,
> {
    if type_named(schema, name) is None && !is_reserved_name(name) {
        seq![error_spec(known_type_names_code(), "Unknown type \""@ + name + "\"."@, seq![pos])]
    } else {
        Seq::empty()
    }
}

/// The errors at one step: the type condition of a fragment definition or an
/// inline fragment, or the named type of a variable, when the schema does not
/// define it.
pub open spec fn known_type_names_step<'a>(schema: &'a schema::Document, s: VisitStep<'a>) -> Seq<
    ErrorView,
> {
    match s.node {
        VisitNode::FragmentDefinition(f) => unknown_type_errors(
            schema,
            condition_name(&f.type_condition),
            f.position,
        ),
        VisitNode::InlineFragment(i) => match &i.type_condition {
            Some(tc) => unknown_type_errors(schema, condition_name(tc), i.position),
            None => Seq::empty(),
        },
        VisitNode::VariableDefinition(v) => unknown_type_errors(
            schema,
            inner_name(v.var_type),
            v.position,
        ),
        _ => Seq::empty(),
    }
}

impl KnownTypeNames {
    pub fn new() -> (r: Self) {
        KnownTypeNames
    }

    fn check_name(
        &self,
        schema: &schema::Document,
        name: &str,
        pos: Pos,
        errors: &mut ValidationErrorContext,
    )
        ensures
            final(errors).reported() == old(errors).reported() + unknown_type_errors(schema, name@, pos),
    {
        if schema.type_by_name(name).is_none() && !starts_with_double_underscore(name) {
            let message = concat3("Unknown type \"", name, "\".");
            errors.report_error(error_at("KnownTypeNames", message, pos));
        }
    }
}

impl StepRule for KnownTypeNames {
    open spec fn step_errors<'a>(
        &self,
        schema: &'a schema::Document,
        doc: &'a Document,
        s: VisitStep<'a>,
    ) -> Seq<ErrorView> {
        known_type_names_step(schema, s)
    }

    fn check_step<'a>(
        &self,
        ctx: &OperationVisitorContext<'a>,
        s: &VisitStep<'a>,
        errors: &mut ValidationErrorContext,
    ) {
        match s.node {
            VisitNode::FragmentDefinition(f) => {
                let TypeCondition::On(name) = &f.type_condition;
                self.check_name(ctx.schema, name.as_str(), f.position, errors);
            },
            VisitNode::InlineFragment(i) => {
                if let Some(TypeCondition::On(name)) = &i.type_condition {
                    self.check_name(ctx.schema, name.as_str(), i.position, errors);
                }
            },
            VisitNode::VariableDefinition(v) => {
                let name = v.var_type.inner_type();
                self.check_name(ctx.schema, name.as_str(), v.position, errors);
            },
            _ => {},
        }
    }
}

impl ValidationRule for KnownTypeNames {
    open spec fn spec_kind(&self) -> RuleKind {
        RuleKind::KnownTypeNames
    }

    open spec fn spec_errors<'a>(&self, schema: &'a schema::Document, doc: &'a Document) -> Seq<
        ErrorView,
    > {
        traversal_errors(self, schema, doc)
    }

    fn kind(&self) -> (k: RuleKind) {
        RuleKind::KnownTypeNames
    }

    fn error_code(&self) -> (r: &'static str)
        ensures
            r@ == known_type_names_code(),
    {
        "KnownTypeNames"
    }

    fn validate<'a>(&self, ctx: &OperationVisitorContext<'a>, error_collector: &mut ValidationErrorContext) {
        visit_with(self, ctx, error_collector);
    }
}


/// A variable whose type names, inside whatever list and non-null wrappers,
/// a type that the schema does not define and that is not reserved (starting
/// with `__`) gets exactly one error, at the variable; any other variable gets
/// none.
pub proof fn variable_type_law<'a>(schema: &'a schema::Document, doc: &'a Document, s: VisitStep<'a>, v: &'a VariableDefinition)
    requires
        s.node == VisitNode::VariableDefinition(v),
    ensures
        if type_named(schema, inner_name(v.var_type)) is None && !is_reserved_name(inner_name(v.var_type)) {
            KnownTypeNames.step_errors(schema, doc, s) == seq![
                error_spec(known_type_names_code(), "Unknown type \""@ + inner_name(v.var_type) + "\"."@, seq![v.position]),
            ]
        } else {
            KnownTypeNames.step_errors(schema, doc, s).len() == 0
        },
{
}

/// The named type inside list and non-null wrappers is the one named at
/// their core: wrapping a type does not change the name that is checked.
pub proof fn wrapped_type_names_core(t: Type)
    ensures
        inner_name(Type::ListType(Box::new(t))) == inner_name(t),
        inner_name(Type::NonNullType(Box::new(t))) == inner_name(t),
{
}

/// A fragment whose type condition names a type that the schema does not
/// define and that is not reserved gets exactly one error, at the fragment,
/// whether it is a fragment definition or an inline fragment; others get none.
pub proof fn fragment_condition_type_law<'a>(schema: &'a schema::Document, doc: &'a Document, s: VisitStep<'a>, name: Seq<char>, pos: Pos)
    requires
        (s.node matches VisitNode::FragmentDefinition(f) && name == condition_name(&f.type_condition) && pos == f.position)
            || (s.node matches VisitNode::InlineFragment(i) && (i.type_condition matches Some(tc) && name
            == condition_name(&tc)) && pos == i.position),
    ensures
        if type_named(schema, name) is None && !is_reserved_name(name) {
            KnownTypeNames.step_errors(schema, doc, s) == seq![
                error_spec(known_type_names_code(), "Unknown type \""@ + name + "\"."@, seq![pos]),
            ]
        } else {
            KnownTypeNames.step_errors(schema, doc, s).len() == 0
        },
{
}

} // verus!
