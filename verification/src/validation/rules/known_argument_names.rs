use vstd::prelude::*;

use crate::ast::ext::{
    directive_named, field_of, find_input_value, find_input_value_in, type_def_name,
    FieldByNameExtension, SchemaDocumentExtension, TypeDefinitionExtension,
};
use crate::ast::operation_visitor::{
    document_steps, document_visit_steps, OperationVisitorContext, VisitNode, VisitStep,
};
use crate::static_graphql::query::Document;
use crate::static_graphql::schema::{self, DirectiveDefinition, TypeDefinition};
use crate::text::{concat3, concat7};
use crate::validation::utils::{error_nowhere, error_spec, ErrorView, ValidationErrorContext};

use super::rule::{RuleKind, ValidationRule};

verus! {

/// Known argument names
///
/// A GraphQL field or directive is only valid if all supplied arguments are
/// defined by that field or directive.
///
/// See https://spec.graphql.org/draft/#sec-Argument-Names
pub struct KnownArgumentNames;

/// What the arguments being visited belong to: a field of a type, or a directive.
#[derive(Clone, Copy)]
pub enum ArgumentParent<'a> {
    Field(&'a schema::Field, &'a TypeDefinition),
    Directive(&'a DirectiveDefinition),
}

pub open spec fn known_argument_names_code() -> Seq<char> {
    "KnownArgumentNames"@
}

/// How a step changes what arguments belong to: a field step to its definition
/// in the parent type, a directive step to its definition; `None` for the
/// other steps, which change nothing.
pub open spec fn owner_at<'a>(schema: &'a schema::Document, s: VisitStep<'a>) -> Option<
    Option<ArgumentParent<'a>>,
> {
    match s.node {
        VisitNode::Field(f) => Some(
            match s.state.parent_type {
                Some(p) => match field_of(p, f.name@) {
                    Some(def) => Some(ArgumentParent::Field(def, p)),
                    None => None,
                },
                None => None,
            },
        ),
        VisitNode::Directive(d, _) => Some(
            match directive_named(schema, d.name@) {
                Some(def) => Some(ArgumentParent::Directive(def)),
                None => None,
            },
        ),
        _ => None,
    }
}

/// What the arguments belong to after the first `n` steps.
pub open spec fn owner_upto<'a>(schema: &'a schema::Document, steps: Seq<VisitStep<'a>>, n: int) -> Option<
    ArgumentParent<'a>,
>
    decreases n,
{
    if n <= 0 || n > steps.len() {
        None
    } else {
        match owner_at(schema, steps[n - 1]) {
            Some(o) => o,
            None => owner_upto(schema, steps, n - 1),
        }
    }
}

/// The error for an argument that its owner does not define.
pub open spec fn unknown_argument_errors(owner: Option<ArgumentParent>, name: Seq<char>) -> Seq<
    ErrorView,
> {
    match owner {
        Some(ArgumentParent::Field(def, p)) => if find_input_value(&def.arguments, name, 0) is None {
            seq![
                error_spec(
                    known_argument_names_code(),
                    "Unknown argument \""@ + name + "\" on field \""@ + type_def_name(p) + "."@
                        + def.name@ + "\"."@,
                    Seq::empty(),
                ),
            ]
        } else {
            Seq::empty()
        },
        Some(ArgumentParent::Directive(def)) => if find_input_value(&def.arguments, name, 0) is None {
            seq![
                error_spec(
                    known_argument_names_code(),
                    "Unknown argument \""@ + name + "\" on directive \"@"@ + def.name@ + "\"."@,
                    Seq::empty(),
                ),
            ]
        } else {
            Seq::empty()
        },
        None => Seq::empty(),
    }
}

/// The errors of the first `n` steps: each argument that the field or
/// directive it belongs to does not define.
pub open spec fn known_argument_names_upto<'a>(
    schema: &'a schema::Document,
    steps: Seq<VisitStep<'a>>,
    n: int,
) -> Seq<ErrorView>
    decreases n,
{
    if n <= 0 || n > steps.len() {
        Seq::empty()
    } else {
        known_argument_names_upto(schema, steps, n - 1) + match steps[n - 1].node {
            VisitNode::Argument(a) => unknown_argument_errors(owner_upto(schema, steps, n - 1), a.0@),
            _ => Seq::empty(),
        }
    }
}

/// The errors of the rule on a document.
pub open spec fn known_argument_names_errors<'a>(schema: &'a schema::Document, doc: &'a Document) -> Seq<
    ErrorView,
> {
    let steps = document_steps(schema, doc);
    known_argument_names_upto(schema, steps, steps.len() as int)
}

impl KnownArgumentNames {
    pub fn new() -> (r: Self) {
        KnownArgumentNames
    }

    /// How a step changes what arguments belong to.
    fn step_owner<'a>(&self, schema: &'a schema::Document, s: &VisitStep<'a>) -> (r: Option<
        Option<ArgumentParent<'a>>,
    >)
        ensures
            r == owner_at(schema, *s),
    {
        match s.node {
            VisitNode::Field(f) => Some(
                match s.state.parent_type {
                    Some(p) => match p.field_by_name(&f.name) {
                        Some(def) => Some(ArgumentParent::Field(def, p)),
                        None => None,
                    },
                    None => None,
                },
            ),
            VisitNode::Directive(d, _) => Some(
                match schema.directive_by_name(d.name.as_str()) {
                    Some(def) => Some(ArgumentParent::Directive(def)),
                    None => None,
                },
            ),
            _ => None,
        }
    }

    /// Reports an argument that its owner does not define.
    fn check_argument(&self, owner: Option<ArgumentParent>, name: &String, errors: &mut ValidationErrorContext)
        ensures
            final(errors).reported() == old(errors).reported() + unknown_argument_errors(owner, name@),
    {
        match owner {
            Some(ArgumentParent::Field(def, p)) => {
                if find_input_value_in(&def.arguments, name.as_str()).is_none() {
                    let message = concat7(
                        "Unknown argument \"",
                        name.as_str(),
                        "\" on field \"",
                        p.name(),
                        ".",
                        def.name.as_str(),
                        "\".",
                    );
                    errors.report_error(error_nowhere("KnownArgumentNames", message));
                }
            },
            Some(ArgumentParent::Directive(def)) => {
                if find_input_value_in(&def.arguments, name.as_str()).is_none() {
                    let mut message = concat3("Unknown argument \"", name.as_str(), "\" on directive \"@");
                    message.append(def.name.as_str());
                    message.append("\".");
                    errors.report_error(error_nowhere("KnownArgumentNames", message));
                }
            },
            None => {},
        }
    }
}

impl ValidationRule for KnownArgumentNames {
    open spec fn spec_kind(&self) -> RuleKind {
        RuleKind::KnownArgumentNames
    }

    open spec fn spec_errors<'a>(&self, schema: &'a schema::Document, doc: &'a Document) -> Seq<
        ErrorView,
    > {
        known_argument_names_errors(schema, doc)
    }

    fn kind(&self) -> (k: RuleKind) {
        RuleKind::KnownArgumentNames
    }

    fn error_code(&self) -> (r: &'static str)
        ensures
            r@ == known_argument_names_code(),
    {
        "KnownArgumentNames"
    }

    fn validate<'a>(&self, ctx: &OperationVisitorContext<'a>, error_collector: &mut ValidationErrorContext) {
        let steps = document_visit_steps(ctx.schema, ctx.operation);
        let ghost start = error_collector.reported();
        let mut owner: Option<ArgumentParent<'a>> = None;
        let mut i: usize = 0;
        while i < steps.len()
            invariant
                i <= steps@.len(),
                steps@ == document_steps(ctx.schema, ctx.operation),
                owner == owner_upto(ctx.schema, steps@, i as int),
                error_collector.reported() == start + known_argument_names_upto(
                    ctx.schema,
                    steps@,
                    i as int,
                ),
            decreases steps@.len() - i,
        {
            let s = &steps[i];
            if let VisitNode::Argument(a) = s.node {
                self.check_argument(owner, &a.0, error_collector);
            }
            match self.step_owner(ctx.schema, s) {
                Some(o) => {
                    owner = o;
                },
                None => {},
            }
            i = i + 1;
        }
    }
}

} // verus!
