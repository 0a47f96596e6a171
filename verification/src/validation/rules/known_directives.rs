use vstd::prelude::*;

use crate::ast::operation_visitor::{known_directive, OperationVisitorContext, VisitNode, VisitStep};
use crate::static_graphql::query::Document;
use crate::static_graphql::schema::{self, location_name, DirectiveLocation};
use crate::text::concat3;
use crate::validation::utils::{error_at, error_spec, ErrorView, ValidationErrorContext};

use super::rule::{traversal_errors, visit_with, RuleKind, StepRule, ValidationRule};

verus! {

/// Known directives
///
/// A GraphQL document is only valid if all `@directives` are known by the
/// schema and legally positioned.
///
/// See https://spec.graphql.org/draft/#sec-Directives-Are-Defined
pub struct KnownDirectives;

pub open spec fn known_directives_code() -> Seq<char> {
    "KnownDirectives"@
}

/// The errors at one step: a directive that the schema does not define, or
/// one whose definition does not allow the kind of node that it is applied to.
pub open spec fn known_directives_step<'a>(schema: &'a schema::Document, s: VisitStep<'a>) -> Seq<
    ErrorView,
> {
    match s.node {
        VisitNode::Directive(d, loc) => match known_directive(schema, d.name@) {
            Some(def) => if def.locations@.contains(loc) {
                Seq::empty()
            } else {
                seq![
                    error_spec(
                        known_directives_code(),
                        "Directive \"@"@ + d.name@ + "\" may not be used on "@ + location_name(loc),
                        seq![d.position],
                    ),
                ]
            },
            None => seq![
                error_spec(
                    known_directives_code(),
                    "Unknown directive \"@"@ + d.name@ + "\"."@,
                    seq![d.position],
                ),
            ],
        },
        _ => Seq::empty(),
    }
}

/// Whether `loc` is among `locations`.
pub fn locations_contain(locations: &Vec<DirectiveLocation>, loc: DirectiveLocation) -> (r: bool)
    ensures
        r == locations@.contains(loc),
{
    let mut i: usize = 0;
    while i < locations.len()
        invariant
            i <= locations@.len(),
            forall|j: int| 0 <= j < i ==> locations@[j] != loc,
        decreases locations@.len() - i,
    {
        if locations[i] == loc {
            return true;
        }
        i = i + 1;
    }
    false
}

impl KnownDirectives {
    pub fn new() -> (r: Self) {
        KnownDirectives
    }
}

impl StepRule for KnownDirectives {
    open spec fn step_errors<'a>(
        &self,
        schema: &'a schema::Document,
        doc: &'a Document,
        s: VisitStep<'a>,
    ) -> Seq<ErrorView> {
        known_directives_step(schema, s)
    }

    fn check_step<'a>(
        &self,
        ctx: &OperationVisitorContext<'a>,
        s: &VisitStep<'a>,
        errors: &mut ValidationErrorContext,
    ) {
        if let VisitNode::Directive(d, loc) = s.node {
            match ctx.directive_by_name(d.name.as_str()) {
                Some(def) => {
                    if !locations_contain(&def.locations, loc) {
                        let message = concat3(
                            "Directive \"@",
                            d.name.as_str(),
                            "\" may not be used on ",
                        );
                        let mut message = message;
                        message.append(loc.as_str());
                        errors.report_error(error_at("KnownDirectives", message, d.position));
                    }
                },
                None => {
                    let message = concat3("Unknown directive \"@", d.name.as_str(), "\".");
                    errors.report_error(error_at("KnownDirectives", message, d.position));
                },
            }
        }
    }
}

impl ValidationRule for KnownDirectives {
    open spec fn spec_kind(&self) -> RuleKind {
        RuleKind::KnownDirectives
    }

    open spec fn spec_errors<'a>(&self, schema: &'a schema::Document, doc: &'a Document) -> Seq<
        ErrorView,
    > {
        traversal_errors(self, schema, doc)
    }

    fn kind(&self) -> (k: RuleKind) {
        RuleKind::KnownDirectives
    }

    fn error_code(&self) -> (r: &'static str)
        ensures
            r@ == known_directives_code(),
    {
        "KnownDirectives"
    }

    fn validate<'a>(&self, ctx: &OperationVisitorContext<'a>, error_collector: &mut ValidationErrorContext) {
        visit_with(self, ctx, error_collector);
    }
}

} // verus!
