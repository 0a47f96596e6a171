use vstd::prelude::*;

use crate::ast::ext::{field_of, type_def_name, FieldByNameExtension, TypeDefinitionExtension};
use crate::ast::operation_visitor::{OperationVisitorContext, VisitNode, VisitStep};
use crate::static_graphql::common::Pos;
use crate::static_graphql::query::{self, OperationDefinition, Selection};
use crate::static_graphql::schema;
use crate::text::{concat5, is_reserved_name, starts_with_double_underscore, str_eq};
use crate::validation::utils::{error_at, error_spec, ErrorView, ValidationErrorContext};

use super::rule::{traversal_errors, visit_with, RuleKind, StepRule, ValidationRule};

verus! {

/// A schema of pets used to exercise this rule.
pub const FIELDS_ON_CORRECT_TYPE_TEST_SCHEMA: &'static str = "
  interface Pet {
    name: String
  }
  type Dog implements Pet {
    name: String
    nickname: String
    barkVolume: Int
  }
  type Cat implements Pet {
    name: String
    nickname: String
    meowVolume: Int
  }
  union CatOrDog = Cat | Dog
  type Human {
    name: String
    pets: [Pet]
  }
  type Query {
    human: Human
  }
  type Mutation {
    deletePetByName(name: String): Pet
  }
  type Subscription {
    onNewPet: Pet
  }
";

/// Fields on correct type
///
/// A GraphQL document is only valid if all fields selected are defined by the
/// parent type, or are an allowed meta field such as __typename.
///
/// See https://spec.graphql.org/draft/#sec-Field-Selections
pub struct FieldsOnCorrectType;

pub open spec fn fields_on_correct_type_code() -> Seq<char> {
    "FieldsOnCorrectType"@
}

/// The errors for `__typename` among the first `n` root selections of a subscription.
pub open spec fn typename_root_errors(items: Seq<Selection>, n: int, pos: Pos) -> Seq<ErrorView>
    decreases n,
{
    if n <= 0 || n > items.len() {
        Seq::empty()
    } else {
        let prev = typename_root_errors(items, n - 1, pos);
        match items[n - 1] {
            Selection::Field(f) => if f.name@ == "__typename"@ {
                prev.push(
                    error_spec(
                        fields_on_correct_type_code(),
                        "`__typename` may not be included as a root field in a subscription operation"@,
                        seq![pos],
                    ),
                )
            } else {
                prev
            },
            _ => prev,
        }
    }
}

/// The errors of one traversal step: a subscription that selects
/// `__typename` at its root, or a field (other than a `__` meta field) that
/// its known parent type does not define.
pub open spec fn fields_on_correct_type_step(s: VisitStep) -> Seq<ErrorView> {
    match s.node {
        VisitNode::OperationDefinition(op) => match op {
            OperationDefinition::Subscription(sub) => typename_root_errors(
                sub.selection_set.items@,
                sub.selection_set.items@.len() as int,
                sub.position,
            ),
            _ => Seq::empty(),
        },
        VisitNode::Field(f) => match s.state.parent_type {
            Some(p) => if is_reserved_name(f.name@) || field_of(p, f.name@) is Some {
                Seq::empty()
            } else {
                seq![
                    error_spec(
                        fields_on_correct_type_code(),
                        "Cannot query field \""@ + f.name@ + "\" on type \""@ + type_def_name(p)
                            + "\"."@,
                        seq![f.position],
                    ),
                ]
            },
            None => Seq::empty(),
        },
        _ => Seq::empty(),
    }
}

impl FieldsOnCorrectType {
    pub fn new() -> (r: Self) {
        FieldsOnCorrectType
    }
}

impl StepRule for FieldsOnCorrectType {
    open spec fn step_errors<'a>(
        &self,
        schema: &'a schema::Document,
        doc: &'a query::Document,
        s: VisitStep<'a>,
    ) -> Seq<ErrorView> {
        fields_on_correct_type_step(s)
    }

    fn check_step<'a>(
        &self,
        ctx: &OperationVisitorContext<'a>,
        s: &VisitStep<'a>,
        errors: &mut ValidationErrorContext,
    ) {
        match s.node {
            VisitNode::OperationDefinition(op) => match op {
                OperationDefinition::Subscription(sub) => {
                    let items = &sub.selection_set.items;
                    let ghost start = errors.reported();
                    let mut i: usize = 0;
                    while i < items.len()
                        invariant
                            i <= items@.len(),
                            errors.reported() == start + typename_root_errors(items@, i as int, sub.position),
                        decreases items@.len() - i,
                    {
                        if let Selection::Field(f) = &items[i] {
                            if str_eq(f.name.as_str(), "__typename") {
                                errors.report_error(
                                    error_at(
                                        "FieldsOnCorrectType",
                                        String::from_str(
                                            "`__typename` may not be included as a root field in a subscription operation",
                                        ),
                                        sub.position,
                                    ),
                                );
                            }
                        }
                        i = i + 1;
                    }
                },
                _ => {
                    assert(errors.reported() =~= errors.reported() + fields_on_correct_type_step(*s));
                },
            },
            VisitNode::Field(f) => {
                if let Some(p) = s.state.parent_type {
                    if !starts_with_double_underscore(f.name.as_str()) && p.field_by_name(&f.name).is_none() {
                        let message = concat5(
                            "Cannot query field \"",
                            f.name.as_str(),
                            "\" on type \"",
                            p.name(),
                            "\".",
                        );
                        errors.report_error(error_at("FieldsOnCorrectType", message, f.position));
                        return;
                    }
                }
                assert(errors.reported() =~= errors.reported() + fields_on_correct_type_step(*s));
            },
            _ => {
                assert(errors.reported() =~= errors.reported() + fields_on_correct_type_step(*s));
            },
        }
    }
}

impl ValidationRule for FieldsOnCorrectType {
    open spec fn spec_kind(&self) -> RuleKind {
        RuleKind::FieldsOnCorrectType
    }

    open spec fn spec_errors<'a>(&self, schema: &'a schema::Document, doc: &'a query::Document) -> Seq<ErrorView> {
        traversal_errors(self, schema, doc)
    }

    fn kind(&self) -> (k: RuleKind) {
        RuleKind::FieldsOnCorrectType
    }

    fn error_code(&self) -> (r: &'static str)
        ensures
            r@ == fields_on_correct_type_code(),
    {
        "FieldsOnCorrectType"
    }

    fn validate<'a>(&self, ctx: &OperationVisitorContext<'a>, error_collector: &mut ValidationErrorContext) {
        visit_with(self, ctx, error_collector);
    }
}

} // verus!
