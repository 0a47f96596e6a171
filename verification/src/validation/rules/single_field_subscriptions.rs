use vstd::prelude::*;

use crate::ast::collect_fields::{collect_fields, collected_fields};
use crate::ast::ext::{subscription_root_name, type_named, SchemaDocumentExtension};
use crate::ast::operation_visitor::{OperationVisitorContext, VisitNode, VisitStep};
use crate::static_graphql::common::Pos;
use crate::static_graphql::query::{Document, Field, OperationDefinition};
use crate::static_graphql::schema::{self, TypeDefinition};
use crate::text::{concat3, is_reserved_name, starts_with_double_underscore};
use crate::validation::utils::{error_at, error_spec, ErrorView, ValidationErrorContext};

use super::names::{distinct, distinct_names, texts};
use super::rule::{traversal_errors, visit_with, RuleKind, StepRule, ValidationRule};

verus! {

/// A schema with a subscription root type used to exercise this rule.
pub const TEST_SCHEMA_SUBSCRIPTION: &'static str = "
type Message {
  body: String
  sender: String
}
type SubscriptionRoot {
  importantEmails: [String]
  notImportantEmails: [String]
  moreImportantEmails: [String]
  spamEmails: [String]
  deletedEmails: [String]
  newMessage: Message
}
type QueryRoot {
  dummy: String
}
schema {
  query: QueryRoot
  subscription: SubscriptionRoot
}
";

/// Single field subscriptions
///
/// A subscription is only valid if it selects exactly one top level field,
/// and not an introspection field.
///
/// See https://spec.graphql.org/draft/#sec-Single-root-field
pub struct SingleFieldSubscriptions;

pub open spec fn single_field_subscriptions_code() -> Seq<char> {
    "SingleFieldSubscriptions"@
}

/// The definition of the subscription root type, when the schema names one
/// and it is an object type.
pub open spec fn subscription_root_definition<'a>(schema: &'a schema::Document) -> Option<&'a TypeDefinition> {
    match subscription_root_name(schema) {
        Some(n) => match type_named(schema, n) {
            Some(TypeDefinition::Object(_)) => type_named(schema, n),
            _ => None,
        },
        None => None,
    }
}

/// The names of a list of fields.
pub open spec fn field_names<'a>(fields: Seq<&'a Field>) -> Seq<Seq<char>> {
    fields.map_values(|f: &'a Field| f.name@)
}

/// The message for a subscription that selects more than one top level field.
pub open spec fn many_fields_message(name: Option<Seq<char>>) -> Seq<char> {
    match name {
        Some(n) => "Subscription \""@ + n + "\" must select only one top level field."@,
        None => "Anonymous Subscription must select only one top level field."@,
    }
}

/// The message for a subscription that selects an introspection top level field.
pub open spec fn introspection_message(name: Option<Seq<char>>) -> Seq<char> {
    match name {
        Some(n) => "Subscription \""@ + n + "\" must not select an introspection top level field."@,
        None => "Anonymous Subscription must not select an introspection top level field."@,
    }
}

/// The errors for a subscription whose top level fields have the distinct
/// names `names`: one when there are several, and one for each
/// introspection name.
pub open spec fn subscription_errors(names: Seq<Seq<char>>, op_name: Option<Seq<char>>, pos: Pos) -> Seq<ErrorView> {
    (if names.len() > 1 {
        seq![error_spec(single_field_subscriptions_code(), many_fields_message(op_name), seq![pos])]
    } else {
        Seq::empty()
    }) + names.filter(|n: Seq<char>| is_reserved_name(n)).map_values(
        |n: Seq<char>| error_spec(single_field_subscriptions_code(), introspection_message(op_name), seq![pos]),
    )
}

/// The errors at one step: a subscription, when the schema has a
/// subscription root type, checked on the fields it selects on that type.
pub open spec fn single_field_subscriptions_step<'a>(
    schema: &'a schema::Document,
    doc: &'a Document,
    s: VisitStep<'a>,
) -> Seq<ErrorView> {
    match s.node {
        VisitNode::OperationDefinition(OperationDefinition::Subscription(sub)) => match subscription_root_definition(schema) {
            Some(root) => {
                let names = field_names(collected_fields(schema, doc, &sub.selection_set, root));
                subscription_errors(
                    distinct(names, names.len() as int),
                    match sub.name {
                        Some(n) => Some(n@),
                        None => None,
                    },
                    sub.position,
                )
            },
            None => Seq::empty(),
        },
        _ => Seq::empty(),
    }
}

/// The definition of the subscription root type.
fn subscription_root_type<'a>(schema: &'a schema::Document) -> (r: Option<&'a TypeDefinition>)
    ensures
        r == subscription_root_definition(schema),
{
    let name: Option<&str> = match schema.schema_definition() {
        Some(d) => match &d.subscription {
            Some(n) => Some(n.as_str()),
            None => None,
        },
        None => Some("Subscription"),
    };
    match name {
        Some(n) => match schema.type_by_name(n) {
            Some(t) => match t {
                TypeDefinition::Object(_) => Some(t),
                _ => None,
            },
            None => None,
        },
        None => None,
    }
}

impl SingleFieldSubscriptions {
    pub fn new() -> (r: Self) {
        SingleFieldSubscriptions
    }

    /// Reports the errors for a subscription whose distinct top level field names are `names`.
    fn check_names(
        &self,
        names: &Vec<&String>,
        op_name: Option<&String>,
        pos: Pos,
        errors: &mut ValidationErrorContext,
    )
        ensures
            final(errors).reported() == old(errors).reported() + subscription_errors(
                texts(names@),
                match op_name {
                    Some(n) => Some(n@),
                    None => None,
                },
                pos,
            ),
    {
        let ghost name_view = match op_name {
            Some(n) => Some(n@),
            None => None,
        };
        let ghost start = errors.reported();
        if names.len() > 1 {
            let message = match op_name {
                Some(n) => concat3("Subscription \"", n.as_str(), "\" must select only one top level field."),
                None => String::from_str("Anonymous Subscription must select only one top level field."),
            };
            errors.report_error(error_at("SingleFieldSubscriptions", message, pos));
        }
        let ghost head = errors.reported();
        let ghost t = texts(names@);
        let ghost pred = |n: Seq<char>| is_reserved_name(n);
        let ghost f = |n: Seq<char>| error_spec(single_field_subscriptions_code(), introspection_message(name_view), seq![pos]);
        let mut k: usize = 0;
        while k < names.len()
            invariant
                k <= names@.len(),
                t == texts(names@),
                pred == (|n: Seq<char>| is_reserved_name(n)),
                f == (|n: Seq<char>| error_spec(single_field_subscriptions_code(), introspection_message(name_view), seq![pos])),
                name_view == match op_name {
                    Some(n) => Some(n@),
                    None => None,
                },
                errors.reported() == head + texts(names@.subrange(0, k as int)).filter(pred).map_values(f),
            decreases names@.len() - k,
        {
            let name = names[k];
            proof {
                assert(names@.subrange(0, k + 1) =~= names@.subrange(0, k as int).push(name));
                assert(texts(names@.subrange(0, k + 1)) =~= texts(names@.subrange(0, k as int)).push(name@));
                texts(names@.subrange(0, k as int)).lemma_filter_push(name@, pred);
            }
            if starts_with_double_underscore(name.as_str()) {
                let message = match op_name {
                    Some(n) => concat3(
                        "Subscription \"",
                        n.as_str(),
                        "\" must not select an introspection top level field.",
                    ),
                    None => String::from_str("Anonymous Subscription must not select an introspection top level field."),
                };
                errors.report_error(error_at("SingleFieldSubscriptions", message, pos));
                assert(texts(names@.subrange(0, k + 1)).filter(pred).map_values(f) =~= texts(
                    names@.subrange(0, k as int),
                ).filter(pred).map_values(f).push(f(name@)));
            }
            k = k + 1;
        }
        assert(names@.subrange(0, names@.len() as int) =~= names@);
    }
}

impl StepRule for SingleFieldSubscriptions {
    open spec fn step_errors<'a>(
        &self,
        schema: &'a schema::Document,
        doc: &'a Document,
        s: VisitStep<'a>,
    ) -> Seq<ErrorView> {
        single_field_subscriptions_step(schema, doc, s)
    }

    fn check_step<'a>(
        &self,
        ctx: &OperationVisitorContext<'a>,
        s: &VisitStep<'a>,
        errors: &mut ValidationErrorContext,
    ) {
        if let VisitNode::OperationDefinition(OperationDefinition::Subscription(sub)) = s.node {
            if let Some(root) = subscription_root_type(ctx.schema) {
                let fields = collect_fields(&sub.selection_set, root, ctx);
                let mut names: Vec<&String> = Vec::new();
                let mut i: usize = 0;
                while i < fields.len()
                    invariant
                        i <= fields@.len(),
                        texts(names@) == field_names(fields@.subrange(0, i as int)),
                    decreases fields@.len() - i,
                {
                    let ghost prev = names@;
                    names.push(&fields[i].name);
                    assert(texts(names@) =~= texts(prev).push(fields@[i as int].name@));
                    assert(fields@.subrange(0, i + 1) =~= fields@.subrange(0, i as int).push(fields@[i as int]));
                    assert(field_names(fields@.subrange(0, i + 1)) =~= field_names(fields@.subrange(0, i as int)).push(fields@[i as int].name@));
                    assert(texts(names@) =~= field_names(fields@.subrange(0, i + 1)));
                    i = i + 1;
                }
                assert(fields@.subrange(0, fields@.len() as int) =~= fields@);
                let unique = distinct_names(&names);
                self.check_names(&unique, sub.name.as_ref(), sub.position, errors);
            }
        }
    }
}

impl ValidationRule for SingleFieldSubscriptions {
    open spec fn spec_kind(&self) -> RuleKind {
        RuleKind::SingleFieldSubscriptions
    }

    open spec fn spec_errors<'a>(&self, schema: &'a schema::Document, doc: &'a Document) -> Seq<
        ErrorView,
    > {
        traversal_errors(self, schema, doc)
    }

    fn kind(&self) -> (k: RuleKind) {
        RuleKind::SingleFieldSubscriptions
    }

    fn error_code(&self) -> (r: &'static str)
        ensures
            r@ == single_field_subscriptions_code(),
    {
        "SingleFieldSubscriptions"
    }

    fn validate<'a>(&self, ctx: &OperationVisitorContext<'a>, error_collector: &mut ValidationErrorContext) {
        visit_with(self, ctx, error_collector);
    }
}

} // verus!
