use vstd::prelude::*;

use crate::ast::ext::{
    find_input_value, find_input_value_in, inner_name, is_leaf, is_required_spec, type_named,
    type_text, type_to_string, InputValueHelpers, SchemaDocumentExtension,
    TypeDefinitionExtension, TypeExtension,
};
use crate::ast::operation_visitor::{OperationVisitorContext, VisitNode, VisitStep};
use crate::parser::{int_text, int_to_string, quote_string, quoted_text};
use crate::static_graphql::query::{Document, Type, Value};
use crate::static_graphql::schema::{self, EnumType, InputObjectType, TypeDefinition};
use crate::text::{concat3, concat5, concat7, str_eq};
use crate::validation::utils::{error_nowhere, error_spec, ErrorView, ValidationErrorContext};

use super::provided_required_arguments::argument_used;
use super::rule::{traversal_errors, visit_with, RuleKind, StepRule, ValidationRule};

verus! {

/// Value literals of correct type
///
/// A GraphQL document is only valid if all value literals are of the type
/// expected at their position.
///
/// See https://spec.graphql.org/draft/#sec-Values-of-Correct-Type
pub struct ValuesOfCorrectType;

pub open spec fn values_of_correct_type_code() -> Seq<char> {
    "ValuesOfCorrectType"@
}

/// Whether `name` is not one of GraphQL's built-in scalars.
pub open spec fn is_custom_scalar_name(name: Seq<char>) -> bool {
    !(name == "String"@ || name == "Int"@ || name == "Float"@ || name == "Boolean"@ || name == "ID"@)
}

/// Whether the built-in scalar named `scalar` accepts the literal `v`.
pub open spec fn scalar_accepts(scalar: Seq<char>, v: Value) -> bool {
    ||| scalar == "Int"@ && v is Int
    ||| scalar == "ID"@ && (v is Int || v is String)
    ||| scalar == "Float"@ && (v is Int || v is Float)
    ||| scalar == "Boolean"@ && v is Boolean
    ||| scalar == "String"@ && v is String
}

/// The text that `graphql_parser` writes for a scalar or enum literal (the
/// only literals that the rule quotes); other values have no text here.
pub open spec fn scalar_text(v: Value) -> Seq<char> {
    match v {
        Value::Int(i) => int_text(i as int),
        Value::Float(t) => t@,
        Value::String(s) => quoted_text(s@),
        Value::Boolean(b) => if b {
            "true"@
        } else {
            "false"@
        },
        Value::Enum(n) => n@,
        _ => Seq::empty(),
    }
}

/// Whether an enum type has a value named `name`.
pub open spec fn enum_has_value(e: &EnumType, name: Seq<char>) -> bool {
    exists|j: int| 0 <= j < e.values@.len() && #[trigger] e.values@[j].name@ == name
}

/// The error with `message` and no location.
pub open spec fn value_error(message: Seq<char>) -> ErrorView {
    error_spec(values_of_correct_type_code(), message, Seq::empty())
}

/// The errors for a scalar or enum literal `v` where the type `lit` is
/// expected: a type that is not a leaf type, a built-in scalar that does not
/// accept it, or an enum that does not have it as a value.
pub open spec fn literal_errors(schema: &schema::Document, lit: Option<&Type>, v: Value) -> Seq<ErrorView> {
    match lit {
        None => Seq::empty(),
        Some(t) => match type_named(schema, inner_name(*t)) {
            None => Seq::empty(),
            Some(def) => (if !is_leaf(def) {
                seq![
                    value_error(
                        "Expected value of type \""@ + inner_name(*t) + "\", found "@ + scalar_text(v) + "."@,
                    ),
                ]
            } else {
                Seq::empty()
            }) + match def {
                TypeDefinition::Scalar(sc) => if scalar_accepts(sc.name@, v) || is_custom_scalar_name(sc.name@) {
                    Seq::empty()
                } else {
                    seq![
                        value_error(
                            "Expected value of type \""@ + sc.name@ + "\", found "@ + scalar_text(v) + "."@,
                        ),
                    ]
                },
                TypeDefinition::Enum(en) => match v {
                    Value::Enum(e) => if enum_has_value(en, e@) {
                        Seq::empty()
                    } else {
                        seq![
                            value_error(
                                "Value \""@ + e@ + "\" does not exist in \""@ + en.name@ + "\" enum."@,
                            ),
                        ]
                    },
                    _ => seq![
                        value_error(
                            "Enum \""@ + en.name@ + "\" cannot represent non-enum value: "@ + scalar_text(v),
                        ),
                    ],
                },
                _ => Seq::empty(),
            },
        },
    }
}

/// The errors for the required fields among the first `n` fields of `io`
/// that an object literal with `fields` does not provide.
pub open spec fn missing_field_errors(io: &InputObjectType, fields: Seq<(String, Value)>, n: int) -> Seq<ErrorView>
    decreases n,
{
    if n <= 0 || n > io.fields@.len() {
        Seq::empty()
    } else {
        let f = io.fields@[n - 1];
        missing_field_errors(io, fields, n - 1) + if is_required_spec(&f) && !argument_used(fields, f.name@) {
            seq![
                value_error(
                    "Field \""@ + io.name@ + "."@ + f.name@ + "\" of required type \""@ + type_text(f.value_type)
                        + "\" was not provided."@,
                ),
            ]
        } else {
            Seq::empty()
        }
    }
}

/// The errors for the first `n` fields of an object literal that `io` does not define.
pub open spec fn unknown_field_errors(io: &InputObjectType, fields: Seq<(String, Value)>, n: int) -> Seq<ErrorView>
    decreases n,
{
    if n <= 0 || n > fields.len() {
        Seq::empty()
    } else {
        let key = fields[n - 1].0@;
        unknown_field_errors(io, fields, n - 1) + if find_input_value(&io.fields, key, 0) is None {
            seq![value_error("Field \""@ + key + "\" is not defined by type \""@ + io.name@ + "\"."@)]
        } else {
            Seq::empty()
        }
    }
}

/// The errors at one step: a null where a non-null type is expected; an
/// object literal where an input object is expected, for its missing and its
/// unknown fields; and each scalar or enum literal.
pub open spec fn values_of_correct_type_step<'a>(schema: &'a schema::Document, s: VisitStep<'a>) -> Seq<ErrorView> {
    match s.node {
        VisitNode::NullValue => match s.state.input_type_literal {
            Some(t) => if t is NonNullType {
                seq![value_error("Expected value of type \""@ + type_text(*t) + "\", found null"@)]
            } else {
                Seq::empty()
            },
            None => Seq::empty(),
        },
        VisitNode::ObjectValue(fields) => match s.state.input_type {
            Some(TypeDefinition::InputObject(io)) => missing_field_errors(io, fields@, io.fields@.len() as int)
                + unknown_field_errors(io, fields@, fields@.len() as int),
            _ => Seq::empty(),
        },
        VisitNode::EnumValue(e) => literal_errors(schema, s.state.input_type_literal, Value::Enum(*e)),
        VisitNode::ScalarValue(v) => literal_errors(schema, s.state.input_type_literal, *v),
        _ => Seq::empty(),
    }
}

/// The text of a scalar or enum literal.
fn literal_text(v: &Value) -> (r: String)
    ensures
        r@ == scalar_text(*v),
{
    match v {
        Value::Int(i) => int_to_string(*i),
        Value::Float(t) => t.clone(),
        Value::String(s) => quote_string(s.as_str()),
        Value::Boolean(b) => if *b {
            String::from_str("true")
        } else {
            String::from_str("false")
        },
        Value::Enum(n) => n.clone(),
        _ => String::new(),
    }
}

/// Whether an enum type has a value named `name`.
fn has_enum_value(e: &EnumType, name: &str) -> (r: bool)
    ensures
        r == enum_has_value(e, name@),
{
    let mut i: usize = 0;
    while i < e.values.len()
        invariant
            i <= e.values@.len(),
            forall|j: int| 0 <= j < i ==> e.values@[j].name@ != name@,
        decreases e.values@.len() - i,
    {
        if str_eq(e.values[i].name.as_str(), name) {
            return true;
        }
        i = i + 1;
    }
    false
}

/// Whether an object literal has a field named `name`.
fn has_field(fields: &Vec<(String, Value)>, name: &str) -> (r: bool)
    ensures
        r == argument_used(fields@, name@),
{
    let mut i: usize = 0;
    while i < fields.len()
        invariant
            i <= fields@.len(),
            forall|j: int| 0 <= j < i ==> fields@[j].0@ != name@,
        decreases fields@.len() - i,
    {
        if str_eq(fields[i].0.as_str(), name) {
            return true;
        }
        i = i + 1;
    }
    false
}

impl ValuesOfCorrectType {
    pub fn new() -> (r: Self) {
        ValuesOfCorrectType
    }

    /// Whether `name` is not one of GraphQL's built-in scalars.
    pub fn is_custom_scalar(&self, name: &str) -> (r: bool)
        ensures
            r == is_custom_scalar_name(name@),
    {
        proof {
            reveal_strlit("String");
            reveal_strlit("Int");
            reveal_strlit("Float");
            reveal_strlit("Boolean");
            reveal_strlit("ID");
        }
        !(str_eq(name, "String") || str_eq(name, "Int") || str_eq(name, "Float") || str_eq(name, "Boolean")
            || str_eq(name, "ID"))
    }

    /// Reports the errors for a scalar or enum literal where `lit` is expected.
    pub fn validate_value(
        &self,
        schema: &schema::Document,
        lit: Option<&Type>,
        raw_value: &Value,
        errors: &mut ValidationErrorContext,
    )
        ensures
            final(errors).reported() == old(errors).reported() + literal_errors(schema, lit, *raw_value),
    {
        let ghost start = errors.reported();
        if let Some(t) = lit {
            let named_type = t.inner_type();
            if let Some(def) = schema.type_by_name(named_type.as_str()) {
                let text = literal_text(raw_value);
                if !def.is_leaf_type() {
                    let mut message = concat5("Expected value of type \"", named_type.as_str(), "\", found ", text.as_str(), ".");
                    errors.report_error(error_nowhere("ValuesOfCorrectType", message));
                }
                let ghost mid = errors.reported();
                match def {
                    TypeDefinition::Scalar(sc) => {
                        let accepted = match raw_value {
                            Value::Int(_) => str_eq(sc.name.as_str(), "Int") || str_eq(sc.name.as_str(), "ID")
                                || str_eq(sc.name.as_str(), "Float"),
                            Value::String(_) => str_eq(sc.name.as_str(), "ID") || str_eq(sc.name.as_str(), "String"),
                            Value::Float(_) => str_eq(sc.name.as_str(), "Float"),
                            Value::Boolean(_) => str_eq(sc.name.as_str(), "Boolean"),
                            _ => false,
                        };
                        proof {
                            reveal_strlit("Int");
                            reveal_strlit("ID");
                            reveal_strlit("Float");
                            reveal_strlit("String");
                            reveal_strlit("Boolean");
                        }
                        assert(accepted == scalar_accepts(sc.name@, *raw_value));
                        if !accepted && !self.is_custom_scalar(sc.name.as_str()) {
                            let message = concat5("Expected value of type \"", sc.name.as_str(), "\", found ", text.as_str(), ".");
                            errors.report_error(error_nowhere("ValuesOfCorrectType", message));
                        }
                    },
                    TypeDefinition::Enum(en) => {
                        match raw_value {
                            Value::Enum(e) => {
                                if !has_enum_value(en, e.as_str()) {
                                    let message = concat5("Value \"", e.as_str(), "\" does not exist in \"", en.name.as_str(), "\" enum.");
                                    errors.report_error(error_nowhere("ValuesOfCorrectType", message));
                                }
                            },
                            _ => {
                                let message = concat3("Enum \"", en.name.as_str(), "\" cannot represent non-enum value: ");
                                let mut message = message;
                                message.append(text.as_str());
                                errors.report_error(error_nowhere("ValuesOfCorrectType", message));
                            },
                        }
                    },
                    _ => {},
                }
            }
        }
    }

    /// Reports the missing and the unknown fields of an object literal where `io` is expected.
    fn check_object(&self, io: &InputObjectType, fields: &Vec<(String, Value)>, errors: &mut ValidationErrorContext)
        ensures
            final(errors).reported() == old(errors).reported() + missing_field_errors(io, fields@, io.fields@.len() as int)
                + unknown_field_errors(io, fields@, fields@.len() as int),
    {
        let ghost start = errors.reported();
        let mut i: usize = 0;
        while i < io.fields.len()
            invariant
                i <= io.fields@.len(),
                errors.reported() == start + missing_field_errors(io, fields@, i as int),
            decreases io.fields@.len() - i,
        {
            let f = &io.fields[i];
            if f.is_required() && !has_field(fields, f.name.as_str()) {
                let type_string = type_to_string(&f.value_type);
                let message = concat7(
                    "Field \"",
                    io.name.as_str(),
                    ".",
                    f.name.as_str(),
                    "\" of required type \"",
                    type_string.as_str(),
                    "\" was not provided.",
                );
                errors.report_error(error_nowhere("ValuesOfCorrectType", message));
            }
            i = i + 1;
        }
        let ghost mid = errors.reported();
        let mut k: usize = 0;
        while k < fields.len()
            invariant
                k <= fields@.len(),
                mid == start + missing_field_errors(io, fields@, io.fields@.len() as int),
                errors.reported() == mid + unknown_field_errors(io, fields@, k as int),
            decreases fields@.len() - k,
        {
            let key = &fields[k].0;
            if find_input_value_in(&io.fields, key.as_str()).is_none() {
                let message = concat5("Field \"", key.as_str(), "\" is not defined by type \"", io.name.as_str(), "\".");
                errors.report_error(error_nowhere("ValuesOfCorrectType", message));
            }
            k = k + 1;
        }
    }
}

impl StepRule for ValuesOfCorrectType {
    open spec fn step_errors<'a>(
        &self,
        schema: &'a schema::Document,
        doc: &'a Document,
        s: VisitStep<'a>,
    ) -> Seq<ErrorView> {
        values_of_correct_type_step(schema, s)
    }

    fn check_step<'a>(
        &self,
        ctx: &OperationVisitorContext<'a>,
        s: &VisitStep<'a>,
        errors: &mut ValidationErrorContext,
    ) {
        match s.node {
            VisitNode::NullValue => {
                if let Some(t) = s.state.input_type_literal {
                    if t.is_non_null() {
                        let type_string = type_to_string(t);
                        let message = concat3("Expected value of type \"", type_string.as_str(), "\", found null");
                        errors.report_error(error_nowhere("ValuesOfCorrectType", message));
                    }
                }
            },
            VisitNode::ObjectValue(fields) => {
                if let Some(TypeDefinition::InputObject(io)) = s.state.input_type {
                    self.check_object(io, fields, errors);
                }
            },
            VisitNode::EnumValue(e) => {
                let v = Value::Enum(e.clone());
                self.validate_value(ctx.schema, s.state.input_type_literal, &v, errors);
            },
            VisitNode::ScalarValue(v) => {
                self.validate_value(ctx.schema, s.state.input_type_literal, v, errors);
            },
            _ => {},
        }
    }
}

impl ValidationRule for ValuesOfCorrectType {
    open spec fn spec_kind(&self) -> RuleKind {
        RuleKind::ValuesOfCorrectType
    }

    open spec fn spec_errors<'a>(&self, schema: &'a schema::Document, doc: &'a Document) -> Seq<
        ErrorView,
    > {
        traversal_errors(self, schema, doc)
    }

    fn kind(&self) -> (k: RuleKind) {
        RuleKind::ValuesOfCorrectType
    }

    fn error_code(&self) -> (r: &'static str)
        ensures
            r@ == values_of_correct_type_code(),
    {
        "ValuesOfCorrectType"
    }

    fn validate<'a>(&self, ctx: &OperationVisitorContext<'a>, error_collector: &mut ValidationErrorContext) {
        visit_with(self, ctx, error_collector);
    }
}

} // verus!
