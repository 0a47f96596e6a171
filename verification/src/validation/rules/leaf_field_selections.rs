use vstd::prelude::*;

use crate::ast::ext::{is_leaf, type_text, type_to_string, TypeDefinitionExtension};
use crate::ast::operation_visitor::{OperationVisitorContext, VisitNode, VisitStep};
use crate::static_graphql::common::Type;
use crate::static_graphql::query::{Document, Field};
use crate::static_graphql::schema::TypeDefinition;
use crate::ast::operation_visitor::document_steps;
use crate::static_graphql::schema;
use crate::text::{concat5, concat7};
use crate::validation::utils::{error_at, error_spec, ErrorView, ValidationErrorContext};

use super::rule::{step_error_reported, traversal_errors, visit_with, RuleKind, StepRule, ValidationRule};

verus! {

/// Leaf field selections
///
/// A GraphQL document is valid only if all leaf fields (fields without
/// sub selections) are of scalar or enum types.
///
/// See https://spec.graphql.org/draft/#sec-Leaf-Field-Selections
pub struct LeafFieldSelections;

impl LeafFieldSelections {
    pub fn new() -> (r: Self) {
        LeafFieldSelections
    }
}

pub open spec fn leaf_field_selections_code() -> Seq<char> {
    "LeafFieldSelections"@
}

/// The errors at one step: a field of a leaf type that has a selection set, or
/// a field of another known type that has none.
pub open spec fn leaf_field_selections_step<'a>(s: VisitStep<'a>) -> Seq<ErrorView> {
    match s.node {
        VisitNode::Field(f) => match (s.state.current_type, s.state.type_literal) {
            (Some(t), Some(lit)) => {
                let count = f.selection_set.items@.len();
                if is_leaf(t) {
                    if count > 0 {
                        seq![
                            error_spec(
                                leaf_field_selections_code(),
                                "Field \""@ + f.name@ + "\" must not have a selection since type \""@
                                    + type_text(*lit) + "\" has no subfields."@,
                                seq![f.position],
                            ),
                        ]
                    } else {
                        Seq::empty()
                    }
                } else if count == 0 {
                    seq![
                        error_spec(
                            leaf_field_selections_code(),
                            "Field \""@ + f.name@ + "\" of type \""@ + type_text(*lit)
                                + "\" must have a selection of subfields. Did you mean \""@ + f.name@
                                + " { ... }\"?"@,
                            seq![f.position],
                        ),
                    ]
                } else {
                    Seq::empty()
                }
            },
            _ => Seq::empty(),
        },
        _ => Seq::empty(),
    }
}

impl StepRule for LeafFieldSelections {
    open spec fn step_errors<'a>(
        &self,
        schema: &'a schema::Document,
        doc: &'a Document,
        s: VisitStep<'a>,
    ) -> Seq<ErrorView> {
        leaf_field_selections_step(s)
    }

    fn check_step<'a>(
        &self,
        ctx: &OperationVisitorContext<'a>,
        s: &VisitStep<'a>,
        errors: &mut ValidationErrorContext,
    ) {
        if let VisitNode::Field(f) = s.node {
            if let (Some(t), Some(lit)) = (s.state.current_type, s.state.type_literal) {
                let count = f.selection_set.items.len();
                let lit_text = type_to_string(lit);
                if t.is_leaf_type() {
                    if count > 0 {
                        let message = concat5(
                            "Field \"",
                            f.name.as_str(),
                            "\" must not have a selection since type \"",
                            lit_text.as_str(),
                            "\" has no subfields.",
                        );
                        errors.report_error(error_at("LeafFieldSelections", message, f.position));
                    }
                } else if count == 0 {
                    let message = concat7(
                        "Field \"",
                        f.name.as_str(),
                        "\" of type \"",
                        lit_text.as_str(),
                        "\" must have a selection of subfields. Did you mean \"",
                        f.name.as_str(),
                        " { ... }\"?",
                    );
                    errors.report_error(error_at("LeafFieldSelections", message, f.position));
                }
            }
        }
    }
}

impl ValidationRule for LeafFieldSelections {
    open spec fn spec_kind(&self) -> RuleKind {
        RuleKind::LeafFieldSelections
    }

    open spec fn spec_errors<'a>(&self, schema: &'a schema::Document, doc: &'a Document) -> Seq<
        ErrorView,
    > {
        traversal_errors(self, schema, doc)
    }

    fn kind(&self) -> (k: RuleKind) {
        RuleKind::LeafFieldSelections
    }

    fn error_code(&self) -> (r: &'static str)
        ensures
            r@ == leaf_field_selections_code(),
    {
        "LeafFieldSelections"
    }

    fn validate<'a>(&self, ctx: &OperationVisitorContext<'a>, error_collector: &mut ValidationErrorContext) {
        visit_with(self, ctx, error_collector);
    }
}


/// A field whose type is known and is an object, an interface or a union,
/// and that selects no subfield, gets exactly one error, at the field, asking
/// for a selection of subfields; where that field is a step of a document's
/// traversal, the rule reports that error for the document.
pub proof fn composite_field_without_selection_reported<'a>(
    schema: &'a schema::Document,
    doc: &'a Document,
    s: VisitStep<'a>,
    f: &'a Field,
    t: &'a TypeDefinition,
    lit: &'a Type,
)
    requires
        s.node == VisitNode::Field(f),
        s.state.current_type == Some(t),
        s.state.type_literal == Some(lit),
        t is Object || t is Interface || t is Union,
        f.selection_set.items@.len() == 0,
    ensures
        LeafFieldSelections.step_errors(schema, doc, s) == seq![
            error_spec(
                leaf_field_selections_code(),
                "Field \""@ + f.name@ + "\" of type \""@ + type_text(*lit)
                    + "\" must have a selection of subfields. Did you mean \""@ + f.name@ + " { ... }\"?"@,
                seq![f.position],
            ),
        ],
        forall|i: int|
            0 <= i < document_steps(schema, doc).len() && document_steps(schema, doc)[i] == s
                ==> #[trigger] LeafFieldSelections.spec_errors(schema, doc).contains(
                error_spec(
                    leaf_field_selections_code(),
                    "Field \""@ + f.name@ + "\" of type \""@ + type_text(*lit)
                        + "\" must have a selection of subfields. Did you mean \""@ + f.name@ + " { ... }\"?"@,
                    seq![f.position],
                ),
            ),
{
    assert forall|i: int|
        0 <= i < document_steps(schema, doc).len() && document_steps(schema, doc)[i] == s implies #[trigger] LeafFieldSelections.spec_errors(
        schema,
        doc,
    ).contains(
        error_spec(
            leaf_field_selections_code(),
            "Field \""@ + f.name@ + "\" of type \""@ + type_text(*lit)
                + "\" must have a selection of subfields. Did you mean \""@ + f.name@ + " { ... }\"?"@,
            seq![f.position],
        ),
    ) by {
        step_error_reported(&LeafFieldSelections, schema, doc, i, 0);
    }
}

/// A field whose type is a scalar or an enum and that selects subfields gets
/// exactly one error, at the field, saying that the type has no subfields.
pub proof fn leaf_field_with_selection_reported<'a>(
    schema: &'a schema::Document,
    doc: &'a Document,
    s: VisitStep<'a>,
    f: &'a Field,
    t: &'a TypeDefinition,
    lit: &'a Type,
)
    requires
        s.node == VisitNode::Field(f),
        s.state.current_type == Some(t),
        s.state.type_literal == Some(lit),
        t is Scalar || t is Enum,
        f.selection_set.items@.len() > 0,
    ensures
        LeafFieldSelections.step_errors(schema, doc, s) == seq![
            error_spec(
                leaf_field_selections_code(),
                "Field \""@ + f.name@ + "\" must not have a selection since type \""@ + type_text(*lit)
                    + "\" has no subfields."@,
                seq![f.position],
            ),
        ],
{
}

/// A field of a scalar or enum type without subfields, a field of any other
/// type with subfields, a field of unknown type, and every step that is not
/// a field get no error.
pub proof fn well_selected_field_not_reported<'a>(schema: &'a schema::Document, doc: &'a Document, s: VisitStep<'a>)
    requires
        match s.node {
            VisitNode::Field(f) => match s.state.current_type {
                Some(t) => ((t is Scalar || t is Enum) <==> f.selection_set.items@.len() == 0),
                None => true,
            },
            _ => true,
        },
    ensures
        LeafFieldSelections.step_errors(schema, doc, s).len() == 0,
{
}

} // verus!
