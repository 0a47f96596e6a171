//! Executable documents: operations and fragments.
use vstd::prelude::*;

pub use super::common::{Directive, Pos, Type, TypeView, Value};

verus! {

#[derive(Debug)]
pub struct Document {
    pub definitions: Vec<Definition>,
}

#[derive(Debug)]
pub enum Definition {
    Operation(OperationDefinition),
    Fragment(FragmentDefinition),
}

#[derive(Debug)]
pub struct FragmentDefinition {
    pub position: Pos,
    pub name: String,
    pub type_condition: TypeCondition,
    pub directives: Vec<Directive>,
    pub selection_set: SelectionSet,
}

#[derive(Debug)]
pub enum OperationDefinition {
    SelectionSet(SelectionSet),
    Query(Query),
    Mutation(Mutation),
    Subscription(Subscription),
}

#[derive(Debug)]
pub struct Query {
    pub position: Pos,
    pub name: Option<String>,
    pub variable_definitions: Vec<VariableDefinition>,
    pub directives: Vec<Directive>,
    pub selection_set: SelectionSet,
}

#[derive(Debug)]
pub struct Mutation {
    pub position: Pos,
    pub name: Option<String>,
    pub variable_definitions: Vec<VariableDefinition>,
    pub directives: Vec<Directive>,
    pub selection_set: SelectionSet,
}

#[derive(Debug)]
pub struct Subscription {
    pub position: Pos,
    pub name: Option<String>,
    pub variable_definitions: Vec<VariableDefinition>,
    pub directives: Vec<Directive>,
    pub selection_set: SelectionSet,
}

/// The source positions where a selection set starts and ends.
#[derive(Clone, Copy, Debug, PartialEq, Eq, Structural)]
pub struct Span(pub Pos, pub Pos);

#[derive(Debug)]
pub struct SelectionSet {
    pub span: Span,
    pub items: Vec<Selection>,
}

#[derive(Debug)]
pub struct VariableDefinition {
    pub position: Pos,
    pub name: String,
    pub var_type: Type,
    pub default_value: Option<Value>,
}

#[derive(Debug)]
pub enum Selection {
    Field(Field),
    FragmentSpread(FragmentSpread),
    InlineFragment(InlineFragment),
}

#[derive(Debug)]
pub struct Field {
    pub position: Pos,
    pub alias: Option<String>,
    pub name: String,
    pub arguments: Vec<(String, Value)>,
    pub directives: Vec<Directive>,
    pub selection_set: SelectionSet,
}

#[derive(Debug)]
pub struct FragmentSpread {
    pub position: Pos,
    pub fragment_name: String,
    pub directives: Vec<Directive>,
}

#[derive(Debug)]
pub enum TypeCondition {
    On(String),
}

#[derive(Debug)]
pub struct InlineFragment {
    pub position: Pos,
    pub type_condition: Option<TypeCondition>,
    pub directives: Vec<Directive>,
    pub selection_set: SelectionSet,
}

} // verus!
