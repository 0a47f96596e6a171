//! Type system documents: the schema that operations are validated against.
use vstd::prelude::*;

pub use super::common::{Directive, Pos, Type, TypeView, Value};
use crate::text::str_eq;

verus! {

#[derive(Debug)]
pub struct Document {
    pub definitions: Vec<Definition>,
}

#[derive(Debug)]
pub enum Definition {
    SchemaDefinition(SchemaDefinition),
    TypeDefinition(TypeDefinition),
    TypeExtension(TypeExtension),
    DirectiveDefinition(DirectiveDefinition),
}

#[derive(Debug)]
pub struct SchemaDefinition {
    pub position: Pos,
    pub directives: Vec<Directive>,
    pub query: Option<String>,
    pub mutation: Option<String>,
    pub subscription: Option<String>,
}

#[derive(Debug)]
pub enum TypeDefinition {
    Scalar(ScalarType),
    Object(ObjectType),
    Interface(InterfaceType),
    Union(UnionType),
    Enum(EnumType),
    InputObject(InputObjectType),
}

/// An `extend ...` definition; the extended type is held in the same shape
/// as a definition of that kind (an extension carries no description).
#[derive(Debug)]
pub enum TypeExtension {
    Scalar(ScalarType),
    Object(ObjectType),
    Interface(InterfaceType),
    Union(UnionType),
    Enum(EnumType),
    InputObject(InputObjectType),
}

#[derive(Debug)]
pub struct ScalarType {
    pub position: Pos,
    pub description: Option<String>,
    pub name: String,
    pub directives: Vec<Directive>,
}

#[derive(Debug)]
pub struct ObjectType {
    pub position: Pos,
    pub description: Option<String>,
    pub name: String,
    pub implements_interfaces: Vec<String>,
    pub directives: Vec<Directive>,
    pub fields: Vec<Field>,
}

#[derive(Debug)]
pub struct Field {
    pub position: Pos,
    pub description: Option<String>,
    pub name: String,
    pub arguments: Vec<InputValue>,
    pub field_type: Type,
    pub directives: Vec<Directive>,
}

#[derive(Debug)]
pub struct InputValue {
    pub position: Pos,
    pub description: Option<String>,
    pub name: String,
    pub value_type: Type,
    pub default_value: Option<Value>,
    pub directives: Vec<Directive>,
}

#[derive(Debug)]
pub struct InterfaceType {
    pub position: Pos,
    pub description: Option<String>,
    pub name: String,
    pub implements_interfaces: Vec<String>,
    pub directives: Vec<Directive>,
    pub fields: Vec<Field>,
}

#[derive(Debug)]
pub struct UnionType {
    pub position: Pos,
    pub description: Option<String>,
    pub name: String,
    pub directives: Vec<Directive>,
    pub types: Vec<String>,
}

#[derive(Debug)]
pub struct EnumType {
    pub position: Pos,
    pub description: Option<String>,
    pub name: String,
    pub directives: Vec<Directive>,
    pub values: Vec<EnumValue>,
}

#[derive(Debug)]
pub struct EnumValue {
    pub position: Pos,
    pub description: Option<String>,
    pub name: String,
    pub directives: Vec<Directive>,
}

#[derive(Debug)]
pub struct InputObjectType {
    pub position: Pos,
    pub description: Option<String>,
    pub name: String,
    pub directives: Vec<Directive>,
    pub fields: Vec<InputValue>,
}

#[derive(Clone, Copy, Debug, PartialEq, Eq, Structural)]
pub enum DirectiveLocation {
    Query,
    Mutation,
    Subscription,
    Field,
    FragmentDefinition,
    FragmentSpread,
    InlineFragment,
    Schema,
    Scalar,
    Object,
    FieldDefinition,
    ArgumentDefinition,
    Interface,
    Union,
    Enum,
    EnumValue,
    InputObject,
    InputFieldDefinition,
    VariableDefinition,
}

#[derive(Debug)]
pub struct DirectiveDefinition {
    pub position: Pos,
    pub description: Option<String>,
    pub name: String,
    pub arguments: Vec<InputValue>,
    pub repeatable: bool,
    pub locations: Vec<DirectiveLocation>,
}


/// The name that GraphQL gives a directive location, such as `FRAGMENT_SPREAD`.
pub open spec fn location_name(l: DirectiveLocation) -> Seq<char> {
    match l {
            DirectiveLocation::Query => "QUERY"@,
            DirectiveLocation::Mutation => "MUTATION"@,
            DirectiveLocation::Subscription => "SUBSCRIPTION"@,
            DirectiveLocation::Field => "FIELD"@,
            DirectiveLocation::FragmentDefinition => "FRAGMENT_DEFINITION"@,
            DirectiveLocation::FragmentSpread => "FRAGMENT_SPREAD"@,
            DirectiveLocation::InlineFragment => "INLINE_FRAGMENT"@,
            DirectiveLocation::Schema => "SCHEMA"@,
            DirectiveLocation::Scalar => "SCALAR"@,
            DirectiveLocation::Object => "OBJECT"@,
            DirectiveLocation::FieldDefinition => "FIELD_DEFINITION"@,
            DirectiveLocation::ArgumentDefinition => "ARGUMENT_DEFINITION"@,
            DirectiveLocation::Interface => "INTERFACE"@,
            DirectiveLocation::Union => "UNION"@,
            DirectiveLocation::Enum => "ENUM"@,
            DirectiveLocation::EnumValue => "ENUM_VALUE"@,
            DirectiveLocation::InputObject => "INPUT_OBJECT"@,
            DirectiveLocation::InputFieldDefinition => "INPUT_FIELD_DEFINITION"@,
            DirectiveLocation::VariableDefinition => "VARIABLE_DEFINITION"@,
    }
}

impl DirectiveLocation {
    /// The name of the location, such as `FRAGMENT_SPREAD`.
    pub fn as_str(&self) -> (r: &'static str)
        ensures
            r@ == location_name(*self),
    {
        match self {
            DirectiveLocation::Query => "QUERY",
            DirectiveLocation::Mutation => "MUTATION",
            DirectiveLocation::Subscription => "SUBSCRIPTION",
            DirectiveLocation::Field => "FIELD",
            DirectiveLocation::FragmentDefinition => "FRAGMENT_DEFINITION",
            DirectiveLocation::FragmentSpread => "FRAGMENT_SPREAD",
            DirectiveLocation::InlineFragment => "INLINE_FRAGMENT",
            DirectiveLocation::Schema => "SCHEMA",
            DirectiveLocation::Scalar => "SCALAR",
            DirectiveLocation::Object => "OBJECT",
            DirectiveLocation::FieldDefinition => "FIELD_DEFINITION",
            DirectiveLocation::ArgumentDefinition => "ARGUMENT_DEFINITION",
            DirectiveLocation::Interface => "INTERFACE",
            DirectiveLocation::Union => "UNION",
            DirectiveLocation::Enum => "ENUM",
            DirectiveLocation::EnumValue => "ENUM_VALUE",
            DirectiveLocation::InputObject => "INPUT_OBJECT",
            DirectiveLocation::InputFieldDefinition => "INPUT_FIELD_DEFINITION",
            DirectiveLocation::VariableDefinition => "VARIABLE_DEFINITION",
        }
    }
}

} // verus!
