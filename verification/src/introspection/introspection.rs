//! The types of an introspection result: the schema's types, fields,
//! arguments, enum values and directives as introspection reports them.
use vstd::prelude::*;

verus! {

/// The result of the introspection query.
#[derive(Debug)]
pub struct IntrospectionQuery {
    pub __schema: IntrospectionSchema,
}

#[derive(Debug)]
pub struct IntrospectionScalarType {
    pub name: String,
    pub description: Option<String>,
    pub specified_by_url: Option<String>,
}

#[derive(Debug)]
pub struct IntrospectionInputValue {
    pub name: String,
    pub description: Option<String>,
    pub default_value: Option<String>,
    pub is_deprecated: Option<bool>,
    pub deprecation_reason: Option<String>,
    pub type_ref: Option<IntrospectionInputTypeRef>,
}

#[derive(Debug)]
pub struct IntrospectionField {
    pub name: String,
    pub description: Option<String>,
    pub args: Vec<IntrospectionInputValue>,
    pub is_deprecated: Option<bool>,
    pub deprecation_reason: Option<String>,
    pub type_ref: IntrospectionOutputTypeRef,
}

#[derive(Debug)]
pub struct IntrospectionObjectType {
    pub name: String,
    pub description: Option<String>,
    pub fields: Vec<IntrospectionField>,
    pub interfaces: Vec<IntrospectionNamedTypeRef>,
}

#[derive(Debug)]
pub struct IntrospectionInterfaceType {
    pub name: String,
    pub description: Option<String>,
    pub fields: Vec<IntrospectionField>,
    pub interfaces: Option<Vec<IntrospectionNamedTypeRef>>,
    pub possible_types: Vec<IntrospectionNamedTypeRef>,
}

#[derive(Debug)]
pub struct IntrospectionUnionType {
    pub name: String,
    pub description: Option<String>,
    pub possible_types: Vec<IntrospectionNamedTypeRef>,
}

#[derive(Debug)]
pub struct IntrospectionEnumValue {
    pub name: String,
    pub description: Option<String>,
    pub is_deprecated: Option<bool>,
    pub deprecation_reason: Option<String>,
}

#[derive(Debug)]
pub struct IntrospectionEnumType {
    pub name: String,
    pub description: Option<String>,
    pub enum_values: Vec<IntrospectionEnumValue>,
}

#[derive(Debug)]
pub struct IntrospectionInputObjectType {
    pub name: String,
    pub description: Option<String>,
    pub input_fields: Vec<IntrospectionInputValue>,
}

/// A type of the schema, by its kind.
#[allow(non_camel_case_types)]
#[derive(Debug)]
pub enum IntrospectionType {
    SCALAR(IntrospectionScalarType),
    OBJECT(IntrospectionObjectType),
    INTERFACE(IntrospectionInterfaceType),
    UNION(IntrospectionUnionType),
    ENUM(IntrospectionEnumType),
    INPUT_OBJECT(IntrospectionInputObjectType),
}

/// The name of an introspected type.
pub open spec fn introspection_type_name(t: &IntrospectionType) -> Seq<char> {
    match t {
        IntrospectionType::SCALAR(s) => s.name@,
        IntrospectionType::OBJECT(o) => o.name@,
        IntrospectionType::INTERFACE(i) => i.name@,
        IntrospectionType::UNION(u) => u.name@,
        IntrospectionType::ENUM(e) => e.name@,
        IntrospectionType::INPUT_OBJECT(io) => io.name@,
    }
}

impl IntrospectionType {
    /// The name of the type.
    pub fn name(&self) -> (r: &String)
        ensures
            r@ == introspection_type_name(self),
    {
        match self {
            IntrospectionType::ENUM(e) => &e.name,
            IntrospectionType::OBJECT(o) => &o.name,
            IntrospectionType::INPUT_OBJECT(io) => &io.name,
            IntrospectionType::INTERFACE(i) => &i.name,
            IntrospectionType::SCALAR(s) => &s.name,
            IntrospectionType::UNION(u) => &u.name,
        }
    }
}

/// A type that an input value may have.
#[allow(non_camel_case_types)]
#[derive(Debug)]
pub enum IntrospectionInputType {
    SCALAR(IntrospectionScalarType),
    ENUM(IntrospectionEnumType),
    INPUT_OBJECT(IntrospectionInputObjectType),
}

/// A type that a field may have.
#[allow(non_camel_case_types)]
#[derive(Debug)]
pub enum IntrospectionOutputType {
    SCALAR(IntrospectionScalarType),
    OBJECT(IntrospectionObjectType),
    INTERFACE(IntrospectionInterfaceType),
    UNION(IntrospectionUnionType),
    ENUM(IntrospectionEnumType),
}

/// A reference to a named type.
#[derive(Debug)]
pub struct IntrospectionNamedTypeRef {
    pub name: String,
}

/// A reference to the type of a field.
#[allow(non_camel_case_types)]
#[derive(Debug)]
pub enum IntrospectionOutputTypeRef {
    SCALAR(IntrospectionNamedTypeRef),
    LIST { of_type: Option<Box<IntrospectionOutputTypeRef>> },
    NON_NULL { of_type: Option<Box<IntrospectionOutputTypeRef>> },
    ENUM(IntrospectionNamedTypeRef),
    INPUT_OBJECT(IntrospectionNamedTypeRef),
    UNION(IntrospectionNamedTypeRef),
    OBJECT(IntrospectionNamedTypeRef),
    INTERFACE(IntrospectionNamedTypeRef),
}

/// A reference to the type of an input value.
#[allow(non_camel_case_types)]
#[derive(Debug)]
pub enum IntrospectionInputTypeRef {
    LIST { of_type: Option<Box<IntrospectionOutputTypeRef>> },
    NON_NULL { of_type: Option<Box<IntrospectionOutputTypeRef>> },
    SCALAR(IntrospectionNamedTypeRef),
    ENUM(IntrospectionNamedTypeRef),
    INPUT_OBJECT(IntrospectionNamedTypeRef),
}

/// The introspected schema: its root types, types and directives.
#[derive(Debug)]
pub struct IntrospectionSchema {
    pub description: Option<String>,
    pub query_type: IntrospectionNamedTypeRef,
    pub mutation_type: Option<IntrospectionNamedTypeRef>,
    pub subscription_type: Option<IntrospectionNamedTypeRef>,
    pub types: Vec<IntrospectionType>,
    pub directives: Vec<IntrospectionDirective>,
}

/// Where a directive may be applied.
#[allow(non_camel_case_types)]
#[derive(Clone, Copy, Debug, PartialEq, Eq, Structural)]
pub enum DirectiveLocation {
    QUERY,
    MUTATION,
    SUBSCRIPTION,
    FIELD,
    FRAGMENT_DEFINITION,
    FRAGMENT_SPREAD,
    INLINE_FRAGMENT,
    VARIABLE_DEFINITION,
    SCHEMA,
    SCALAR,
    OBJECT,
    FIELD_DEFINITION,
    ARGUMENT_DEFINITION,
    INTERFACE,
    UNION,
    ENUM,
    ENUM_VALUE,
    INPUT_OBJECT,
    INPUT_FIELD_DEFINITION,
}

/// An introspected directive.
#[derive(Debug)]
pub struct IntrospectionDirective {
    pub name: String,
    pub description: Option<String>,
    pub is_repeatable: Option<bool>,
    pub locations: Vec<DirectiveLocation>,
    pub args: Vec<IntrospectionInputValue>,
}

} // verus!
