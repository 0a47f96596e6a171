//! The result of GraphQL's introspection query, as plain data.
pub mod introspection;

pub use self::introspection::{
    introspection_type_name, DirectiveLocation, IntrospectionDirective, IntrospectionEnumType,
    IntrospectionEnumValue, IntrospectionField, IntrospectionInputObjectType, IntrospectionInputType,
    IntrospectionInputTypeRef, IntrospectionInputValue, IntrospectionInterfaceType,
    IntrospectionNamedTypeRef, IntrospectionObjectType, IntrospectionOutputType,
    IntrospectionOutputTypeRef, IntrospectionQuery, IntrospectionScalarType, IntrospectionSchema,
    IntrospectionType, IntrospectionUnionType,
};
