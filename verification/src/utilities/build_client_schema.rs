//! Building the type definitions of a schema from an introspection result.
use vstd::prelude::*;

use crate::ast::ext::clone_name;
use crate::introspection::{
    IntrospectionEnumType, IntrospectionField, IntrospectionInputObjectType,
    IntrospectionInputTypeRef, IntrospectionInputValue, IntrospectionInterfaceType,
    IntrospectionNamedTypeRef, IntrospectionObjectType, IntrospectionOutputTypeRef,
    IntrospectionScalarType, IntrospectionSchema, IntrospectionType, IntrospectionUnionType,
};
use crate::static_graphql::common::{Pos, Type, TypeView};
use crate::static_graphql::schema::{
    self, EnumType, EnumValue, InputObjectType, InputValue, InterfaceType, ObjectType, ScalarType,
    TypeDefinition, UnionType,
};

verus! {

/// Whether every list and non-null reference in a field type reference
/// names the type that it wraps.
pub open spec fn output_ref_complete(t: IntrospectionOutputTypeRef) -> bool
    decreases t,
{
    match t {
        IntrospectionOutputTypeRef::LIST { of_type } => match of_type {
            Some(b) => output_ref_complete(*b),
            None => false,
        },
        IntrospectionOutputTypeRef::NON_NULL { of_type } => match of_type {
            Some(b) => output_ref_complete(*b),
            None => false,
        },
        _ => true,
    }
}

/// The type reference that a complete field type reference stands for.
pub open spec fn built_output_type(t: IntrospectionOutputTypeRef) -> TypeView
    decreases t,
{
    match t {
        IntrospectionOutputTypeRef::SCALAR(r) => TypeView::NamedType(r.name@),
        IntrospectionOutputTypeRef::ENUM(r) => TypeView::NamedType(r.name@),
        IntrospectionOutputTypeRef::INPUT_OBJECT(r) => TypeView::NamedType(r.name@),
        IntrospectionOutputTypeRef::UNION(r) => TypeView::NamedType(r.name@),
        IntrospectionOutputTypeRef::OBJECT(r) => TypeView::NamedType(r.name@),
        IntrospectionOutputTypeRef::INTERFACE(r) => TypeView::NamedType(r.name@),
        IntrospectionOutputTypeRef::LIST { of_type } => match of_type {
            Some(b) => TypeView::ListType(Box::new(built_output_type(*b))),
            None => TypeView::NamedType(Seq::empty()),
        },
        IntrospectionOutputTypeRef::NON_NULL { of_type } => match of_type {
            Some(b) => TypeView::NonNullType(Box::new(built_output_type(*b))),
            None => TypeView::NamedType(Seq::empty()),
        },
    }
}

/// Whether an input type reference is complete.
pub open spec fn input_ref_complete(t: IntrospectionInputTypeRef) -> bool {
    match t {
        IntrospectionInputTypeRef::LIST { of_type } => match of_type {
            Some(b) => output_ref_complete(*b),
            None => false,
        },
        IntrospectionInputTypeRef::NON_NULL { of_type } => match of_type {
            Some(b) => output_ref_complete(*b),
            None => false,
        },
        _ => true,
    }
}

/// The type reference that a complete input type reference stands for.
pub open spec fn built_input_type(t: IntrospectionInputTypeRef) -> TypeView {
    match t {
        IntrospectionInputTypeRef::SCALAR(r) => TypeView::NamedType(r.name@),
        IntrospectionInputTypeRef::ENUM(r) => TypeView::NamedType(r.name@),
        IntrospectionInputTypeRef::INPUT_OBJECT(r) => TypeView::NamedType(r.name@),
        IntrospectionInputTypeRef::LIST { of_type } => match of_type {
            Some(b) => TypeView::ListType(Box::new(built_output_type(*b))),
            None => TypeView::NamedType(Seq::empty()),
        },
        IntrospectionInputTypeRef::NON_NULL { of_type } => match of_type {
            Some(b) => TypeView::NonNullType(Box::new(built_output_type(*b))),
            None => TypeView::NamedType(Seq::empty()),
        },
    }
}

/// Whether an introspected input value has a complete type reference.
pub open spec fn input_value_complete(v: IntrospectionInputValue) -> bool {
    match v.type_ref {
        Some(t) => input_ref_complete(t),
        None => false,
    }
}

/// Whether an introspected field and its arguments have complete type references.
pub open spec fn field_complete(f: IntrospectionField) -> bool {
    output_ref_complete(f.type_ref) && forall|j: int| 0 <= j < f.args@.len() ==> #[trigger] input_value_complete(f.args@[j])
}

/// Whether every type reference of an introspected type is complete.
pub open spec fn type_complete(t: IntrospectionType) -> bool {
    match t {
        IntrospectionType::OBJECT(o) => forall|j: int| 0 <= j < o.fields@.len() ==> #[trigger] field_complete(o.fields@[j]),
        IntrospectionType::INTERFACE(i) => forall|j: int| 0 <= j < i.fields@.len() ==> #[trigger] field_complete(i.fields@[j]),
        IntrospectionType::INPUT_OBJECT(io) => forall|j: int|
            0 <= j < io.input_fields@.len() ==> #[trigger] input_value_complete(io.input_fields@[j]),
        _ => true,
    }
}

/// Whether `v` is the input value built from `src`: its name and type.
pub open spec fn input_value_built(v: InputValue, src: IntrospectionInputValue) -> bool {
    &&& v.name@ == src.name@
    &&& match src.type_ref {
        Some(t) => v.value_type@ == built_input_type(t),
        None => false,
    }
    &&& v.default_value is None
}

/// Whether `vs` are the input values built from `src`, in order.
pub open spec fn input_values_built(vs: Seq<InputValue>, src: Seq<IntrospectionInputValue>) -> bool {
    vs.len() == src.len() && forall|j: int| 0 <= j < vs.len() ==> #[trigger] input_value_built(vs[j], src[j])
}

/// Whether `f` is the field built from `src`: its name, type and arguments.
pub open spec fn field_built(f: schema::Field, src: IntrospectionField) -> bool {
    &&& f.name@ == src.name@
    &&& f.field_type@ == built_output_type(src.type_ref)
    &&& input_values_built(f.arguments@, src.args@)
}

/// Whether `fs` are the fields built from `src`, in order.
pub open spec fn fields_built(fs: Seq<schema::Field>, src: Seq<IntrospectionField>) -> bool {
    fs.len() == src.len() && forall|j: int| 0 <= j < fs.len() ==> #[trigger] field_built(fs[j], src[j])
}

/// Whether `names` are the names of the type references `refs`, in order.
pub open spec fn names_built(names: Seq<String>, refs: Seq<IntrospectionNamedTypeRef>) -> bool {
    names.len() == refs.len() && forall|j: int| 0 <= j < names.len() ==> #[trigger] names[j]@ == refs[j].name@
}

/// Whether `def` is the type definition built from `src`: same kind, name,
/// fields, arguments, interfaces, members and values.
pub open spec fn type_built(def: TypeDefinition, src: IntrospectionType) -> bool {
    match (def, src) {
        (TypeDefinition::Scalar(d), IntrospectionType::SCALAR(s)) => d.name@ == s.name@,
        (TypeDefinition::Object(d), IntrospectionType::OBJECT(s)) => {
            &&& d.name@ == s.name@
            &&& fields_built(d.fields@, s.fields@)
            &&& names_built(d.implements_interfaces@, s.interfaces@)
        },
        (TypeDefinition::Interface(d), IntrospectionType::INTERFACE(s)) => {
            &&& d.name@ == s.name@
            &&& fields_built(d.fields@, s.fields@)
            &&& match s.interfaces {
                Some(refs) => names_built(d.implements_interfaces@, refs@),
                None => d.implements_interfaces@.len() == 0,
            }
        },
        (TypeDefinition::Union(d), IntrospectionType::UNION(s)) => {
            &&& d.name@ == s.name@
            &&& names_built(d.types@, s.possible_types@)
        },
        (TypeDefinition::Enum(d), IntrospectionType::ENUM(s)) => {
            &&& d.name@ == s.name@
            &&& d.values@.len() == s.enum_values@.len()
            &&& forall|j: int| 0 <= j < d.values@.len() ==> #[trigger] d.values@[j].name@ == s.enum_values@[j].name@
        },
        (TypeDefinition::InputObject(d), IntrospectionType::INPUT_OBJECT(s)) => {
            &&& d.name@ == s.name@
            &&& input_values_built(d.fields@, s.input_fields@)
        },
        _ => false,
    }
}

/// The position given to built nodes, which have no source.
fn no_position() -> (r: Pos)
    ensures
        r.line == 0 && r.column == 0,
{
    Pos { line: 0, column: 0 }
}

/// The type reference that a complete field type reference stands for.
fn build_output_type(src: &IntrospectionOutputTypeRef) -> (r: Type)
    requires
        output_ref_complete(*src),
    ensures
        r@ == built_output_type(*src),
    decreases src,
{
    match src {
        IntrospectionOutputTypeRef::ENUM(r) => Type::NamedType(r.name.clone()),
        IntrospectionOutputTypeRef::INPUT_OBJECT(r) => Type::NamedType(r.name.clone()),
        IntrospectionOutputTypeRef::INTERFACE(r) => Type::NamedType(r.name.clone()),
        IntrospectionOutputTypeRef::UNION(r) => Type::NamedType(r.name.clone()),
        IntrospectionOutputTypeRef::SCALAR(r) => Type::NamedType(r.name.clone()),
        IntrospectionOutputTypeRef::OBJECT(r) => Type::NamedType(r.name.clone()),
        IntrospectionOutputTypeRef::LIST { of_type } => match of_type {
            Some(inner) => Type::ListType(Box::new(build_output_type(inner))),
            None => Type::NamedType(String::new()),
        },
        IntrospectionOutputTypeRef::NON_NULL { of_type } => match of_type {
            Some(inner) => Type::NonNullType(Box::new(build_output_type(inner))),
            None => Type::NamedType(String::new()),
        },
    }
}

/// The type reference that a complete input type reference stands for.
fn build_input_type(src: &IntrospectionInputTypeRef) -> (r: Type)
    requires
        input_ref_complete(*src),
    ensures
        r@ == built_input_type(*src),
{
    match src {
        IntrospectionInputTypeRef::ENUM(r) => Type::NamedType(r.name.clone()),
        IntrospectionInputTypeRef::INPUT_OBJECT(r) => Type::NamedType(r.name.clone()),
        IntrospectionInputTypeRef::SCALAR(r) => Type::NamedType(r.name.clone()),
        IntrospectionInputTypeRef::LIST { of_type } => match of_type {
            Some(inner) => Type::ListType(Box::new(build_output_type(inner))),
            None => Type::NamedType(String::new()),
        },
        IntrospectionInputTypeRef::NON_NULL { of_type } => match of_type {
            Some(inner) => Type::NonNullType(Box::new(build_output_type(inner))),
            None => Type::NamedType(String::new()),
        },
    }
}

/// The input values built from introspected arguments or input fields.
fn build_args(src: &Vec<IntrospectionInputValue>) -> (r: Vec<InputValue>)
    requires
        forall|j: int| 0 <= j < src@.len() ==> #[trigger] input_value_complete(src@[j]),
    ensures
        input_values_built(r@, src@),
{
    let mut out: Vec<InputValue> = Vec::new();
    let mut i: usize = 0;
    while i < src.len()
        invariant
            i <= src@.len(),
            forall|j: int| 0 <= j < src@.len() ==> #[trigger] input_value_complete(src@[j]),
            out@.len() == i,
            forall|j: int| 0 <= j < i ==> #[trigger] input_value_built(out@[j], src@[j]),
        decreases src@.len() - i,
    {
        let v = &src[i];
        assert(input_value_complete(src@[i as int]));
        let value_type = match &v.type_ref {
            Some(t) => build_input_type(t),
            None => Type::NamedType(String::new()),
        };
        out.push(InputValue {
            position: no_position(),
            description: clone_name(&v.description),
            name: v.name.clone(),
            value_type,
            default_value: None,
            directives: Vec::new(),
        });
        i = i + 1;
    }
    out
}

/// The field definitions built from introspected fields.
fn build_fields(src: &Vec<IntrospectionField>) -> (r: Vec<schema::Field>)
    requires
        forall|j: int| 0 <= j < src@.len() ==> #[trigger] field_complete(src@[j]),
    ensures
        fields_built(r@, src@),
{
    let mut out: Vec<schema::Field> = Vec::new();
    let mut i: usize = 0;
    while i < src.len()
        invariant
            i <= src@.len(),
            forall|j: int| 0 <= j < src@.len() ==> #[trigger] field_complete(src@[j]),
            out@.len() == i,
            forall|j: int| 0 <= j < i ==> #[trigger] field_built(out@[j], src@[j]),
        decreases src@.len() - i,
    {
        let f = &src[i];
        assert(field_complete(src@[i as int]));
        out.push(schema::Field {
            position: no_position(),
            description: clone_name(&f.description),
            name: f.name.clone(),
            arguments: build_args(&f.args),
            field_type: build_output_type(&f.type_ref),
            directives: Vec::new(),
        });
        i = i + 1;
    }
    out
}

/// The names of named type references.
fn build_names(src: &Vec<IntrospectionNamedTypeRef>) -> (r: Vec<String>)
    ensures
        names_built(r@, src@),
{
    let mut out: Vec<String> = Vec::new();
    let mut i: usize = 0;
    while i < src.len()
        invariant
            i <= src@.len(),
            out@.len() == i,
            forall|j: int| 0 <= j < i ==> #[trigger] out@[j]@ == src@[j].name@,
        decreases src@.len() - i,
    {
        out.push(src[i].name.clone());
        i = i + 1;
    }
    out
}

/// The object type built from an introspected object type.
fn build_object(src: &IntrospectionObjectType) -> (r: ObjectType)
    requires
        forall|j: int| 0 <= j < src.fields@.len() ==> #[trigger] field_complete(src.fields@[j]),
    ensures
        r.name@ == src.name@,
        fields_built(r.fields@, src.fields@),
        names_built(r.implements_interfaces@, src.interfaces@),
{
    ObjectType {
        position: no_position(),
        description: clone_name(&src.description),
        name: src.name.clone(),
        implements_interfaces: build_names(&src.interfaces),
        directives: Vec::new(),
        fields: build_fields(&src.fields),
    }
}

/// The interface type built from an introspected interface type.
fn build_interface(src: &IntrospectionInterfaceType) -> (r: InterfaceType)
    requires
        forall|j: int| 0 <= j < src.fields@.len() ==> #[trigger] field_complete(src.fields@[j]),
    ensures
        r.name@ == src.name@,
        fields_built(r.fields@, src.fields@),
        match src.interfaces {
            Some(refs) => names_built(r.implements_interfaces@, refs@),
            None => r.implements_interfaces@.len() == 0,
        },
{
    InterfaceType {
        position: no_position(),
        description: clone_name(&src.description),
        name: src.name.clone(),
        implements_interfaces: match &src.interfaces {
            Some(refs) => build_names(refs),
            None => Vec::new(),
        },
        directives: Vec::new(),
        fields: build_fields(&src.fields),
    }
}

/// The union type built from an introspected union type.
fn build_union(src: &IntrospectionUnionType) -> (r: UnionType)
    ensures
        r.name@ == src.name@,
        names_built(r.types@, src.possible_types@),
{
    UnionType {
        position: no_position(),
        description: clone_name(&src.description),
        name: src.name.clone(),
        directives: Vec::new(),
        types: build_names(&src.possible_types),
    }
}

/// The scalar type built from an introspected scalar type.
fn build_scalar(src: &IntrospectionScalarType) -> (r: ScalarType)
    ensures
        r.name@ == src.name@,
{
    ScalarType {
        position: no_position(),
        description: clone_name(&src.description),
        name: src.name.clone(),
        directives: Vec::new(),
    }
}

/// The enum type built from an introspected enum type.
fn build_enum(src: &IntrospectionEnumType) -> (r: EnumType)
    ensures
        r.name@ == src.name@,
        r.values@.len() == src.enum_values@.len(),
        forall|j: int| 0 <= j < r.values@.len() ==> #[trigger] r.values@[j].name@ == src.enum_values@[j].name@,
{
    let mut values: Vec<EnumValue> = Vec::new();
    let mut i: usize = 0;
    while i < src.enum_values.len()
        invariant
            i <= src.enum_values@.len(),
            values@.len() == i,
            forall|j: int| 0 <= j < i ==> #[trigger] values@[j].name@ == src.enum_values@[j].name@,
        decreases src.enum_values@.len() - i,
    {
        let v = &src.enum_values[i];
        values.push(EnumValue {
            position: no_position(),
            description: clone_name(&v.description),
            name: v.name.clone(),
            directives: Vec::new(),
        });
        i = i + 1;
    }
    EnumType {
        position: no_position(),
        description: clone_name(&src.description),
        name: src.name.clone(),
        directives: Vec::new(),
        values,
    }
}

/// The input object type built from an introspected input object type.
fn build_input_object(src: &IntrospectionInputObjectType) -> (r: InputObjectType)
    requires
        forall|j: int| 0 <= j < src.input_fields@.len() ==> #[trigger] input_value_complete(src.input_fields@[j]),
    ensures
        r.name@ == src.name@,
        input_values_built(r.fields@, src.input_fields@),
{
    InputObjectType {
        position: no_position(),
        description: clone_name(&src.description),
        name: src.name.clone(),
        directives: Vec::new(),
        fields: build_args(&src.input_fields),
    }
}

/// The type definition built from an introspected type.
fn build_type(src: &IntrospectionType) -> (r: TypeDefinition)
    requires
        type_complete(*src),
    ensures
        type_built(r, *src),
{
    match src {
        IntrospectionType::ENUM(e) => TypeDefinition::Enum(build_enum(e)),
        IntrospectionType::OBJECT(o) => TypeDefinition::Object(build_object(o)),
        IntrospectionType::INPUT_OBJECT(io) => TypeDefinition::InputObject(build_input_object(io)),
        IntrospectionType::SCALAR(s) => TypeDefinition::Scalar(build_scalar(s)),
        IntrospectionType::UNION(u) => TypeDefinition::Union(build_union(u)),
        IntrospectionType::INTERFACE(i) => TypeDefinition::Interface(build_interface(i)),
    }
}

/// The type definitions of the introspected schema, one for each of its
/// types, in order, each with its name, fields, arguments, interfaces,
/// members and values; default values are not read back.
pub fn build_client_schema(introspection: &IntrospectionSchema) -> (r: Vec<TypeDefinition>)
    requires
        forall|j: int| 0 <= j < introspection.types@.len() ==> #[trigger] type_complete(introspection.types@[j]),
    ensures
        r@.len() == introspection.types@.len(),
        forall|j: int| 0 <= j < r@.len() ==> #[trigger] type_built(r@[j], introspection.types@[j]),
{
    let mut out: Vec<TypeDefinition> = Vec::new();
    let mut i: usize = 0;
    while i < introspection.types.len()
        invariant
            i <= introspection.types@.len(),
            forall|j: int| 0 <= j < introspection.types@.len() ==> #[trigger] type_complete(introspection.types@[j]),
            out@.len() == i,
            forall|j: int| 0 <= j < i ==> #[trigger] type_built(out@[j], introspection.types@[j]),
        decreases introspection.types@.len() - i,
    {
        assert(type_complete(introspection.types@[i as int]));
        out.push(build_type(&introspection.types[i]));
        i = i + 1;
    }
    out
}

} // verus!
