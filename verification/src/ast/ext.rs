//! Extension helpers over the syntax tree: lookups in a schema, the kinds of
//! type definitions, type references, values and fragment spreads.
use vstd::prelude::*;

use crate::static_graphql::query::{
    self, Directive, FragmentSpread, OperationDefinition, SelectionSet, Type, Value,
    VariableDefinition,
};
use crate::static_graphql::schema::{
    self, DirectiveDefinition, InputValue, InterfaceType, ObjectType, TypeDefinition, UnionType,
};
use crate::text::str_eq;

verus! {

// ---------------------------------------------------------------------------
// Type definitions
// ---------------------------------------------------------------------------

/// The name of a type definition.
pub open spec fn type_def_name(t: &TypeDefinition) -> Seq<char> {
    match t {
        TypeDefinition::Object(o) => o.name@,
        TypeDefinition::Interface(i) => i.name@,
        TypeDefinition::Union(u) => u.name@,
        TypeDefinition::Scalar(s) => s.name@,
        TypeDefinition::Enum(e) => e.name@,
        TypeDefinition::InputObject(i) => i.name@,
    }
}

/// Leaf types are scalars and enums.
pub open spec fn is_leaf(t: &TypeDefinition) -> bool {
    t is Scalar || t is Enum
}

/// Composite types are objects, interfaces and unions.
pub open spec fn is_composite(t: &TypeDefinition) -> bool {
    t is Object || t is Interface || t is Union
}

/// Input types are scalars, enums and input objects.
pub open spec fn is_input(t: &TypeDefinition) -> bool {
    t is Scalar || t is Enum || t is InputObject
}

/// Abstract types are interfaces and unions.
pub open spec fn is_abstract(t: &TypeDefinition) -> bool {
    t is Interface || t is Union
}

pub trait TypeDefinitionExtension {
    fn is_leaf_type(&self) -> bool;
    fn is_composite_type(&self) -> bool;
    fn is_input_type(&self) -> bool;
    fn is_object_type(&self) -> bool;
    fn is_union_type(&self) -> bool;
    fn is_interface_type(&self) -> bool;
    fn is_enum_type(&self) -> bool;
    fn is_scalar_type(&self) -> bool;
    fn is_abstract_type(&self) -> bool;
    fn name(&self) -> &str;
}

impl TypeDefinitionExtension for TypeDefinition {
    fn name(&self) -> (r: &str)
        ensures
            r@ == type_def_name(self),
    {
        match self {
            TypeDefinition::Object(o) => o.name.as_str(),
            TypeDefinition::Interface(i) => i.name.as_str(),
            TypeDefinition::Union(u) => u.name.as_str(),
            TypeDefinition::Scalar(s) => s.name.as_str(),
            TypeDefinition::Enum(e) => e.name.as_str(),
            TypeDefinition::InputObject(i) => i.name.as_str(),
        }
    }

    fn is_abstract_type(&self) -> (r: bool)
        ensures
            r == is_abstract(self),
    {
        match self {
            TypeDefinition::Interface(_) => true,
            TypeDefinition::Union(_) => true,
            _ => false,
        }
    }

    fn is_interface_type(&self) -> (r: bool)
        ensures
            r == self is Interface,
    {
        match self {
            TypeDefinition::Interface(_) => true,
            _ => false,
        }
    }

    fn is_leaf_type(&self) -> (r: bool)
        ensures
            r == is_leaf(self),
    {
        match self {
            TypeDefinition::Scalar(_) => true,
            TypeDefinition::Enum(_) => true,
            _ => false,
        }
    }

    fn is_input_type(&self) -> (r: bool)
        ensures
            r == is_input(self),
    {
        match self {
            TypeDefinition::Scalar(_) => true,
            TypeDefinition::Enum(_) => true,
            TypeDefinition::InputObject(_) => true,
            _ => false,
        }
    }

    fn is_composite_type(&self) -> (r: bool)
        ensures
            r == is_composite(self),
    {
        match self {
            TypeDefinition::Object(_) => true,
            TypeDefinition::Interface(_) => true,
            TypeDefinition::Union(_) => true,
            _ => false,
        }
    }

    fn is_object_type(&self) -> (r: bool)
        ensures
            r == self is Object,
    {
        match self {
            TypeDefinition::Object(_) => true,
            _ => false,
        }
    }

    fn is_union_type(&self) -> (r: bool)
        ensures
            r == self is Union,
    {
        match self {
            TypeDefinition::Union(_) => true,
            _ => false,
        }
    }

    fn is_enum_type(&self) -> (r: bool)
        ensures
            r == self is Enum,
    {
        match self {
            TypeDefinition::Enum(_) => true,
            _ => false,
        }
    }

    fn is_scalar_type(&self) -> (r: bool)
        ensures
            r == self is Scalar,
    {
        match self {
            TypeDefinition::Scalar(_) => true,
            _ => false,
        }
    }
}

/// An absent type definition is of no kind, and its name is empty.
impl TypeDefinitionExtension for Option<TypeDefinition> {
    fn is_leaf_type(&self) -> (r: bool)
        ensures
            r == (self matches Some(t) && is_leaf(&t)),
    {
        match self {
            Some(t) => t.is_leaf_type(),
            None => false,
        }
    }

    fn is_composite_type(&self) -> (r: bool)
        ensures
            r == (self matches Some(t) && is_composite(&t)),
    {
        match self {
            Some(t) => t.is_composite_type(),
            None => false,
        }
    }

    fn is_input_type(&self) -> (r: bool)
        ensures
            r == (self matches Some(t) && is_input(&t)),
    {
        match self {
            Some(t) => t.is_input_type(),
            None => false,
        }
    }

    fn is_interface_type(&self) -> (r: bool)
        ensures
            r == (self matches Some(t) && t is Interface),
    {
        match self {
            Some(t) => t.is_interface_type(),
            None => false,
        }
    }

    fn is_object_type(&self) -> (r: bool)
        ensures
            r == (self matches Some(t) && t is Object),
    {
        match self {
            Some(t) => t.is_object_type(),
            None => false,
        }
    }

    fn is_union_type(&self) -> (r: bool)
        ensures
            r == (self matches Some(t) && t is Union),
    {
        match self {
            Some(t) => t.is_union_type(),
            None => false,
        }
    }

    fn is_enum_type(&self) -> (r: bool)
        ensures
            r == (self matches Some(t) && t is Enum),
    {
        match self {
            Some(t) => t.is_enum_type(),
            None => false,
        }
    }

    fn is_scalar_type(&self) -> (r: bool)
        ensures
            r == (self matches Some(t) && t is Scalar),
    {
        match self {
            Some(t) => t.is_scalar_type(),
            None => false,
        }
    }

    fn is_abstract_type(&self) -> (r: bool)
        ensures
            r == (self matches Some(t) && is_abstract(&t)),
    {
        match self {
            Some(t) => t.is_abstract_type(),
            None => false,
        }
    }

    fn name(&self) -> (r: &str)
        ensures
            r@ == (match self {
                Some(t) => type_def_name(&t),
                None => Seq::<char>::empty(),
            }),
    {
        match self {
            Some(t) => t.name(),
            None => {
                proof {
                    reveal_strlit("");
                }
                ""
            },
        }
    }
}


// ---------------------------------------------------------------------------
// Fields of a type
// ---------------------------------------------------------------------------

/// The first field at or after index `i` of `fields` named `name`.
pub open spec fn find_field<'a>(fields: &'a Vec<schema::Field>, name: Seq<char>, i: int) -> Option<
    &'a schema::Field,
>
    decreases fields@.len() - i,
{
    if i < 0 || i >= fields@.len() {
        None
    } else if fields@[i].name@ == name {
        Some(&fields@[i])
    } else {
        find_field(fields, name, i + 1)
    }
}

/// The first input value at or after index `i` of `values` named `name`.
pub open spec fn find_input_value<'a>(values: &'a Vec<InputValue>, name: Seq<char>, i: int) -> Option<
    &'a InputValue,
>
    decreases values@.len() - i,
{
    if i < 0 || i >= values@.len() {
        None
    } else if values@[i].name@ == name {
        Some(&values@[i])
    } else {
        find_input_value(values, name, i + 1)
    }
}

/// The field named `name` of an object or interface type: the first one so named.
pub open spec fn field_of<'a>(t: &'a TypeDefinition, name: Seq<char>) -> Option<&'a schema::Field> {
    match t {
        TypeDefinition::Object(o) => find_field(&o.fields, name, 0),
        TypeDefinition::Interface(i) => find_field(&i.fields, name, 0),
        _ => None,
    }
}

/// The input field named `name` of an input object type: the first one so named.
pub open spec fn input_field_of<'a>(t: &'a TypeDefinition, name: Seq<char>) -> Option<&'a InputValue> {
    match t {
        TypeDefinition::InputObject(io) => find_input_value(&io.fields, name, 0),
        _ => None,
    }
}

/// Looks a field up by name in a list of field definitions.
pub fn find_field_in<'a>(fields: &'a Vec<schema::Field>, name: &str) -> (r: Option<&'a schema::Field>)
    ensures
        r == find_field(fields, name@, 0),
{
    let mut i: usize = 0;
    while i < fields.len()
        invariant
            i <= fields@.len(),
            find_field(fields, name@, 0) == find_field(fields, name@, i as int),
        decreases fields@.len() - i,
    {
        if str_eq(fields[i].name.as_str(), name) {
            return Some(&fields[i]);
        }
        i = i + 1;
    }
    None
}

/// Looks an input value up by name in a list of input value definitions.
pub fn find_input_value_in<'a>(values: &'a Vec<InputValue>, name: &str) -> (r: Option<&'a InputValue>)
    ensures
        r == find_input_value(values, name@, 0),
{
    let mut i: usize = 0;
    while i < values.len()
        invariant
            i <= values@.len(),
            find_input_value(values, name@, 0) == find_input_value(values, name@, i as int),
        decreases values@.len() - i,
    {
        if str_eq(values[i].name.as_str(), name) {
            return Some(&values[i]);
        }
        i = i + 1;
    }
    None
}

pub trait FieldByNameExtension {
    fn field_by_name(&self, name: &String) -> Option<&schema::Field>;
    fn input_field_by_name(&self, name: &String) -> Option<&InputValue>;
}

impl FieldByNameExtension for TypeDefinition {
    fn field_by_name(&self, name: &String) -> (r: Option<&schema::Field>)
        ensures
            r == field_of(self, name@),
    {
        match self {
            TypeDefinition::Object(object) => find_field_in(&object.fields, name.as_str()),
            TypeDefinition::Interface(interface) => find_field_in(&interface.fields, name.as_str()),
            _ => None,
        }
    }

    fn input_field_by_name(&self, name: &String) -> (r: Option<&InputValue>)
        ensures
            r == input_field_of(self, name@),
    {
        match self {
            TypeDefinition::InputObject(input_object) => find_input_value_in(
                &input_object.fields,
                name.as_str(),
            ),
            _ => None,
        }
    }
}

// ---------------------------------------------------------------------------
// Lookups in a schema document
// ---------------------------------------------------------------------------

/// The first type definition at or after index `i` of the schema named `name`.
pub open spec fn type_by_name_from<'a>(schema: &'a schema::Document, name: Seq<char>, i: int) -> Option<
    &'a TypeDefinition,
>
    decreases schema.definitions@.len() - i,
{
    if i < 0 || i >= schema.definitions@.len() {
        None
    } else {
        match &schema.definitions@[i] {
            schema::Definition::TypeDefinition(t) => if type_def_name(t) == name {
                Some(t)
            } else {
                type_by_name_from(schema, name, i + 1)
            },
            _ => type_by_name_from(schema, name, i + 1),
        }
    }
}

/// The type definition of the schema named `name`: the first one so named.
pub open spec fn type_named<'a>(schema: &'a schema::Document, name: Seq<char>) -> Option<
    &'a TypeDefinition,
> {
    type_by_name_from(schema, name, 0)
}

/// The first directive definition at or after index `i` named `name`.
pub open spec fn directive_by_name_from<'a>(
    schema: &'a schema::Document,
    name: Seq<char>,
    i: int,
) -> Option<&'a DirectiveDefinition>
    decreases schema.definitions@.len() - i,
{
    if i < 0 || i >= schema.definitions@.len() {
        None
    } else {
        match &schema.definitions@[i] {
            schema::Definition::DirectiveDefinition(d) => if d.name@ == name {
                Some(d)
            } else {
                directive_by_name_from(schema, name, i + 1)
            },
            _ => directive_by_name_from(schema, name, i + 1),
        }
    }
}

/// The directive definition of the schema named `name`: the first one so named.
pub open spec fn directive_named<'a>(schema: &'a schema::Document, name: Seq<char>) -> Option<
    &'a DirectiveDefinition,
> {
    directive_by_name_from(schema, name, 0)
}

/// The first `schema { ... }` definition at or after index `i`.
pub open spec fn schema_definition_from<'a>(schema: &'a schema::Document, i: int) -> Option<
    &'a schema::SchemaDefinition,
>
    decreases schema.definitions@.len() - i,
{
    if i < 0 || i >= schema.definitions@.len() {
        None
    } else {
        match &schema.definitions@[i] {
            schema::Definition::SchemaDefinition(d) => Some(d),
            _ => schema_definition_from(schema, i + 1),
        }
    }
}

/// The name of the query root type: the schema definition's, or `Query`.
pub open spec fn query_root_name(schema: &schema::Document) -> Seq<char> {
    match schema_definition_from(schema, 0) {
        Some(d) => match d.query {
            Some(n) => n@,
            None => "Query"@,
        },
        None => "Query"@,
    }
}

/// The name of the mutation root type: the one the schema definition names, or
/// `Mutation` where the schema has no schema definition.
pub open spec fn mutation_root_name(schema: &schema::Document) -> Option<Seq<char>> {
    match schema_definition_from(schema, 0) {
        Some(d) => match d.mutation {
            Some(n) => Some(n@),
            None => None,
        },
        None => Some("Mutation"@),
    }
}

/// The name of the subscription root type: the one the schema definition names,
/// or `Subscription` where the schema has no schema definition.
pub open spec fn subscription_root_name(schema: &schema::Document) -> Option<Seq<char>> {
    match schema_definition_from(schema, 0) {
        Some(d) => match d.subscription {
            Some(n) => Some(n@),
            None => None,
        },
        None => Some("Subscription"@),
    }
}

/// The object type named `name`, if the type of that name is an object type.
pub open spec fn object_named<'a>(schema: &'a schema::Document, name: Seq<char>) -> Option<&'a ObjectType> {
    match type_named(schema, name) {
        Some(TypeDefinition::Object(o)) => Some(o),
        _ => None,
    }
}

/// The query root object type, when the schema has one.
pub open spec fn query_root<'a>(schema: &'a schema::Document) -> Option<&'a ObjectType> {
    object_named(schema, query_root_name(schema))
}

/// The mutation root object type, when the schema names one and defines it.
pub open spec fn mutation_root<'a>(schema: &'a schema::Document) -> Option<&'a ObjectType> {
    match mutation_root_name(schema) {
        Some(n) => object_named(schema, n),
        None => None,
    }
}

/// The subscription root object type, when the schema names one and defines it.
pub open spec fn subscription_root<'a>(schema: &'a schema::Document) -> Option<&'a ObjectType> {
    match subscription_root_name(schema) {
        Some(n) => object_named(schema, n),
        None => None,
    }
}


// ---------------------------------------------------------------------------
// Type references
// ---------------------------------------------------------------------------

/// The name at the core of a type reference: `String` for `[String!]!`.
pub open spec fn inner_name(t: Type) -> Seq<char>
    decreases t,
{
    match t {
        Type::NamedType(name) => name@,
        Type::ListType(inner) => inner_name(*inner),
        Type::NonNullType(inner) => inner_name(*inner),
    }
}

/// The wrapped type of a list or non-null type; a named type wraps itself.
pub open spec fn type_of_wrapped(t: Type) -> Type {
    match t {
        Type::ListType(inner) => *inner,
        Type::NonNullType(inner) => *inner,
        Type::NamedType(_) => t,
    }
}

/// A copy of a type reference.
pub fn clone_type(t: &Type) -> (r: Type)
    ensures
        r@ == t@,
        inner_name(r) == inner_name(*t),
    decreases t,
{
    match t {
        Type::NamedType(name) => Type::NamedType(name.clone()),
        Type::ListType(inner) => Type::ListType(Box::new(clone_type(inner))),
        Type::NonNullType(inner) => Type::NonNullType(Box::new(clone_type(inner))),
    }
}

/// Two type references are equal when their mathematical forms are.
pub fn type_equals(a: &Type, b: &Type) -> (r: bool)
    ensures
        r == (a@ == b@),
    decreases a,
{
    match (a, b) {
        (Type::NamedType(x), Type::NamedType(y)) => x.eq(y),
        (Type::ListType(x), Type::ListType(y)) => type_equals(x, y),
        (Type::NonNullType(x), Type::NonNullType(y)) => type_equals(x, y),
        _ => false,
    }
}

pub trait TypeExtension {
    fn inner_type(&self) -> String;
    fn is_non_null(&self) -> bool;
    fn is_list_type(&self) -> bool;
    fn is_named_type(&self) -> bool;
    fn of_type(&self) -> &Type;
}

impl TypeExtension for Type {
    fn inner_type(&self) -> (r: String)
        ensures
            r@ == inner_name(*self),
        decreases self,
    {
        match self {
            Type::NamedType(name) => name.clone(),
            Type::ListType(child) => child.inner_type(),
            Type::NonNullType(child) => child.inner_type(),
        }
    }

    fn of_type(&self) -> (r: &Type)
        ensures
            *r == type_of_wrapped(*self),
    {
        match self {
            Type::ListType(child) => child,
            Type::NonNullType(child) => child,
            Type::NamedType(_) => self,
        }
    }

    fn is_non_null(&self) -> (r: bool)
        ensures
            r == self is NonNullType,
    {
        match self {
            Type::NonNullType(_) => true,
            _ => false,
        }
    }

    fn is_list_type(&self) -> (r: bool)
        ensures
            r == self is ListType,
    {
        match self {
            Type::ListType(_) => true,
            _ => false,
        }
    }

    fn is_named_type(&self) -> (r: bool)
        ensures
            r == self is NamedType,
    {
        match self {
            Type::NamedType(_) => true,
            _ => false,
        }
    }
}

/// The text of a type reference: `[String!]` for a list of non-null strings.
pub open spec fn type_text(t: Type) -> Seq<char>
    decreases t,
{
    match t {
        Type::NamedType(name) => name@,
        Type::ListType(inner) => "["@ + type_text(*inner) + "]"@,
        Type::NonNullType(inner) => type_text(*inner) + "!"@,
    }
}

/// The text and the core name of a type reference depend only on its mathematical form.
pub proof fn type_text_by_view(a: Type, b: Type)
    requires
        a@ == b@,
    ensures
        type_text(a) == type_text(b),
        inner_name(a) == inner_name(b),
    decreases a,
{
    match (a, b) {
        (Type::ListType(x), Type::ListType(y)) => type_text_by_view(*x, *y),
        (Type::NonNullType(x), Type::NonNullType(y)) => type_text_by_view(*x, *y),
        _ => {},
    }
}

/// Writes a type reference as GraphQL text.
pub fn type_to_string(t: &Type) -> (r: String)
    ensures
        r@ == type_text(*t),
    decreases t,
{
    match t {
        Type::NamedType(name) => name.clone(),
        Type::ListType(inner) => {
            let mut r = String::from_str("[");
            let s = type_to_string(inner);
            r.append(s.as_str());
            r.append("]");
            r
        },
        Type::NonNullType(inner) => {
            let mut r = type_to_string(inner);
            r.append("!");
            r
        },
    }
}

// ---------------------------------------------------------------------------
// Interfaces, unions and possible types
// ---------------------------------------------------------------------------

/// The interfaces that a type definition declares that it implements.
pub open spec fn interfaces_of(t: &TypeDefinition) -> Seq<String> {
    match t {
        TypeDefinition::Object(o) => o.implements_interfaces@,
        TypeDefinition::Interface(i) => i.implements_interfaces@,
        _ => Seq::empty(),
    }
}

/// Whether a list of names holds `name`.
pub open spec fn names_contain(names: Seq<String>, name: Seq<char>) -> bool {
    exists|j: int| 0 <= j < names.len() && #[trigger] names[j]@ == name
}

/// Whether a list of names holds `name`.
pub fn contains_name(names: &Vec<String>, name: &str) -> (r: bool)
    ensures
        r == names_contain(names@, name@),
{
    let mut i: usize = 0;
    while i < names.len()
        invariant
            i <= names@.len(),
            forall|j: int| 0 <= j < i ==> #[trigger] names@[j]@ != name@,
        decreases names@.len() - i,
    {
        if str_eq(names[i].as_str(), name) {
            return true;
        }
        i = i + 1;
    }
    false
}

/// Whether a type with name `other_name` that implements `other_interfaces`
/// is a sub type of `t`: a member of the union `t`, or an implementation of
/// the interface `t`.
pub open spec fn has_sub_type_spec(
    t: &TypeDefinition,
    other_name: Seq<char>,
    other_interfaces: Seq<String>,
) -> bool {
    match t {
        TypeDefinition::Interface(i) => names_contain(other_interfaces, i.name@),
        TypeDefinition::Union(u) => names_contain(u.types@, other_name),
        _ => false,
    }
}

/// Whether `possible` is one of the types that the abstract type `abs` may stand for.
pub open spec fn is_possible_type_spec(abs: &TypeDefinition, possible: &TypeDefinition) -> bool {
    has_sub_type_spec(abs, type_def_name(possible), interfaces_of(possible))
}

pub trait ImplementingInterfaceExtension {
    fn interfaces(&self) -> Vec<String>;
    fn has_sub_type(&self, other_type: &TypeDefinition) -> bool;
}

/// A copy of a list of names.
pub fn clone_names(names: &Vec<String>) -> (r: Vec<String>)
    ensures
        r@.len() == names@.len(),
        forall|j: int| 0 <= j < names@.len() ==> #[trigger] r@[j]@ == names@[j]@,
{
    let mut r: Vec<String> = Vec::new();
    let mut i: usize = 0;
    while i < names.len()
        invariant
            i <= names@.len(),
            r@.len() == i,
            forall|j: int| 0 <= j < i ==> #[trigger] r@[j]@ == names@[j]@,
        decreases names@.len() - i,
    {
        r.push(names[i].clone());
        i = i + 1;
    }
    r
}

impl ImplementingInterfaceExtension for TypeDefinition {
    fn interfaces(&self) -> (r: Vec<String>)
        ensures
            r@.len() == interfaces_of(self).len(),
            forall|j: int| 0 <= j < r@.len() ==> #[trigger] r@[j]@ == interfaces_of(self)[j]@,
    {
        match self {
            TypeDefinition::Object(o) => o.interfaces(),
            TypeDefinition::Interface(i) => i.interfaces(),
            _ => Vec::new(),
        }
    }

    fn has_sub_type(&self, other_type: &TypeDefinition) -> (r: bool)
        ensures
            r == has_sub_type_spec(self, type_def_name(other_type), interfaces_of(other_type)),
    {
        match self {
            TypeDefinition::Interface(interface_type) => interface_type.is_implemented_by(other_type),
            TypeDefinition::Union(union_type) => union_type.has_sub_type(other_type.name()),
            _ => false,
        }
    }
}

impl ImplementingInterfaceExtension for InterfaceType {
    fn interfaces(&self) -> (r: Vec<String>)
        ensures
            r@.len() == self.implements_interfaces@.len(),
            forall|j: int| 0 <= j < r@.len() ==> #[trigger] r@[j]@ == self.implements_interfaces@[j]@,
    {
        clone_names(&self.implements_interfaces)
    }

    fn has_sub_type(&self, other_type: &TypeDefinition) -> (r: bool)
        ensures
            r == names_contain(interfaces_of(other_type), self.name@),
    {
        self.is_implemented_by(other_type)
    }
}

impl ImplementingInterfaceExtension for ObjectType {
    fn interfaces(&self) -> (r: Vec<String>)
        ensures
            r@.len() == self.implements_interfaces@.len(),
            forall|j: int| 0 <= j < r@.len() ==> #[trigger] r@[j]@ == self.implements_interfaces@[j]@,
    {
        clone_names(&self.implements_interfaces)
    }

    fn has_sub_type(&self, _other_type: &TypeDefinition) -> (r: bool)
        ensures
            !r,
    {
        false
    }
}

pub trait SubTypeExtension {
    fn has_sub_type(&self, other_type_name: &str) -> bool;
}

impl SubTypeExtension for UnionType {
    fn has_sub_type(&self, other_type_name: &str) -> (r: bool)
        ensures
            r == names_contain(self.types@, other_type_name@),
    {
        contains_name(&self.types, other_type_name)
    }
}

pub trait AbstractTypeDefinitionExtension {
    fn is_implemented_by(&self, other_type: &TypeDefinition) -> bool;
}

impl AbstractTypeDefinitionExtension for InterfaceType {
    fn is_implemented_by(&self, other_type: &TypeDefinition) -> (r: bool)
        ensures
            r == names_contain(interfaces_of(other_type), self.name@),
    {
        match other_type {
            TypeDefinition::Object(o) => contains_name(&o.implements_interfaces, self.name.as_str()),
            TypeDefinition::Interface(i) => contains_name(
                &i.implements_interfaces,
                self.name.as_str(),
            ),
            _ => false,
        }
    }
}


// ---------------------------------------------------------------------------
// The schema document
// ---------------------------------------------------------------------------

/// Whether `sub` may be used where `sup` is expected (GraphQL's `isTypeSubTypeOf`).
pub open spec fn is_subtype_spec(schema: &schema::Document, sub: Type, sup: Type) -> bool
    decreases sub,
{
    if sub@ == sup@ {
        true
    } else if sup is NonNullType {
        if sub is NonNullType {
            is_subtype_spec(schema, type_of_wrapped(sub), type_of_wrapped(sup))
        } else {
            false
        }
    } else if sub is NonNullType {
        is_subtype_spec(schema, type_of_wrapped(sub), sup)
    } else if sup is ListType {
        if sub is ListType {
            is_subtype_spec(schema, type_of_wrapped(sub), type_of_wrapped(sup))
        } else {
            false
        }
    } else if sub is ListType {
        false
    } else {
        match (type_named(schema, inner_name(sub)), type_named(schema, inner_name(sup))) {
            (Some(sub_def), Some(sup_def)) => is_abstract(sup_def) && (sub_def is Interface
                || sub_def is Object) && is_possible_type_spec(sup_def, sub_def),
            _ => false,
        }
    }
}

/// Whether one type may stand for another depends only on the mathematical
/// form of the first.
pub proof fn subtype_by_view(schema: &schema::Document, a: Type, b: Type, sup: Type)
    requires
        a@ == b@,
    ensures
        is_subtype_spec(schema, a, sup) == is_subtype_spec(schema, b, sup),
    decreases a,
{
    type_text_by_view(a, b);
    match (a, b) {
        (Type::ListType(x), Type::ListType(y)) => {
            subtype_by_view(schema, *x, *y, type_of_wrapped(sup));
        },
        (Type::NonNullType(x), Type::NonNullType(y)) => {
            subtype_by_view(schema, *x, *y, type_of_wrapped(sup));
            subtype_by_view(schema, *x, *y, sup);
        },
        _ => {},
    }
}

/// Whether the type named `sub` may stand where the type named `sup` is expected.
pub open spec fn is_named_subtype_spec(schema: &schema::Document, sub: Seq<char>, sup: Seq<char>) -> bool {
    if sub == sup {
        true
    } else {
        match (type_named(schema, sub), type_named(schema, sup)) {
            (Some(sub_def), Some(sup_def)) => is_abstract(sup_def) && is_possible_type_spec(
                sup_def,
                sub_def,
            ),
            _ => false,
        }
    }
}

/// The last type definition before index `i` named `name`.
pub open spec fn last_type_by_name_before<'a>(schema: &'a schema::Document, name: Seq<char>, i: int) -> Option<
    &'a TypeDefinition,
>
    decreases i,
{
    if i <= 0 || i > schema.definitions@.len() {
        None
    } else {
        match &schema.definitions@[i - 1] {
            schema::Definition::TypeDefinition(t) => if type_def_name(t) == name {
                Some(t)
            } else {
                last_type_by_name_before(schema, name, i - 1)
            },
            _ => last_type_by_name_before(schema, name, i - 1),
        }
    }
}

/// The type definition named `name` that a map from names to definitions,
/// filled in document order, ends up holding: the last one so named.
pub open spec fn last_type_named<'a>(schema: &'a schema::Document, name: Seq<char>) -> Option<
    &'a TypeDefinition,
> {
    last_type_by_name_before(schema, name, schema.definitions@.len() as int)
}

/// Whether the definition at index `k` is a type definition named `name`.
pub open spec fn type_def_named_at(schema: &schema::Document, k: int, name: Seq<char>) -> bool {
    0 <= k < schema.definitions@.len() && match &schema.definitions@[k] {
        schema::Definition::TypeDefinition(t) => type_def_name(t) == name,
        _ => false,
    }
}

/// Whether no type definition at index `from` or later is named `name`.
pub open spec fn no_type_named_from(schema: &schema::Document, name: Seq<char>, from: int) -> bool {
    forall|k: int| from <= k < schema.definitions@.len() ==> !type_def_named_at(schema, k, name)
}

/// The type definitions among the first `i` definitions that no later type
/// definition shadows by name, in document order: what a map from names to
/// definitions, filled in document order, ends up holding.
pub open spec fn type_map_upto<'a>(schema: &'a schema::Document, i: int) -> Seq<&'a TypeDefinition>
    decreases i,
{
    if i <= 0 || i > schema.definitions@.len() {
        Seq::empty()
    } else {
        let prev = type_map_upto(schema, i - 1);
        match &schema.definitions@[i - 1] {
            schema::Definition::TypeDefinition(t) => if no_type_named_from(
                schema,
                type_def_name(t),
                i,
            ) {
                prev.push(t)
            } else {
                prev
            },
            _ => prev,
        }
    }
}

pub trait SchemaDocumentExtension {
    fn type_by_name(&self, name: &str) -> Option<&TypeDefinition>;
    fn type_map(&self) -> Vec<&TypeDefinition>;
    fn directive_by_name(&self, name: &str) -> Option<&DirectiveDefinition>;
    fn object_type_by_name(&self, name: &str) -> Option<&ObjectType>;
    fn schema_definition(&self) -> Option<&schema::SchemaDefinition>;
    fn query_type(&self) -> Option<&ObjectType>;
    fn mutation_type(&self) -> Option<&ObjectType>;
    fn subscription_type(&self) -> Option<&ObjectType>;
    fn is_subtype(&self, sub_type: &Type, super_type: &Type) -> bool;
    fn is_named_subtype(&self, sub_type_name: &str, super_type_name: &str) -> bool;
    fn is_possible_type(&self, abstract_type: &TypeDefinition, possible_type: &TypeDefinition) -> bool;
}

impl SchemaDocumentExtension for schema::Document {
    fn type_by_name(&self, name: &str) -> (r: Option<&TypeDefinition>)
        ensures
            r == type_named(self, name@),
    {
        let mut i: usize = 0;
        while i < self.definitions.len()
            invariant
                i <= self.definitions@.len(),
                type_named(self, name@) == type_by_name_from(self, name@, i as int),
            decreases self.definitions@.len() - i,
        {
            if let schema::Definition::TypeDefinition(type_def) = &self.definitions[i] {
                if str_eq(type_def.name(), name) {
                    return Some(type_def);
                }
            }
            i = i + 1;
        }
        None
    }

    /// The type definitions of the schema, the last of each name, in document order.
    fn type_map(&self) -> (r: Vec<&TypeDefinition>)
        ensures
            r@ == type_map_upto(self, self.definitions@.len() as int),
    {
        let mut r: Vec<&TypeDefinition> = Vec::new();
        let mut i: usize = 0;
        while i < self.definitions.len()
            invariant
                i <= self.definitions@.len(),
                r@ == type_map_upto(self, i as int),
            decreases self.definitions@.len() - i,
        {
            if let schema::Definition::TypeDefinition(type_def) = &self.definitions[i] {
                if self.no_type_named_after(type_def.name(), i + 1) {
                    r.push(type_def);
                }
            }
            i = i + 1;
        }
        r
    }

    fn directive_by_name(&self, name: &str) -> (r: Option<&DirectiveDefinition>)
        ensures
            r == directive_named(self, name@),
    {
        let mut i: usize = 0;
        while i < self.definitions.len()
            invariant
                i <= self.definitions@.len(),
                directive_named(self, name@) == directive_by_name_from(self, name@, i as int),
            decreases self.definitions@.len() - i,
        {
            if let schema::Definition::DirectiveDefinition(directive_def) = &self.definitions[i] {
                if str_eq(directive_def.name.as_str(), name) {
                    return Some(directive_def);
                }
            }
            i = i + 1;
        }
        None
    }

    /// The `schema { ... }` definition of the document, when it has one.
    fn schema_definition(&self) -> (r: Option<&schema::SchemaDefinition>)
        ensures
            r == schema_definition_from(self, 0),
    {
        let mut i: usize = 0;
        while i < self.definitions.len()
            invariant
                i <= self.definitions@.len(),
                schema_definition_from(self, 0) == schema_definition_from(self, i as int),
            decreases self.definitions@.len() - i,
        {
            if let schema::Definition::SchemaDefinition(d) = &self.definitions[i] {
                return Some(d);
            }
            i = i + 1;
        }
        None
    }

    /// The query root type; `None` where the schema defines no such object type.
    fn query_type(&self) -> (r: Option<&ObjectType>)
        ensures
            r == query_root(self),
    {
        let name = self.query_type_name();
        self.object_type_by_name(name.as_str())
    }

    fn mutation_type(&self) -> (r: Option<&ObjectType>)
        ensures
            r == mutation_root(self),
    {
        match self.schema_definition() {
            Some(d) => match &d.mutation {
                Some(n) => self.object_type_by_name(n.as_str()),
                None => None,
            },
            None => self.object_type_by_name("Mutation"),
        }
    }

    fn subscription_type(&self) -> (r: Option<&ObjectType>)
        ensures
            r == subscription_root(self),
    {
        match self.schema_definition() {
            Some(d) => match &d.subscription {
                Some(n) => self.object_type_by_name(n.as_str()),
                None => None,
            },
            None => self.object_type_by_name("Subscription"),
        }
    }

    fn object_type_by_name(&self, name: &str) -> (r: Option<&ObjectType>)
        ensures
            r == object_named(self, name@),
    {
        match self.type_by_name(name) {
            Some(TypeDefinition::Object(object_def)) => Some(object_def),
            _ => None,
        }
    }

    fn is_named_subtype(&self, sub_type_name: &str, super_type_name: &str) -> (r: bool)
        ensures
            r == is_named_subtype_spec(self, sub_type_name@, super_type_name@),
    {
        if str_eq(sub_type_name, super_type_name) {
            true
        } else {
            match (self.type_by_name(sub_type_name), self.type_by_name(super_type_name)) {
                (Some(sub_type), Some(super_type)) => super_type.is_abstract_type()
                    && self.is_possible_type(super_type, sub_type),
                _ => false,
            }
        }
    }

    fn is_possible_type(&self, abstract_type: &TypeDefinition, possible_type: &TypeDefinition) -> (r:
        bool)
        ensures
            r == is_possible_type_spec(abstract_type, possible_type),
    {
        match abstract_type {
            TypeDefinition::Union(union_typedef) => contains_name(
                &union_typedef.types,
                possible_type.name(),
            ),
            TypeDefinition::Interface(interface_typedef) => {
                let implemented = possible_type.interfaces();
                let r = contains_name(&implemented, interface_typedef.name.as_str());
                proof {
                    if r {
                        let j = choose|j: int|
                            0 <= j < implemented@.len() && #[trigger] implemented@[j]@
                                == interface_typedef.name@;
                        assert(interfaces_of(possible_type)[j]@ == interface_typedef.name@);
                    }
                    if names_contain(interfaces_of(possible_type), interface_typedef.name@) {
                        let j = choose|j: int|
                            0 <= j < interfaces_of(possible_type).len()
                                && #[trigger] interfaces_of(possible_type)[j]@
                                == interface_typedef.name@;
                        assert(implemented@[j]@ == interface_typedef.name@);
                    }
                }
                r
            },
            _ => false,
        }
    }

    fn is_subtype(&self, sub_type: &Type, super_type: &Type) -> (r: bool)
        ensures
            r == is_subtype_spec(self, *sub_type, *super_type),
        decreases sub_type,
    {
        if type_equals(sub_type, super_type) {
            return true;
        }
        if super_type.is_non_null() {
            if sub_type.is_non_null() {
                return self.is_subtype(sub_type.of_type(), super_type.of_type());
            }
            return false;
        }
        if sub_type.is_non_null() {
            return self.is_subtype(sub_type.of_type(), super_type);
        }
        if super_type.is_list_type() {
            if sub_type.is_list_type() {
                return self.is_subtype(sub_type.of_type(), super_type.of_type());
            }
            return false;
        }
        if sub_type.is_list_type() {
            return false;
        }
        let sub_name = sub_type.inner_type();
        let super_name = super_type.inner_type();
        match (self.type_by_name(sub_name.as_str()), self.type_by_name(super_name.as_str())) {
            (Some(sub_def), Some(super_def)) => super_def.is_abstract_type()
                && (sub_def.is_interface_type() || sub_def.is_object_type())
                && self.is_possible_type(super_def, sub_def),
            _ => false,
        }
    }
}

impl schema::Document {
    /// The name of the query root type: the schema definition's, or `Query`.
    pub fn query_type_name(&self) -> (r: String)
        ensures
            r@ == query_root_name(self),
    {
        match self.schema_definition() {
            Some(d) => match &d.query {
                Some(n) => n.clone(),
                None => String::from_str("Query"),
            },
            None => String::from_str("Query"),
        }
    }

    /// Whether no type definition at index `from` or later is named `name`.
    pub fn no_type_named_after(&self, name: &str, from: usize) -> (r: bool)
        ensures
            r == no_type_named_from(self, name@, from as int),
    {
        let mut i: usize = from;
        while i < self.definitions.len()
            invariant
                from <= i,
                forall|k: int|
                    from <= k < i && k < self.definitions@.len() ==> !type_def_named_at(
                        self,
                        k,
                        name@,
                    ),
            decreases self.definitions@.len() - i,
        {
            if let schema::Definition::TypeDefinition(type_def) = &self.definitions[i] {
                if str_eq(type_def.name(), name) {
                    assert(type_def_named_at(self, i as int, name@));
                    return false;
                }
            }
            i = i + 1;
        }
        true
    }

    /// The last type definition named `name`.
    pub fn last_type_by_name(&self, name: &str) -> (r: Option<&TypeDefinition>)
        ensures
            r == last_type_named(self, name@),
    {
        let mut i: usize = self.definitions.len();
        while i > 0
            invariant
                i <= self.definitions@.len(),
                last_type_named(self, name@) == last_type_by_name_before(self, name@, i as int),
            decreases i,
        {
            if let schema::Definition::TypeDefinition(type_def) = &self.definitions[i - 1] {
                if str_eq(type_def.name(), name) {
                    return Some(type_def);
                }
            }
            i = i - 1;
        }
        None
    }
}


// ---------------------------------------------------------------------------
// Possible types of an abstract type
// ---------------------------------------------------------------------------

/// The object types among the first `k` definitions that implement the
/// interface named `iname` and that no later type definition shadows by name.
pub open spec fn interface_possible_upto<'a>(schema: &'a schema::Document, iname: Seq<char>, k: int) -> Seq<
    &'a ObjectType,
>
    decreases k,
{
    if k <= 0 || k > schema.definitions@.len() {
        Seq::empty()
    } else {
        let prev = interface_possible_upto(schema, iname, k - 1);
        match &schema.definitions@[k - 1] {
            schema::Definition::TypeDefinition(TypeDefinition::Object(o)) => if no_type_named_from(
                schema,
                o.name@,
                k,
            ) && names_contain(o.implements_interfaces@, iname) {
                prev.push(o)
            } else {
                prev
            },
            _ => prev,
        }
    }
}

/// The object types that the first `j` member names of a union resolve to.
pub open spec fn union_possible_upto<'a>(schema: &'a schema::Document, u: &UnionType, j: int) -> Seq<
    &'a ObjectType,
>
    decreases j,
{
    if j <= 0 || j > u.types@.len() {
        Seq::empty()
    } else {
        let prev = union_possible_upto(schema, u, j - 1);
        match object_named(schema, u.types@[j - 1]@) {
            Some(o) => prev.push(o),
            None => prev,
        }
    }
}

/// The object types that a type definition may stand for.
pub open spec fn possible_types_spec<'a>(schema: &'a schema::Document, t: &TypeDefinition) -> Seq<
    &'a ObjectType,
> {
    match t {
        TypeDefinition::Interface(i) => interface_possible_upto(
            schema,
            i.name@,
            schema.definitions@.len() as int,
        ),
        TypeDefinition::Union(u) => union_possible_upto(schema, u, u.types@.len() as int),
        _ => Seq::empty(),
    }
}

pub trait PossibleTypesExtension {
    fn possible_types<'a>(&self, schema: &'a schema::Document) -> Vec<&'a ObjectType>;
}

impl PossibleTypesExtension for TypeDefinition {
    fn possible_types<'a>(&self, schema: &'a schema::Document) -> (r: Vec<&'a ObjectType>)
        ensures
            r@ == possible_types_spec(schema, self),
    {
        let mut r: Vec<&'a ObjectType> = Vec::new();
        match self {
            TypeDefinition::Interface(i) => {
                let mut k: usize = 0;
                while k < schema.definitions.len()
                    invariant
                        k <= schema.definitions@.len(),
                        r@ == interface_possible_upto(schema, i.name@, k as int),
                    decreases schema.definitions@.len() - k,
                {
                    if let schema::Definition::TypeDefinition(TypeDefinition::Object(o)) =
                        &schema.definitions[k] {
                        if schema.no_type_named_after(o.name.as_str(), k + 1) && contains_name(
                            &o.implements_interfaces,
                            i.name.as_str(),
                        ) {
                            r.push(o);
                        }
                    }
                    k = k + 1;
                }
            },
            TypeDefinition::Union(u) => {
                let mut j: usize = 0;
                while j < u.types.len()
                    invariant
                        j <= u.types@.len(),
                        r@ == union_possible_upto(schema, u, j as int),
                    decreases u.types@.len() - j,
                {
                    if let Some(o) = schema.object_type_by_name(u.types[j].as_str()) {
                        r.push(o);
                    }
                    j = j + 1;
                }
            },
            _ => {},
        }
        r
    }
}

// ---------------------------------------------------------------------------
// Values
// ---------------------------------------------------------------------------

/// Whether a float's text, as its value displays, is that of zero of either sign.
pub open spec fn is_zero_text(s: Seq<char>) -> bool {
    s == seq!['0'] || s == seq!['-', '0']
}

/// Whether two floats, held as the text that their values display as, hold
/// equal values: the same text, or zero and negative zero.
pub open spec fn float_texts_equal(x: Seq<char>, y: Seq<char>) -> bool {
    x == y || (is_zero_text(x) && is_zero_text(y))
}

/// Whether a float's text is that of zero of either sign.
pub fn zero_text(s: &str) -> (r: bool)
    ensures
        r == is_zero_text(s@),
{
    let n = s.unicode_len();
    if n == 1 {
        let r = s.get_char(0) == '0';
        assert(r ==> s@ =~= seq!['0']);
        r
    } else if n == 2 {
        let r = s.get_char(0) == '-' && s.get_char(1) == '0';
        assert(r ==> s@ =~= seq!['-', '0']);
        r
    } else {
        false
    }
}

/// Whether two floats, held as their display texts, hold equal values.
pub fn float_text_equal(a: &str, b: &str) -> (r: bool)
    ensures
        r == float_texts_equal(a@, b@),
{
    str_eq(a, b) || (zero_text(a) && zero_text(b))
}

/// Whether two values compare as equal: scalars of the same kind and value,
/// references to the same variable, lists and objects whose items, taken pairwise up to the shorter length,
/// compare as equal (object keys are not compared).
pub open spec fn values_compare(a: Value, b: Value) -> bool
    decreases a,
{
    match (a, b) {
        (Value::Null, Value::Null) => true,
        (Value::Boolean(x), Value::Boolean(y)) => x == y,
        (Value::Int(x), Value::Int(y)) => x == y,
        (Value::Float(x), Value::Float(y)) => float_texts_equal(x@, y@),
        (Value::String(x), Value::String(y)) => x@ == y@,
        (Value::Enum(x), Value::Enum(y)) => x@ == y@,
        (Value::Variable(x), Value::Variable(y)) => x@ == y@,
        (Value::List(x), Value::List(y)) => forall|i: int|
            0 <= i < x@.len() && i < y@.len() ==> values_compare(#[trigger] x@[i], y@[i]),
        (Value::Object(x), Value::Object(y)) => forall|i: int|
            0 <= i < x@.len() && i < y@.len() ==> values_compare(#[trigger] x@[i].1, y@[i].1),
        _ => false,
    }
}

/// Every value compares as equal to itself.
pub proof fn values_compare_reflexive(v: Value)
    ensures
        values_compare(v, v),
    decreases v,
{
    match v {
        Value::List(items) => {
            assert forall|i: int| 0 <= i < items@.len() && i < items@.len() implies values_compare(
                #[trigger] items@[i],
                items@[i],
            ) by {
                values_compare_reflexive(items@[i]);
            }
        },
        Value::Object(fields) => {
            assert forall|i: int| 0 <= i < fields@.len() && i < fields@.len() implies values_compare(
                #[trigger] fields@[i].1,
                fields@[i].1,
            ) by {
                values_compare_reflexive(fields@[i].1);
            }
        },
        _ => {},
    }
}

/// Every type may stand where that same type is expected.
pub proof fn subtype_reflexive(schema: &schema::Document, t: Type)
    ensures
        is_subtype_spec(schema, t, t),
        is_named_subtype_spec(schema, inner_name(t), inner_name(t)),
{
}

/// The variables that a value refers to, in the order they are written.
pub open spec fn variables_in(v: Value) -> Seq<Seq<char>>
    decreases v,
{
    match v {
        Value::Variable(name) => seq![name@],
        Value::List(items) => variables_in_items(items, items@.len() as int),
        Value::Object(fields) => variables_in_fields(fields, fields@.len() as int),
        _ => Seq::empty(),
    }
}

/// The variables that the first `n` items of a list refer to.
pub open spec fn variables_in_items(items: Vec<Value>, n: int) -> Seq<Seq<char>>
    decreases items, n,
{
    if n <= 0 || n > items@.len() {
        Seq::empty()
    } else {
        variables_in_items(items, n - 1) + variables_in(items@[n - 1])
    }
}

/// The variables that the values of the first `n` fields of an object refer to.
pub open spec fn variables_in_fields(fields: Vec<(String, Value)>, n: int) -> Seq<Seq<char>>
    decreases fields, n,
{
    if n <= 0 || n > fields@.len() {
        Seq::empty()
    } else {
        variables_in_fields(fields, n - 1) + variables_in(fields@[n - 1].1)
    }
}

pub trait ValueExtension {
    fn compare(&self, other: &Self) -> bool;
    fn variables_in_use(&self) -> Vec<String>;
}

impl ValueExtension for Value {
    #[verifier::loop_isolation(false)]
    fn compare(&self, other: &Self) -> (r: bool)
        ensures
            r == values_compare(*self, *other),
        decreases self,
    {
        match (self, other) {
            (Value::Null, Value::Null) => true,
            (Value::Boolean(a), Value::Boolean(b)) => *a == *b,
            (Value::Int(a), Value::Int(b)) => *a == *b,
            (Value::Float(a), Value::Float(b)) => float_text_equal(a.as_str(), b.as_str()),
            (Value::String(a), Value::String(b)) => a.eq(b),
            (Value::Enum(a), Value::Enum(b)) => a.eq(b),
            (Value::Variable(a), Value::Variable(b)) => a.eq(b),
            (Value::List(a), Value::List(b)) => {
                let mut i: usize = 0;
                while i < a.len() && i < b.len()
                    invariant
                        forall|j: int| 0 <= j < i ==> values_compare(#[trigger] a@[j], b@[j]),
                        i <= a@.len(),
                    decreases a@.len() - i,
                {
                    if !a[i].compare(&b[i]) {
                        return false;
                    }
                    i = i + 1;
                }
                true
            },
            (Value::Object(a), Value::Object(b)) => {
                let mut i: usize = 0;
                while i < a.len() && i < b.len()
                    invariant
                        forall|j: int| 0 <= j < i ==> values_compare(#[trigger] a@[j].1, b@[j].1),
                        i <= a@.len(),
                    decreases a@.len() - i,
                {
                    if !a[i].1.compare(&b[i].1) {
                        return false;
                    }
                    i = i + 1;
                }
                true
            },
            _ => false,
        }
    }

    fn variables_in_use(&self) -> (r: Vec<String>)
        ensures
            r@.len() == variables_in(*self).len(),
            forall|j: int| 0 <= j < r@.len() ==> #[trigger] r@[j]@ == variables_in(*self)[j],
    {
        let mut r: Vec<String> = Vec::new();
        collect_variables(self, &mut r);
        r
    }
}

/// The views of a list of strings.
pub open spec fn string_views(v: Seq<String>) -> Seq<Seq<char>> {
    v.map_values(|s: String| s@)
}

/// Appends the variables that a value refers to.
#[verifier::loop_isolation(false)]
pub fn collect_variables(v: &Value, out: &mut Vec<String>)
    ensures
        string_views(final(out)@) == string_views(old(out)@) + variables_in(*v),
    decreases v,
{
    match v {
        Value::Variable(name) => {
            let ghost before = string_views(out@);
            out.push(name.clone());
            assert(string_views(out@) =~= before + seq![name@]);
        },
        Value::List(items) => {
            let ghost start = string_views(out@);
            let mut i: usize = 0;
            while i < items.len()
                invariant
                    i <= items@.len(),
                    string_views(out@) == start + variables_in_items(*items, i as int),
                decreases items@.len() - i,
            {
                collect_variables(&items[i], out);
                assert(start + variables_in_items(*items, i as int) + variables_in(items@[i as int])
                    =~= start + variables_in_items(*items, i + 1));
                i = i + 1;
            }
        },
        Value::Object(fields) => {
            let ghost start = string_views(out@);
            let mut i: usize = 0;
            while i < fields.len()
                invariant
                    i <= fields@.len(),
                    string_views(out@) == start + variables_in_fields(*fields, i as int),
                decreases fields@.len() - i,
            {
                collect_variables(&fields[i].1, out);
                assert(start + variables_in_fields(*fields, i as int) + variables_in(
                    fields@[i as int].1,
                ) =~= start + variables_in_fields(*fields, i + 1));
                i = i + 1;
            }
        },
        _ => {
            assert(string_views(out@) =~= string_views(out@) + variables_in(*v));
        },
    }
}

pub trait InputValueHelpers {
    fn is_required(&self) -> bool;
}

/// An argument or input field is required when its type is non-null and it
/// has no default value.
pub open spec fn is_required_spec(v: &InputValue) -> bool {
    v.value_type is NonNullType && v.default_value is None
}

impl InputValueHelpers for InputValue {
    fn is_required(&self) -> (r: bool)
        ensures
            r == is_required_spec(self),
    {
        if let Type::NonNullType(_) = &self.value_type {
            if let None = &self.default_value {
                return true;
            }
        }
        false
    }
}


// ---------------------------------------------------------------------------
// Operations, names and fragment spreads
// ---------------------------------------------------------------------------

/// The variable definitions of an operation; the query shorthand has none.
pub open spec fn op_variable_definitions(op: &OperationDefinition) -> Seq<VariableDefinition> {
    match op {
        OperationDefinition::Query(q) => q.variable_definitions@,
        OperationDefinition::SelectionSet(_) => Seq::empty(),
        OperationDefinition::Mutation(m) => m.variable_definitions@,
        OperationDefinition::Subscription(s) => s.variable_definitions@,
    }
}

/// The directives of an operation; the query shorthand has none.
pub open spec fn op_directives(op: &OperationDefinition) -> Seq<Directive> {
    match op {
        OperationDefinition::Query(q) => q.directives@,
        OperationDefinition::SelectionSet(_) => Seq::empty(),
        OperationDefinition::Mutation(m) => m.directives@,
        OperationDefinition::Subscription(s) => s.directives@,
    }
}

/// The selection set of an operation.
pub open spec fn op_selection_set(op: &OperationDefinition) -> &SelectionSet {
    match op {
        OperationDefinition::Query(q) => &q.selection_set,
        OperationDefinition::SelectionSet(s) => s,
        OperationDefinition::Mutation(m) => &m.selection_set,
        OperationDefinition::Subscription(s) => &s.selection_set,
    }
}

/// The name of an operation; the query shorthand has none.
pub open spec fn op_name(op: &OperationDefinition) -> Option<Seq<char>> {
    match op {
        OperationDefinition::Query(q) => match q.name {
            Some(n) => Some(n@),
            None => None,
        },
        OperationDefinition::SelectionSet(_) => None,
        OperationDefinition::Mutation(m) => match m.name {
            Some(n) => Some(n@),
            None => None,
        },
        OperationDefinition::Subscription(s) => match s.name {
            Some(n) => Some(n@),
            None => None,
        },
    }
}

pub trait OperationDefinitionExtension {
    fn variable_definitions(&self) -> &[VariableDefinition];
    fn directives(&self) -> &[Directive];
    fn selection_set(&self) -> &SelectionSet;
}

impl OperationDefinitionExtension for OperationDefinition {
    fn variable_definitions(&self) -> (r: &[VariableDefinition])
        ensures
            r@ == op_variable_definitions(self),
    {
        match self {
            OperationDefinition::Query(query) => query.variable_definitions.as_slice(),
            OperationDefinition::SelectionSet(_) => &[],
            OperationDefinition::Mutation(mutation) => mutation.variable_definitions.as_slice(),
            OperationDefinition::Subscription(subscription) => subscription.variable_definitions.as_slice(),
        }
    }

    fn selection_set(&self) -> (r: &SelectionSet)
        ensures
            r == op_selection_set(self),
    {
        match self {
            OperationDefinition::Query(query) => &query.selection_set,
            OperationDefinition::SelectionSet(selection_set) => selection_set,
            OperationDefinition::Mutation(mutation) => &mutation.selection_set,
            OperationDefinition::Subscription(subscription) => &subscription.selection_set,
        }
    }

    fn directives(&self) -> (r: &[Directive])
        ensures
            r@ == op_directives(self),
    {
        match self {
            OperationDefinition::Query(query) => query.directives.as_slice(),
            OperationDefinition::SelectionSet(_) => &[],
            OperationDefinition::Mutation(mutation) => mutation.directives.as_slice(),
            OperationDefinition::Subscription(subscription) => subscription.directives.as_slice(),
        }
    }
}

/// A copy of an optional name.
pub fn clone_name(n: &Option<String>) -> (r: Option<String>)
    ensures
        match (r, *n) {
            (Some(a), Some(b)) => a@ == b@,
            (None, None) => true,
            _ => false,
        },
{
    match n {
        Some(s) => Some(s.clone()),
        None => None,
    }
}

pub trait AstNodeWithName {
    fn node_name(&self) -> Option<String>;
}

impl AstNodeWithName for OperationDefinition {
    fn node_name(&self) -> (r: Option<String>)
        ensures
            match r {
                Some(n) => op_name(self) == Some(n@),
                None => op_name(self) is None,
            },
    {
        match self {
            OperationDefinition::Query(q) => clone_name(&q.name),
            OperationDefinition::SelectionSet(_) => None,
            OperationDefinition::Mutation(m) => clone_name(&m.name),
            OperationDefinition::Subscription(s) => clone_name(&s.name),
        }
    }
}

impl AstNodeWithName for query::FragmentDefinition {
    fn node_name(&self) -> (r: Option<String>)
        ensures
            r matches Some(n) && n@ == self.name@,
    {
        Some(self.name.clone())
    }
}

impl AstNodeWithName for FragmentSpread {
    fn node_name(&self) -> (r: Option<String>)
        ensures
            r matches Some(n) && n@ == self.fragment_name@,
    {
        Some(self.fragment_name.clone())
    }
}

/// The fragment spreads that are direct items of a selection set, in order.
pub open spec fn direct_spreads_upto<'a>(ss: &'a SelectionSet, n: int) -> Seq<&'a FragmentSpread>
    decreases n,
{
    if n <= 0 || n > ss.items@.len() {
        Seq::empty()
    } else {
        match &ss.items@[n - 1] {
            query::Selection::FragmentSpread(f) => direct_spreads_upto(ss, n - 1).push(f),
            _ => direct_spreads_upto(ss, n - 1),
        }
    }
}

/// The fragment spreads of a selection set and those directly inside its
/// fields and inline fragments (one level down), in order.
pub open spec fn two_level_spreads_upto<'a>(ss: &'a SelectionSet, n: int) -> Seq<&'a FragmentSpread>
    decreases n,
{
    if n <= 0 || n > ss.items@.len() {
        Seq::empty()
    } else {
        let prev = two_level_spreads_upto(ss, n - 1);
        match &ss.items@[n - 1] {
            query::Selection::FragmentSpread(f) => prev.push(f),
            query::Selection::Field(f) => prev + direct_spreads_upto(
                &f.selection_set,
                f.selection_set.items@.len() as int,
            ),
            query::Selection::InlineFragment(f) => prev + direct_spreads_upto(
                &f.selection_set,
                f.selection_set.items@.len() as int,
            ),
        }
    }
}

pub trait FragmentSpreadExtraction {
    fn get_recursive_fragment_spreads(&self) -> Vec<&FragmentSpread>;
    fn get_fragment_spreads(&self) -> Vec<&FragmentSpread>;
}

impl FragmentSpreadExtraction for SelectionSet {
    fn get_recursive_fragment_spreads(&self) -> (r: Vec<&FragmentSpread>)
        ensures
            r@ == two_level_spreads_upto(self, self.items@.len() as int),
    {
        let mut r: Vec<&FragmentSpread> = Vec::new();
        let mut i: usize = 0;
        while i < self.items.len()
            invariant
                i <= self.items@.len(),
                r@ == two_level_spreads_upto(self, i as int),
            decreases self.items@.len() - i,
        {
            match &self.items[i] {
                query::Selection::FragmentSpread(f) => r.push(f),
                query::Selection::Field(f) => {
                    let mut inner = f.selection_set.get_fragment_spreads();
                    r.append(&mut inner);
                },
                query::Selection::InlineFragment(f) => {
                    let mut inner = f.selection_set.get_fragment_spreads();
                    r.append(&mut inner);
                },
            }
            i = i + 1;
        }
        r
    }

    fn get_fragment_spreads(&self) -> (r: Vec<&FragmentSpread>)
        ensures
            r@ == direct_spreads_upto(self, self.items@.len() as int),
    {
        let mut r: Vec<&FragmentSpread> = Vec::new();
        let mut i: usize = 0;
        while i < self.items.len()
            invariant
                i <= self.items@.len(),
                r@ == direct_spreads_upto(self, i as int),
            decreases self.items@.len() - i,
        {
            if let query::Selection::FragmentSpread(f) = &self.items[i] {
                r.push(f);
            }
            i = i + 1;
        }
        r
    }
}

} // verus!
