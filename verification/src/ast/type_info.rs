//! What is known of a schema's types, and the stacks of type information
//! that a traversal keeps while it walks a document.
use vstd::prelude::*;

use crate::ast::ext::{
    object_named, schema_definition_from, type_map_upto, SchemaDocumentExtension,
};
use crate::ast::operation_visitor::directive_definitions_upto;
use crate::ast::utils::find_schema_definition;
use crate::static_graphql::query::{Type, Value, VariableDefinition};
use crate::static_graphql::schema::{
    self, DirectiveDefinition, InputValue, InterfaceType, ObjectType, TypeDefinition, UnionType,
};

verus! {

/// The root types, type definitions and directive definitions of a schema.
pub struct TypeInfoRegistry<'a> {
    pub query_type: &'a ObjectType,
    pub mutation_type: Option<&'a ObjectType>,
    pub subscription_type: Option<&'a ObjectType>,
    /// The type definitions, the last of each name, in document order.
    pub type_by_name: Vec<&'a TypeDefinition>,
    /// The directive definitions in document order; a name refers to the last one so named.
    pub directives: Vec<&'a DirectiveDefinition>,
}

/// The name of a root type: the one the schema definition gives, or `default`.
pub open spec fn registry_root_name(
    schema: &schema::Document,
    given: spec_fn(schema::SchemaDefinition) -> Option<String>,
    default: Seq<char>,
) -> Seq<char> {
    match schema_definition_from(schema, 0) {
        Some(d) => match given(*d) {
            Some(n) => n@,
            None => default,
        },
        None => default,
    }
}

/// The name of the query root type: the schema definition's, or `Query`.
pub open spec fn registry_query_name(schema: &schema::Document) -> Seq<char> {
    registry_root_name(schema, |d: schema::SchemaDefinition| d.query, "Query"@)
}

/// The name of the mutation root type: the schema definition's, or `Mutation`.
pub open spec fn registry_mutation_name(schema: &schema::Document) -> Seq<char> {
    registry_root_name(schema, |d: schema::SchemaDefinition| d.mutation, "Mutation"@)
}

/// The name of the subscription root type: the schema definition's, or `Subscription`.
pub open spec fn registry_subscription_name(schema: &schema::Document) -> Seq<char> {
    registry_root_name(schema, |d: schema::SchemaDefinition| d.subscription, "Subscription"@)
}

impl<'a> TypeInfoRegistry<'a> {
    /// Reads the root types, the type definitions and the directive
    /// definitions of a schema that defines its query root type.
    pub fn new(schema: &'a schema::Document) -> (r: Self)
        requires
            object_named(schema, registry_query_name(schema)) is Some,
        ensures
            Some(r.query_type) == object_named(schema, registry_query_name(schema)),
            r.mutation_type == object_named(schema, registry_mutation_name(schema)),
            r.subscription_type == object_named(schema, registry_subscription_name(schema)),
            r.type_by_name@ == type_map_upto(schema, schema.definitions@.len() as int),
            r.directives@ == directive_definitions_upto(schema, schema.definitions@.len() as int),
    {
        let schema_definition = find_schema_definition(schema);
        let query_name = match schema_definition {
            Some(d) => match &d.query {
                Some(n) => n.clone(),
                None => String::from_str("Query"),
            },
            None => String::from_str("Query"),
        };
        let mutation_name = match schema_definition {
            Some(d) => match &d.mutation {
                Some(n) => n.clone(),
                None => String::from_str("Mutation"),
            },
            None => String::from_str("Mutation"),
        };
        let subscription_name = match schema_definition {
            Some(d) => match &d.subscription {
                Some(n) => n.clone(),
                None => String::from_str("Subscription"),
            },
            None => String::from_str("Subscription"),
        };
        proof {
            reveal_strlit("Query");
        }
        let query_type = schema.object_type_by_name(query_name.as_str()).unwrap();
        let mutation_type = schema.object_type_by_name(mutation_name.as_str());
        let subscription_type = schema.object_type_by_name(subscription_name.as_str());
        let type_by_name = schema.type_map();
        let mut directives: Vec<&'a DirectiveDefinition> = Vec::new();
        let mut j: usize = 0;
        while j < schema.definitions.len()
            invariant
                j <= schema.definitions@.len(),
                directives@ == directive_definitions_upto(schema, j as int),
            decreases schema.definitions@.len() - j,
        {
            if let schema::Definition::DirectiveDefinition(d) = &schema.definitions[j] {
                directives.push(d);
            }
            j = j + 1;
        }
        TypeInfoRegistry { query_type, mutation_type, subscription_type, type_by_name, directives }
    }
}

/// A node, or nothing where a traversal found none.
#[derive(Clone, Copy, Debug)]
pub enum TypeInfoElementRef<T> {
    Empty,
    Ref(T),
}

/// A composite type: an object, an interface or a union.
#[derive(Clone, Copy, Debug)]
pub enum CompositeType<'a> {
    Object(&'a ObjectType),
    Interface(&'a InterfaceType),
    Union(&'a UnionType),
}

impl<'a> CompositeType<'a> {
    /// The composite type that a type definition is, if it is one.
    pub fn from_type_definition(t: &'a TypeDefinition) -> (r: Option<CompositeType<'a>>)
        ensures
            match t {
                TypeDefinition::Object(o) => r == Some(CompositeType::Object(o)),
                TypeDefinition::Interface(i) => r == Some(CompositeType::Interface(i)),
                TypeDefinition::Union(u) => r == Some(CompositeType::Union(u)),
                _ => r is None,
            },
    {
        match t {
            TypeDefinition::Object(o) => Some(CompositeType::Object(o)),
            TypeDefinition::Interface(i) => Some(CompositeType::Interface(i)),
            TypeDefinition::Union(u) => Some(CompositeType::Union(u)),
            _ => None,
        }
    }
}

/// An input type: its type reference, its definition (a scalar, an enum or
/// an input object) and the default value where one applies.
#[derive(Clone, Copy, Debug)]
pub enum PossibleInputType<'a> {
    Scalar(&'a Type, &'a TypeDefinition, Option<&'a Value>),
    Enum(&'a Type, &'a TypeDefinition, Option<&'a Value>),
    InputObject(&'a Type, &'a TypeDefinition, Option<&'a Value>),
}

impl<'a> PossibleInputType<'a> {
    /// The type reference.
    pub fn get_type(&self) -> (r: &'a Type)
        ensures
            match *self {
                PossibleInputType::Scalar(t, _, _) => r == t,
                PossibleInputType::Enum(t, _, _) => r == t,
                PossibleInputType::InputObject(t, _, _) => r == t,
            },
    {
        match self {
            PossibleInputType::Scalar(t, _, _) => t,
            PossibleInputType::Enum(t, _, _) => t,
            PossibleInputType::InputObject(t, _, _) => t,
        }
    }

    /// The type definition.
    pub fn get_schema_type_definition(&self) -> (r: &'a TypeDefinition)
        ensures
            match *self {
                PossibleInputType::Scalar(_, d, _) => r == d,
                PossibleInputType::Enum(_, d, _) => r == d,
                PossibleInputType::InputObject(_, d, _) => r == d,
            },
    {
        match self {
            PossibleInputType::Scalar(_, d, _) => d,
            PossibleInputType::Enum(_, d, _) => d,
            PossibleInputType::InputObject(_, d, _) => d,
        }
    }

    /// The default value, where one applies.
    pub fn get_default_value(&self) -> (r: Option<&'a Value>)
        ensures
            match *self {
                PossibleInputType::Scalar(_, _, v) => r == v,
                PossibleInputType::Enum(_, _, v) => r == v,
                PossibleInputType::InputObject(_, _, v) => r == v,
            },
    {
        match self {
            PossibleInputType::Scalar(_, _, v) => *v,
            PossibleInputType::Enum(_, _, v) => *v,
            PossibleInputType::InputObject(_, _, v) => *v,
        }
    }
}

/// The last element of a stack, if it has one.
pub open spec fn last_of<T>(s: Seq<T>) -> Option<T> {
    if s.len() == 0 {
        None
    } else {
        Some(s.last())
    }
}

/// The last element of a stack, if it has one.
fn stack_last<T: Copy>(s: &Vec<T>) -> (r: Option<T>)
    ensures
        r == last_of(s@),
{
    if s.len() == 0 {
        None
    } else {
        Some(s[s.len() - 1])
    }
}

/// A stack without its last element; an empty stack stays empty.
pub open spec fn without_last<T>(s: Seq<T>) -> Seq<T> {
    if s.len() == 0 {
        s
    } else {
        s.drop_last()
    }
}

/// Removes the last element of a stack, if it has one.
fn pop_last<T>(s: &mut Vec<T>)
    ensures
        final(s)@ == without_last(old(s)@),
{
    if s.len() > 0 {
        s.pop();
    }
}

/// The type information that a traversal keeps: stacks of the types, parent
/// types, field definitions, input types and default values entered, the
/// argument being visited, and the variables known.
pub struct TypeInfo<'a> {
    pub type_stack: Vec<TypeInfoElementRef<&'a Type>>,
    pub parent_type_stack: Vec<TypeInfoElementRef<CompositeType<'a>>>,
    pub field_def_stack: Vec<TypeInfoElementRef<&'a schema::Field>>,
    pub input_type_stack: Vec<TypeInfoElementRef<PossibleInputType<'a>>>,
    pub default_value_stack: Vec<TypeInfoElementRef<Option<&'a Value>>>,
    pub argument: Option<TypeInfoElementRef<&'a InputValue>>,
    pub known_variables: Vec<&'a VariableDefinition>,
}

/// The mathematical form of type information: its stacks as sequences, the
/// argument being visited, and the variables known.
#[verifier::ext_equal]
pub struct TypeInfoView<'a> {
    pub type_stack: Seq<TypeInfoElementRef<&'a Type>>,
    pub parent_type_stack: Seq<TypeInfoElementRef<CompositeType<'a>>>,
    pub field_def_stack: Seq<TypeInfoElementRef<&'a schema::Field>>,
    pub input_type_stack: Seq<TypeInfoElementRef<PossibleInputType<'a>>>,
    pub default_value_stack: Seq<TypeInfoElementRef<Option<&'a Value>>>,
    pub argument: Option<TypeInfoElementRef<&'a InputValue>>,
    pub known_variables: Seq<&'a VariableDefinition>,
}

impl<'a> View for TypeInfo<'a> {
    type V = TypeInfoView<'a>;

    open spec fn view(&self) -> TypeInfoView<'a> {
        TypeInfoView {
            type_stack: self.type_stack@,
            parent_type_stack: self.parent_type_stack@,
            field_def_stack: self.field_def_stack@,
            input_type_stack: self.input_type_stack@,
            default_value_stack: self.default_value_stack@,
            argument: self.argument,
            known_variables: self.known_variables@,
        }
    }
}

impl<'a> TypeInfo<'a> {
    /// Type information with empty stacks, no argument and no variables.
    pub fn new() -> (r: Self)
        ensures
            r@ == (TypeInfoView::<'a> {
                type_stack: Seq::empty(),
                parent_type_stack: Seq::empty(),
                field_def_stack: Seq::empty(),
                input_type_stack: Seq::empty(),
                default_value_stack: Seq::empty(),
                argument: None,
                known_variables: Seq::empty(),
            }),
    {
        TypeInfo {
            type_stack: Vec::new(),
            parent_type_stack: Vec::new(),
            field_def_stack: Vec::new(),
            input_type_stack: Vec::new(),
            default_value_stack: Vec::new(),
            argument: None,
            known_variables: Vec::new(),
        }
    }

    /// The argument being visited.
    pub fn get_argument(&self) -> (r: Option<TypeInfoElementRef<&'a InputValue>>)
        ensures
            r == self.argument,
    {
        self.argument
    }

    /// Starts visiting an argument.
    pub fn enter_argument(&mut self, input_value: TypeInfoElementRef<&'a InputValue>)
        ensures
            final(self)@ == (TypeInfoView { argument: Some(input_value), ..old(self)@ }),
    {
        self.argument = Some(input_value);
    }

    /// Stops visiting an argument.
    pub fn leave_argument(&mut self)
        ensures
            final(self)@ == (TypeInfoView { argument: None, ..old(self)@ }),
    {
        self.argument = None;
    }

    /// The variables known.
    pub fn get_known_variables(&self) -> (r: Vec<&'a VariableDefinition>)
        ensures
            r@ == self.known_variables@,
    {
        let mut r: Vec<&'a VariableDefinition> = Vec::new();
        let mut i: usize = 0;
        while i < self.known_variables.len()
            invariant
                i <= self.known_variables@.len(),
                r@ == self.known_variables@.subrange(0, i as int),
            decreases self.known_variables@.len() - i,
        {
            r.push(self.known_variables[i]);
            assert(r@ =~= self.known_variables@.subrange(0, i + 1));
            i = i + 1;
        }
        assert(self.known_variables@.subrange(0, self.known_variables@.len() as int) =~= self.known_variables@);
        r
    }

    /// Makes `known_variables` the variables known.
    pub fn enter_known_variables(&mut self, known_variables: Vec<&'a VariableDefinition>)
        ensures
            final(self)@ == (TypeInfoView { known_variables: known_variables@, ..old(self)@ }),
    {
        self.known_variables = known_variables;
    }

    /// Forgets the variables known.
    pub fn leave_known_variables(&mut self)
        ensures
            final(self)@ == (TypeInfoView { known_variables: Seq::empty(), ..old(self)@ }),
    {
        self.known_variables = Vec::new();
    }

    /// The default value entered last.
    pub fn get_default_value(&self) -> (r: Option<TypeInfoElementRef<Option<&'a Value>>>)
        ensures
            r == last_of(self.default_value_stack@),
    {
        stack_last(&self.default_value_stack)
    }

    /// Enters a default value.
    pub fn enter_default_value(&mut self, default_value: TypeInfoElementRef<Option<&'a Value>>)
        ensures
            final(self)@ == (TypeInfoView { default_value_stack: old(self)@.default_value_stack.push(default_value), ..old(self)@ }),
    {
        self.default_value_stack.push(default_value);
    }

    /// Leaves the default value entered last.
    pub fn leave_default_value(&mut self)
        ensures
            final(self)@ == (TypeInfoView { default_value_stack: without_last(old(self)@.default_value_stack), ..old(self)@ }),
    {
        pop_last(&mut self.default_value_stack);
    }

    /// The type entered last.
    pub fn get_type(&self) -> (r: Option<TypeInfoElementRef<&'a Type>>)
        ensures
            r == last_of(self.type_stack@),
    {
        stack_last(&self.type_stack)
    }

    /// Enters a type.
    pub fn enter_type(&mut self, object: TypeInfoElementRef<&'a Type>)
        ensures
            final(self)@ == (TypeInfoView { type_stack: old(self)@.type_stack.push(object), ..old(self)@ }),
    {
        self.type_stack.push(object);
    }

    /// Leaves the type entered last.
    pub fn leave_type(&mut self)
        ensures
            final(self)@ == (TypeInfoView { type_stack: without_last(old(self)@.type_stack), ..old(self)@ }),
    {
        pop_last(&mut self.type_stack);
    }

    /// The input type entered last.
    pub fn get_input_type(&self) -> (r: Option<TypeInfoElementRef<PossibleInputType<'a>>>)
        ensures
            r == last_of(self.input_type_stack@),
    {
        stack_last(&self.input_type_stack)
    }

    /// Enters an input type.
    pub fn enter_input_type(&mut self, object: TypeInfoElementRef<PossibleInputType<'a>>)
        ensures
            final(self)@ == (TypeInfoView { input_type_stack: old(self)@.input_type_stack.push(object), ..old(self)@ }),
    {
        self.input_type_stack.push(object);
    }

    /// Leaves the input type entered last.
    pub fn leave_input_type(&mut self)
        ensures
            final(self)@ == (TypeInfoView { input_type_stack: without_last(old(self)@.input_type_stack), ..old(self)@ }),
    {
        pop_last(&mut self.input_type_stack);
    }

    /// The parent type entered last.
    pub fn get_parent_type(&self) -> (r: Option<TypeInfoElementRef<CompositeType<'a>>>)
        ensures
            r == last_of(self.parent_type_stack@),
    {
        stack_last(&self.parent_type_stack)
    }

    /// Enters a parent type.
    pub fn enter_parent_type(&mut self, object: TypeInfoElementRef<CompositeType<'a>>)
        ensures
            final(self)@ == (TypeInfoView { parent_type_stack: old(self)@.parent_type_stack.push(object), ..old(self)@ }),
    {
        self.parent_type_stack.push(object);
    }

    /// Leaves the parent type entered last.
    pub fn leave_parent_type(&mut self)
        ensures
            final(self)@ == (TypeInfoView { parent_type_stack: without_last(old(self)@.parent_type_stack), ..old(self)@ }),
    {
        pop_last(&mut self.parent_type_stack);
    }

    /// The field definition entered last.
    pub fn get_field_def(&self) -> (r: Option<TypeInfoElementRef<&'a schema::Field>>)
        ensures
            r == last_of(self.field_def_stack@),
    {
        stack_last(&self.field_def_stack)
    }

    /// Enters a field definition.
    pub fn enter_field_def(&mut self, field: TypeInfoElementRef<&'a schema::Field>)
        ensures
            final(self)@ == (TypeInfoView { field_def_stack: old(self)@.field_def_stack.push(field), ..old(self)@ }),
    {
        self.field_def_stack.push(field);
    }

    /// Leaves the field definition entered last.
    pub fn leave_field_def(&mut self)
        ensures
            final(self)@ == (TypeInfoView { field_def_stack: without_last(old(self)@.field_def_stack), ..old(self)@ }),
    {
        pop_last(&mut self.field_def_stack);
    }
}

/// Entering an element and then leaving it gives the stack back.
pub proof fn enter_then_leave<T>(stack: Seq<T>, x: T)
    ensures
        without_last(stack.push(x)) == stack,
        last_of(stack.push(x)) == Some(x),
{
    assert(stack.push(x).drop_last() =~= stack);
}

/// Entering a type, parent type, field definition, input type or default
/// value and then leaving it gives the whole type information back.
pub proof fn enter_leave_restores<'a>(
    v: TypeInfoView<'a>,
    t: TypeInfoElementRef<&'a Type>,
    p: TypeInfoElementRef<CompositeType<'a>>,
    f: TypeInfoElementRef<&'a schema::Field>,
    i: TypeInfoElementRef<PossibleInputType<'a>>,
    d: TypeInfoElementRef<Option<&'a Value>>,
)
    ensures
        (TypeInfoView { type_stack: without_last(v.type_stack.push(t)), ..v }) == v,
        (TypeInfoView { parent_type_stack: without_last(v.parent_type_stack.push(p)), ..v }) == v,
        (TypeInfoView { field_def_stack: without_last(v.field_def_stack.push(f)), ..v }) == v,
        (TypeInfoView { input_type_stack: without_last(v.input_type_stack.push(i)), ..v }) == v,
        (TypeInfoView { default_value_stack: without_last(v.default_value_stack.push(d)), ..v }) == v,
{
    enter_then_leave(v.type_stack, t);
    enter_then_leave(v.parent_type_stack, p);
    enter_then_leave(v.field_def_stack, f);
    enter_then_leave(v.input_type_stack, i);
    enter_then_leave(v.default_value_stack, d);
}

} // verus!
