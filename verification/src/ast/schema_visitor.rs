//! Visiting type system documents: the events of a walk over a schema, in
//! order, and a visitor trait whose hooks are called for them.
use vstd::prelude::*;

use crate::ast::utils::{
    fold_events, fold_events_append, fold_events_push, nested_by, nested_by_append, nested_by_empty,
    nested_by_pair, DefaultVisitorContext,
};
use crate::static_graphql::schema::{
    Definition, DirectiveDefinition, Document, EnumType, EnumValue, Field, InputObjectType, InputValue,
    InterfaceType, ObjectType, ScalarType, SchemaDefinition, TypeDefinition, UnionType,
};

verus! {

/// A point of a walk over a schema: entering or leaving a node.
#[derive(Clone, Copy)]
pub enum SchemaEvent<'a> {
    EnterDocument(&'a Document),
    LeaveDocument(&'a Document),
    EnterSchemaDefinition(&'a SchemaDefinition),
    LeaveSchemaDefinition(&'a SchemaDefinition),
    EnterDirectiveDefinition(&'a DirectiveDefinition),
    LeaveDirectiveDefinition(&'a DirectiveDefinition),
    EnterTypeDefinition(&'a TypeDefinition),
    LeaveTypeDefinition(&'a TypeDefinition),
    EnterObjectType(&'a ObjectType),
    LeaveObjectType(&'a ObjectType),
    EnterObjectTypeField(&'a Field, &'a ObjectType),
    LeaveObjectTypeField(&'a Field, &'a ObjectType),
    EnterInterfaceType(&'a InterfaceType),
    LeaveInterfaceType(&'a InterfaceType),
    EnterInterfaceTypeField(&'a Field, &'a InterfaceType),
    LeaveInterfaceTypeField(&'a Field, &'a InterfaceType),
    EnterInputObjectType(&'a InputObjectType),
    LeaveInputObjectType(&'a InputObjectType),
    EnterInputObjectTypeField(&'a InputValue, &'a InputObjectType),
    LeaveInputObjectTypeField(&'a InputValue, &'a InputObjectType),
    EnterUnionType(&'a UnionType),
    LeaveUnionType(&'a UnionType),
    EnterScalarType(&'a ScalarType),
    LeaveScalarType(&'a ScalarType),
    EnterEnumType(&'a EnumType),
    LeaveEnumType(&'a EnumType),
    EnterEnumValue(&'a EnumValue, &'a EnumType),
    LeaveEnumValue(&'a EnumValue, &'a EnumType),
}

/// The events of the first `n` fields of an object type.
pub open spec fn object_field_events<'a>(o: &'a ObjectType, n: int) -> Seq<SchemaEvent<'a>>
    decreases n,
{
    if n <= 0 || n > o.fields@.len() {
        Seq::empty()
    } else {
        object_field_events(o, n - 1) + seq![
            SchemaEvent::EnterObjectTypeField(&o.fields@[n - 1], o),
            SchemaEvent::LeaveObjectTypeField(&o.fields@[n - 1], o),
        ]
    }
}

/// The events of the first `n` fields of an interface type.
pub open spec fn interface_field_events<'a>(t: &'a InterfaceType, n: int) -> Seq<SchemaEvent<'a>>
    decreases n,
{
    if n <= 0 || n > t.fields@.len() {
        Seq::empty()
    } else {
        interface_field_events(t, n - 1) + seq![
            SchemaEvent::EnterInterfaceTypeField(&t.fields@[n - 1], t),
            SchemaEvent::LeaveInterfaceTypeField(&t.fields@[n - 1], t),
        ]
    }
}

/// The events of the first `n` fields of an input object type.
pub open spec fn input_field_events<'a>(t: &'a InputObjectType, n: int) -> Seq<SchemaEvent<'a>>
    decreases n,
{
    if n <= 0 || n > t.fields@.len() {
        Seq::empty()
    } else {
        input_field_events(t, n - 1) + seq![
            SchemaEvent::EnterInputObjectTypeField(&t.fields@[n - 1], t),
            SchemaEvent::LeaveInputObjectTypeField(&t.fields@[n - 1], t),
        ]
    }
}

/// The events of the first `n` values of an enum type.
pub open spec fn enum_value_events<'a>(t: &'a EnumType, n: int) -> Seq<SchemaEvent<'a>>
    decreases n,
{
    if n <= 0 || n > t.values@.len() {
        Seq::empty()
    } else {
        enum_value_events(t, n - 1) + seq![
            SchemaEvent::EnterEnumValue(&t.values@[n - 1], t),
            SchemaEvent::LeaveEnumValue(&t.values@[n - 1], t),
        ]
    }
}

/// The events of the kind-specific part of a type definition.
pub open spec fn kind_events<'a>(td: &'a TypeDefinition) -> Seq<SchemaEvent<'a>> {
    match td {
        TypeDefinition::Object(o) => seq![SchemaEvent::EnterObjectType(o)] + object_field_events(
            o,
            o.fields@.len() as int,
        ) + seq![SchemaEvent::LeaveObjectType(o)],
        TypeDefinition::Scalar(s) => seq![SchemaEvent::EnterScalarType(s), SchemaEvent::LeaveScalarType(s)],
        TypeDefinition::Enum(e) => seq![SchemaEvent::EnterEnumType(e)] + enum_value_events(
            e,
            e.values@.len() as int,
        ) + seq![SchemaEvent::LeaveEnumType(e)],
        TypeDefinition::Union(u) => seq![SchemaEvent::EnterUnionType(u), SchemaEvent::LeaveUnionType(u)],
        TypeDefinition::InputObject(i) => seq![SchemaEvent::EnterInputObjectType(i)] + input_field_events(
            i,
            i.fields@.len() as int,
        ) + seq![SchemaEvent::LeaveInputObjectType(i)],
        TypeDefinition::Interface(i) => seq![SchemaEvent::EnterInterfaceType(i)] + interface_field_events(
            i,
            i.fields@.len() as int,
        ) + seq![SchemaEvent::LeaveInterfaceType(i)],
    }
}

/// The events of one definition: entered and left, with the fields or values
/// of a type in between.
pub open spec fn definition_events<'a>(def: &'a Definition) -> Seq<SchemaEvent<'a>> {
    match def {
        Definition::SchemaDefinition(s) => seq![
            SchemaEvent::EnterSchemaDefinition(s),
            SchemaEvent::LeaveSchemaDefinition(s),
        ],
        Definition::TypeDefinition(t) => seq![SchemaEvent::EnterTypeDefinition(t)] + kind_events(t) + seq![
            SchemaEvent::LeaveTypeDefinition(t),
        ],
        Definition::DirectiveDefinition(d) => seq![
            SchemaEvent::EnterDirectiveDefinition(d),
            SchemaEvent::LeaveDirectiveDefinition(d),
        ],
        Definition::TypeExtension(_) => Seq::empty(),
    }
}

/// The events of the first `n` definitions of a schema.
pub open spec fn schema_events_upto<'a>(doc: &'a Document, n: int) -> Seq<SchemaEvent<'a>>
    decreases n,
{
    if n <= 0 || n > doc.definitions@.len() {
        Seq::empty()
    } else {
        schema_events_upto(doc, n - 1) + definition_events(&doc.definitions@[n - 1])
    }
}

/// The events of a walk over a schema, in order.
pub open spec fn schema_events<'a>(doc: &'a Document) -> Seq<SchemaEvent<'a>> {
    schema_events_upto(doc, doc.definitions@.len() as int)
}

/// The events of a walk over a schema with the document's own enter and
/// leave around them.
pub open spec fn schema_document_events<'a>(doc: &'a Document) -> Seq<SchemaEvent<'a>> {
    seq![SchemaEvent::EnterDocument(doc)] + schema_events(doc) + seq![SchemaEvent::LeaveDocument(doc)]
}

/// The event that leaves what `e` enters; `None` for an event that leaves.
pub open spec fn schema_closer<'a>(e: SchemaEvent<'a>) -> Option<SchemaEvent<'a>> {
    match e {
        SchemaEvent::EnterDocument(n) => Some(SchemaEvent::LeaveDocument(n)),
        SchemaEvent::EnterSchemaDefinition(n) => Some(SchemaEvent::LeaveSchemaDefinition(n)),
        SchemaEvent::EnterDirectiveDefinition(n) => Some(SchemaEvent::LeaveDirectiveDefinition(n)),
        SchemaEvent::EnterTypeDefinition(n) => Some(SchemaEvent::LeaveTypeDefinition(n)),
        SchemaEvent::EnterObjectType(n) => Some(SchemaEvent::LeaveObjectType(n)),
        SchemaEvent::EnterInterfaceType(n) => Some(SchemaEvent::LeaveInterfaceType(n)),
        SchemaEvent::EnterInputObjectType(n) => Some(SchemaEvent::LeaveInputObjectType(n)),
        SchemaEvent::EnterUnionType(n) => Some(SchemaEvent::LeaveUnionType(n)),
        SchemaEvent::EnterScalarType(n) => Some(SchemaEvent::LeaveScalarType(n)),
        SchemaEvent::EnterEnumType(n) => Some(SchemaEvent::LeaveEnumType(n)),
        SchemaEvent::EnterObjectTypeField(n, t) => Some(SchemaEvent::LeaveObjectTypeField(n, t)),
        SchemaEvent::EnterInterfaceTypeField(n, t) => Some(SchemaEvent::LeaveInterfaceTypeField(n, t)),
        SchemaEvent::EnterInputObjectTypeField(n, t) => Some(SchemaEvent::LeaveInputObjectTypeField(n, t)),
        SchemaEvent::EnterEnumValue(n, t) => Some(SchemaEvent::LeaveEnumValue(n, t)),
        _ => None,
    }
}

/// The events of an entered node with nothing inside it.
proof fn schema_leaf<'a>(c: spec_fn(SchemaEvent<'a>) -> Option<SchemaEvent<'a>>, open: SchemaEvent<'a>, close: SchemaEvent<'a>)
    requires
        c(open) == Some(close),
        c(close) is None,
    ensures
        nested_by(c, seq![open, close]),
{
    nested_by_empty(c, Seq::<SchemaEvent<'a>>::empty());
    nested_by_pair(c, open, Seq::<SchemaEvent<'a>>::empty(), close);
    assert(seq![open] + Seq::<SchemaEvent<'a>>::empty() + seq![close] =~= seq![open, close]);
}

proof fn nested_object_fields<'a>(c: spec_fn(SchemaEvent<'a>) -> Option<SchemaEvent<'a>>, t: &'a ObjectType, n: int)
    requires
        c == (|e: SchemaEvent<'a>| schema_closer(e)),
    ensures
        nested_by(c, object_field_events(t, n)),
    decreases n,
{
    if n <= 0 || n > t.fields@.len() {
        nested_by_empty(c, object_field_events(t, n));
    } else {
        nested_object_fields(c, t, n - 1);
        schema_leaf(c, SchemaEvent::EnterObjectTypeField(&t.fields@[n - 1], t), SchemaEvent::LeaveObjectTypeField(&t.fields@[n - 1], t));
        nested_by_append(c, object_field_events(t, n - 1), seq![
            SchemaEvent::EnterObjectTypeField(&t.fields@[n - 1], t),
            SchemaEvent::LeaveObjectTypeField(&t.fields@[n - 1], t),
        ]);
    }
}

proof fn nested_interface_fields<'a>(c: spec_fn(SchemaEvent<'a>) -> Option<SchemaEvent<'a>>, t: &'a InterfaceType, n: int)
    requires
        c == (|e: SchemaEvent<'a>| schema_closer(e)),
    ensures
        nested_by(c, interface_field_events(t, n)),
    decreases n,
{
    if n <= 0 || n > t.fields@.len() {
        nested_by_empty(c, interface_field_events(t, n));
    } else {
        nested_interface_fields(c, t, n - 1);
        schema_leaf(c, SchemaEvent::EnterInterfaceTypeField(&t.fields@[n - 1], t), SchemaEvent::LeaveInterfaceTypeField(&t.fields@[n - 1], t));
        nested_by_append(c, interface_field_events(t, n - 1), seq![
            SchemaEvent::EnterInterfaceTypeField(&t.fields@[n - 1], t),
            SchemaEvent::LeaveInterfaceTypeField(&t.fields@[n - 1], t),
        ]);
    }
}

proof fn nested_input_fields<'a>(c: spec_fn(SchemaEvent<'a>) -> Option<SchemaEvent<'a>>, t: &'a InputObjectType, n: int)
    requires
        c == (|e: SchemaEvent<'a>| schema_closer(e)),
    ensures
        nested_by(c, input_field_events(t, n)),
    decreases n,
{
    if n <= 0 || n > t.fields@.len() {
        nested_by_empty(c, input_field_events(t, n));
    } else {
        nested_input_fields(c, t, n - 1);
        schema_leaf(c, SchemaEvent::EnterInputObjectTypeField(&t.fields@[n - 1], t), SchemaEvent::LeaveInputObjectTypeField(&t.fields@[n - 1], t));
        nested_by_append(c, input_field_events(t, n - 1), seq![
            SchemaEvent::EnterInputObjectTypeField(&t.fields@[n - 1], t),
            SchemaEvent::LeaveInputObjectTypeField(&t.fields@[n - 1], t),
        ]);
    }
}

proof fn nested_enum_values<'a>(c: spec_fn(SchemaEvent<'a>) -> Option<SchemaEvent<'a>>, t: &'a EnumType, n: int)
    requires
        c == (|e: SchemaEvent<'a>| schema_closer(e)),
    ensures
        nested_by(c, enum_value_events(t, n)),
    decreases n,
{
    if n <= 0 || n > t.values@.len() {
        nested_by_empty(c, enum_value_events(t, n));
    } else {
        nested_enum_values(c, t, n - 1);
        schema_leaf(c, SchemaEvent::EnterEnumValue(&t.values@[n - 1], t), SchemaEvent::LeaveEnumValue(&t.values@[n - 1], t));
        nested_by_append(c, enum_value_events(t, n - 1), seq![
            SchemaEvent::EnterEnumValue(&t.values@[n - 1], t),
            SchemaEvent::LeaveEnumValue(&t.values@[n - 1], t),
        ]);
    }
}

proof fn nested_kind_events<'a>(c: spec_fn(SchemaEvent<'a>) -> Option<SchemaEvent<'a>>, td: &'a TypeDefinition)
    requires
        c == (|e: SchemaEvent<'a>| schema_closer(e)),
    ensures
        nested_by(c, kind_events(td)),
{
    match td {
        TypeDefinition::Object(o) => {
            nested_object_fields(c, o, o.fields@.len() as int);
            nested_by_pair(c, SchemaEvent::EnterObjectType(o), object_field_events(o, o.fields@.len() as int), SchemaEvent::LeaveObjectType(o));
        },
        TypeDefinition::Scalar(sc) => schema_leaf(c, SchemaEvent::EnterScalarType(sc), SchemaEvent::LeaveScalarType(sc)),
        TypeDefinition::Enum(en) => {
            nested_enum_values(c, en, en.values@.len() as int);
            nested_by_pair(c, SchemaEvent::EnterEnumType(en), enum_value_events(en, en.values@.len() as int), SchemaEvent::LeaveEnumType(en));
        },
        TypeDefinition::Union(u) => schema_leaf(c, SchemaEvent::EnterUnionType(u), SchemaEvent::LeaveUnionType(u)),
        TypeDefinition::InputObject(i) => {
            nested_input_fields(c, i, i.fields@.len() as int);
            nested_by_pair(c, SchemaEvent::EnterInputObjectType(i), input_field_events(i, i.fields@.len() as int), SchemaEvent::LeaveInputObjectType(i));
        },
        TypeDefinition::Interface(i) => {
            nested_interface_fields(c, i, i.fields@.len() as int);
            nested_by_pair(c, SchemaEvent::EnterInterfaceType(i), interface_field_events(i, i.fields@.len() as int), SchemaEvent::LeaveInterfaceType(i));
        },
    }
}

proof fn nested_definition_events<'a>(c: spec_fn(SchemaEvent<'a>) -> Option<SchemaEvent<'a>>, def: &'a Definition)
    requires
        c == (|e: SchemaEvent<'a>| schema_closer(e)),
    ensures
        nested_by(c, definition_events(def)),
{
    match def {
        Definition::SchemaDefinition(sd) => schema_leaf(c, SchemaEvent::EnterSchemaDefinition(sd), SchemaEvent::LeaveSchemaDefinition(sd)),
        Definition::TypeDefinition(t) => {
            nested_kind_events(c, t);
            nested_by_pair(c, SchemaEvent::EnterTypeDefinition(t), kind_events(t), SchemaEvent::LeaveTypeDefinition(t));
        },
        Definition::DirectiveDefinition(d) => schema_leaf(c, SchemaEvent::EnterDirectiveDefinition(d), SchemaEvent::LeaveDirectiveDefinition(d)),
        Definition::TypeExtension(_) => nested_by_empty(c, definition_events(def)),
    }
}

proof fn nested_schema_events_upto<'a>(c: spec_fn(SchemaEvent<'a>) -> Option<SchemaEvent<'a>>, doc: &'a Document, n: int)
    requires
        c == (|e: SchemaEvent<'a>| schema_closer(e)),
    ensures
        nested_by(c, schema_events_upto(doc, n)),
    decreases n,
{
    if n <= 0 || n > doc.definitions@.len() {
        nested_by_empty(c, schema_events_upto(doc, n));
    } else {
        nested_schema_events_upto(c, doc, n - 1);
        nested_definition_events(c, &doc.definitions@[n - 1]);
        nested_by_append(c, schema_events_upto(doc, n - 1), definition_events(&doc.definitions@[n - 1]));
    }
}

/// Walking a schema with a schema visitor leaves every node that it enters,
/// after the nodes inside it and before the next node beside it: the enter
/// and leave hooks come in properly nested pairs.
pub proof fn schema_walk_is_well_nested<'a>(doc: &'a Document)
    ensures
        nested_by((|e: SchemaEvent<'a>| schema_closer(e)), schema_document_events(doc)),
{
    let c = |e: SchemaEvent<'a>| schema_closer(e);
    nested_schema_events_upto(c, doc, doc.definitions@.len() as int);
    nested_by_pair(c, SchemaEvent::EnterDocument(doc), schema_events(doc), SchemaEvent::LeaveDocument(doc));
}

/// Whether a schema holds no type extension, which the walk does not visit.
pub open spec fn without_extensions(doc: &Document) -> bool {
    forall|k: int| 0 <= k < doc.definitions@.len() ==> !(#[trigger] doc.definitions@[k] is TypeExtension)
}

/// Appends the events of the kind-specific part of a type definition.
fn push_kind_events<'a>(td: &'a TypeDefinition, out: &mut Vec<SchemaEvent<'a>>)
    ensures
        final(out)@ == old(out)@ + kind_events(td),
{
    let ghost start = out@;
    match td {
        TypeDefinition::Object(o) => {
            out.push(SchemaEvent::EnterObjectType(o));
            let ghost mid = out@;
            let mut i: usize = 0;
            while i < o.fields.len()
                invariant
                    i <= o.fields@.len(),
                    out@ == mid + object_field_events(o, i as int),
                decreases o.fields@.len() - i,
            {
                out.push(SchemaEvent::EnterObjectTypeField(&o.fields[i], o));
                out.push(SchemaEvent::LeaveObjectTypeField(&o.fields[i], o));
                i = i + 1;
            }
            out.push(SchemaEvent::LeaveObjectType(o));
        },
        TypeDefinition::Scalar(s) => {
            out.push(SchemaEvent::EnterScalarType(s));
            out.push(SchemaEvent::LeaveScalarType(s));
        },
        TypeDefinition::Enum(e) => {
            out.push(SchemaEvent::EnterEnumType(e));
            let ghost mid = out@;
            let mut i: usize = 0;
            while i < e.values.len()
                invariant
                    i <= e.values@.len(),
                    out@ == mid + enum_value_events(e, i as int),
                decreases e.values@.len() - i,
            {
                out.push(SchemaEvent::EnterEnumValue(&e.values[i], e));
                out.push(SchemaEvent::LeaveEnumValue(&e.values[i], e));
                i = i + 1;
            }
            out.push(SchemaEvent::LeaveEnumType(e));
        },
        TypeDefinition::Union(u) => {
            out.push(SchemaEvent::EnterUnionType(u));
            out.push(SchemaEvent::LeaveUnionType(u));
        },
        TypeDefinition::InputObject(t) => {
            out.push(SchemaEvent::EnterInputObjectType(t));
            let ghost mid = out@;
            let mut i: usize = 0;
            while i < t.fields.len()
                invariant
                    i <= t.fields@.len(),
                    out@ == mid + input_field_events(t, i as int),
                decreases t.fields@.len() - i,
            {
                out.push(SchemaEvent::EnterInputObjectTypeField(&t.fields[i], t));
                out.push(SchemaEvent::LeaveInputObjectTypeField(&t.fields[i], t));
                i = i + 1;
            }
            out.push(SchemaEvent::LeaveInputObjectType(t));
        },
        TypeDefinition::Interface(t) => {
            out.push(SchemaEvent::EnterInterfaceType(t));
            let ghost mid = out@;
            let mut i: usize = 0;
            while i < t.fields.len()
                invariant
                    i <= t.fields@.len(),
                    out@ == mid + interface_field_events(t, i as int),
                decreases t.fields@.len() - i,
            {
                out.push(SchemaEvent::EnterInterfaceTypeField(&t.fields[i], t));
                out.push(SchemaEvent::LeaveInterfaceTypeField(&t.fields[i], t));
                i = i + 1;
            }
            out.push(SchemaEvent::LeaveInterfaceType(t));
        },
    }
    assert(out@ =~= start + kind_events(td));
}

/// The events of a walk over a schema without type extensions, in order.
pub fn schema_visit_events<'a>(document: &'a Document) -> (r: Vec<SchemaEvent<'a>>)
    ensures
        r@ == schema_events(document),
{
    let mut out: Vec<SchemaEvent<'a>> = Vec::new();
    let mut i: usize = 0;
    while i < document.definitions.len()
        invariant
            i <= document.definitions@.len(),
            out@ == schema_events_upto(document, i as int),
        decreases document.definitions@.len() - i,
    {
        let ghost before = out@;
        match &document.definitions[i] {
            Definition::SchemaDefinition(s) => {
                out.push(SchemaEvent::EnterSchemaDefinition(s));
                out.push(SchemaEvent::LeaveSchemaDefinition(s));
            },
            Definition::TypeDefinition(t) => {
                out.push(SchemaEvent::EnterTypeDefinition(t));
                push_kind_events(t, &mut out);
                out.push(SchemaEvent::LeaveTypeDefinition(t));
            },
            Definition::DirectiveDefinition(d) => {
                out.push(SchemaEvent::EnterDirectiveDefinition(d));
                out.push(SchemaEvent::LeaveDirectiveDefinition(d));
            },
            Definition::TypeExtension(_) => {},
        }
        assert(out@ =~= before + definition_events(&document.definitions@[i as int]));
        i = i + 1;
    }
    out
}

/// A visitor of schema documents: each hook is called when the walk enters
/// or leaves a node of its kind. What a hook does to the context is
/// `after_schema_event` of its event; a hook that a visitor does not define
/// hands its event to `on_schema_event`.
pub trait SchemaVisitor<T = DefaultVisitorContext> {
    /// The context after the hook of `event` has run on `visitor_context`.
    /// Unless a visitor says otherwise, its hooks change nothing.
    open spec fn after_schema_event<'a>(&self, visitor_context: T, event: SchemaEvent<'a>) -> T {
        visitor_context
    }

    /// What the hooks that the visitor does not define do with their event.
    fn on_schema_event<'a>(&self, event: SchemaEvent<'a>, visitor_context: &mut T)
        ensures
            *final(visitor_context) == self.after_schema_event(*old(visitor_context), event),
    ;

    /// Walks a schema that holds no type extension: the document hook, a
    /// hook for each event of the walk in order, and the closing document hook.
    fn visit_schema_document<'a>(&self, document: &'a Document, visitor_context: &mut T)
        requires
            without_extensions(document),
        ensures
            *final(visitor_context) == fold_events(
                (|c: T, e: SchemaEvent<'a>| self.after_schema_event(c, e)),
                schema_document_events(document),
                *old(visitor_context),
            ),
    {
        let ghost step = |c: T, e: SchemaEvent<'a>| self.after_schema_event(c, e);
        let ghost start = *visitor_context;
        self.enter_document(document, visitor_context);
        let ghost first_done = *visitor_context;
        let events = schema_visit_events(document);
        let mut i: usize = 0;
        while i < events.len()
            invariant
                i <= events@.len(),
                step == (|c: T, e: SchemaEvent<'a>| self.after_schema_event(c, e)),
                *visitor_context == fold_events(step, events@.take(i as int), first_done),
            decreases events@.len() - i,
        {
            let ev = events[i];
            match ev {
                SchemaEvent::EnterDocument(node) => self.enter_document(node, visitor_context),
                SchemaEvent::LeaveDocument(node) => self.leave_document(node, visitor_context),
                SchemaEvent::EnterSchemaDefinition(node) => self.enter_schema_definition(node, visitor_context),
                SchemaEvent::LeaveSchemaDefinition(node) => self.leave_schema_definition(node, visitor_context),
                SchemaEvent::EnterDirectiveDefinition(node) => self.enter_directive_definition(node, visitor_context),
                SchemaEvent::LeaveDirectiveDefinition(node) => self.leave_directive_definition(node, visitor_context),
                SchemaEvent::EnterTypeDefinition(node) => self.enter_type_definition(node, visitor_context),
                SchemaEvent::LeaveTypeDefinition(node) => self.leave_type_definition(node, visitor_context),
                SchemaEvent::EnterInterfaceType(node) => self.enter_interface_type(node, visitor_context),
                SchemaEvent::LeaveInterfaceType(node) => self.leave_interface_type(node, visitor_context),
                SchemaEvent::EnterInterfaceTypeField(node, type_) => self.enter_interface_type_field(node, type_, visitor_context),
                SchemaEvent::LeaveInterfaceTypeField(node, type_) => self.leave_interface_type_field(node, type_, visitor_context),
                SchemaEvent::EnterObjectType(node) => self.enter_object_type(node, visitor_context),
                SchemaEvent::LeaveObjectType(node) => self.leave_object_type(node, visitor_context),
                SchemaEvent::EnterObjectTypeField(node, type_) => self.enter_object_type_field(node, type_, visitor_context),
                SchemaEvent::LeaveObjectTypeField(node, type_) => self.leave_object_type_field(node, type_, visitor_context),
                SchemaEvent::EnterInputObjectType(node) => self.enter_input_object_type(node, visitor_context),
                SchemaEvent::LeaveInputObjectType(node) => self.leave_input_object_type(node, visitor_context),
                SchemaEvent::EnterInputObjectTypeField(node, input_type) => self.enter_input_object_type_field(node, input_type, visitor_context),
                SchemaEvent::LeaveInputObjectTypeField(node, input_type) => self.leave_input_object_type_field(node, input_type, visitor_context),
                SchemaEvent::EnterUnionType(node) => self.enter_union_type(node, visitor_context),
                SchemaEvent::LeaveUnionType(node) => self.leave_union_type(node, visitor_context),
                SchemaEvent::EnterScalarType(node) => self.enter_scalar_type(node, visitor_context),
                SchemaEvent::LeaveScalarType(node) => self.leave_scalar_type(node, visitor_context),
                SchemaEvent::EnterEnumType(node) => self.enter_enum_type(node, visitor_context),
                SchemaEvent::LeaveEnumType(node) => self.leave_enum_type(node, visitor_context),
                SchemaEvent::EnterEnumValue(node, enum_type) => self.enter_enum_value(node, enum_type, visitor_context),
                SchemaEvent::LeaveEnumValue(node, enum_type) => self.leave_enum_value(node, enum_type, visitor_context),
            }
            proof {
                fold_events_push(step, events@.take(i as int), events@[i as int], first_done);
                assert(events@.take(i as int).push(events@[i as int]) =~= events@.take(i as int + 1));
            }
            i = i + 1;
        }
        self.leave_document(document, visitor_context);
        proof {
            let first = seq![SchemaEvent::EnterDocument(document)];
            assert(fold_events(step, first, start) == first_done) by {
                fold_events_push(step, Seq::<SchemaEvent<'a>>::empty(), SchemaEvent::EnterDocument(document), start);
                assert(Seq::<SchemaEvent<'a>>::empty().push(SchemaEvent::EnterDocument(document)) =~= first);
            }
            assert(events@.take(events@.len() as int) =~= events@);
            fold_events_append(step, first, events@, start);
            fold_events_push(step, first + events@, SchemaEvent::LeaveDocument(document), start);
            assert((first + events@).push(SchemaEvent::LeaveDocument(document)) =~= schema_document_events(document));
        }
    }

    fn enter_document(&self, _node: &Document, visitor_context: &mut T)
        ensures
            *final(visitor_context) == self.after_schema_event(*old(visitor_context), SchemaEvent::EnterDocument(_node)),
    {
        self.on_schema_event(SchemaEvent::EnterDocument(_node), visitor_context)
    }

    fn leave_document(&self, _node: &Document, visitor_context: &mut T)
        ensures
            *final(visitor_context) == self.after_schema_event(*old(visitor_context), SchemaEvent::LeaveDocument(_node)),
    {
        self.on_schema_event(SchemaEvent::LeaveDocument(_node), visitor_context)
    }

    fn enter_schema_definition(&self, _node: &SchemaDefinition, visitor_context: &mut T)
        ensures
            *final(visitor_context) == self.after_schema_event(*old(visitor_context), SchemaEvent::EnterSchemaDefinition(_node)),
    {
        self.on_schema_event(SchemaEvent::EnterSchemaDefinition(_node), visitor_context)
    }

    fn leave_schema_definition(&self, _node: &SchemaDefinition, visitor_context: &mut T)
        ensures
            *final(visitor_context) == self.after_schema_event(*old(visitor_context), SchemaEvent::LeaveSchemaDefinition(_node)),
    {
        self.on_schema_event(SchemaEvent::LeaveSchemaDefinition(_node), visitor_context)
    }

    fn enter_directive_definition(&self, _node: &DirectiveDefinition, visitor_context: &mut T)
        ensures
            *final(visitor_context) == self.after_schema_event(*old(visitor_context), SchemaEvent::EnterDirectiveDefinition(_node)),
    {
        self.on_schema_event(SchemaEvent::EnterDirectiveDefinition(_node), visitor_context)
    }

    fn leave_directive_definition(&self, _node: &DirectiveDefinition, visitor_context: &mut T)
        ensures
            *final(visitor_context) == self.after_schema_event(*old(visitor_context), SchemaEvent::LeaveDirectiveDefinition(_node)),
    {
        self.on_schema_event(SchemaEvent::LeaveDirectiveDefinition(_node), visitor_context)
    }

    fn enter_type_definition(&self, _node: &TypeDefinition, visitor_context: &mut T)
        ensures
            *final(visitor_context) == self.after_schema_event(*old(visitor_context), SchemaEvent::EnterTypeDefinition(_node)),
    {
        self.on_schema_event(SchemaEvent::EnterTypeDefinition(_node), visitor_context)
    }

    fn leave_type_definition(&self, _node: &TypeDefinition, visitor_context: &mut T)
        ensures
            *final(visitor_context) == self.after_schema_event(*old(visitor_context), SchemaEvent::LeaveTypeDefinition(_node)),
    {
        self.on_schema_event(SchemaEvent::LeaveTypeDefinition(_node), visitor_context)
    }

    fn enter_interface_type(&self, _node: &InterfaceType, visitor_context: &mut T)
        ensures
            *final(visitor_context) == self.after_schema_event(*old(visitor_context), SchemaEvent::EnterInterfaceType(_node)),
    {
        self.on_schema_event(SchemaEvent::EnterInterfaceType(_node), visitor_context)
    }

    fn leave_interface_type(&self, _node: &InterfaceType, visitor_context: &mut T)
        ensures
            *final(visitor_context) == self.after_schema_event(*old(visitor_context), SchemaEvent::LeaveInterfaceType(_node)),
    {
        self.on_schema_event(SchemaEvent::LeaveInterfaceType(_node), visitor_context)
    }

    fn enter_interface_type_field(&self, _node: &Field, _type_: &InterfaceType, visitor_context: &mut T)
        ensures
            *final(visitor_context) == self.after_schema_event(*old(visitor_context), SchemaEvent::EnterInterfaceTypeField(_node, _type_)),
    {
        self.on_schema_event(SchemaEvent::EnterInterfaceTypeField(_node, _type_), visitor_context)
    }

    fn leave_interface_type_field(&self, _node: &Field, _type_: &InterfaceType, visitor_context: &mut T)
        ensures
            *final(visitor_context) == self.after_schema_event(*old(visitor_context), SchemaEvent::LeaveInterfaceTypeField(_node, _type_)),
    {
        self.on_schema_event(SchemaEvent::LeaveInterfaceTypeField(_node, _type_), visitor_context)
    }

    fn enter_object_type(&self, _node: &ObjectType, visitor_context: &mut T)
        ensures
            *final(visitor_context) == self.after_schema_event(*old(visitor_context), SchemaEvent::EnterObjectType(_node)),
    {
        self.on_schema_event(SchemaEvent::EnterObjectType(_node), visitor_context)
    }

    fn leave_object_type(&self, _node: &ObjectType, visitor_context: &mut T)
        ensures
            *final(visitor_context) == self.after_schema_event(*old(visitor_context), SchemaEvent::LeaveObjectType(_node)),
    {
        self.on_schema_event(SchemaEvent::LeaveObjectType(_node), visitor_context)
    }

    fn enter_object_type_field(&self, _node: &Field, _type_: &ObjectType, visitor_context: &mut T)
        ensures
            *final(visitor_context) == self.after_schema_event(*old(visitor_context), SchemaEvent::EnterObjectTypeField(_node, _type_)),
    {
        self.on_schema_event(SchemaEvent::EnterObjectTypeField(_node, _type_), visitor_context)
    }

    fn leave_object_type_field(&self, _node: &Field, _type_: &ObjectType, visitor_context: &mut T)
        ensures
            *final(visitor_context) == self.after_schema_event(*old(visitor_context), SchemaEvent::LeaveObjectTypeField(_node, _type_)),
    {
        self.on_schema_event(SchemaEvent::LeaveObjectTypeField(_node, _type_), visitor_context)
    }

    fn enter_input_object_type(&self, _node: &InputObjectType, visitor_context: &mut T)
        ensures
            *final(visitor_context) == self.after_schema_event(*old(visitor_context), SchemaEvent::EnterInputObjectType(_node)),
    {
        self.on_schema_event(SchemaEvent::EnterInputObjectType(_node), visitor_context)
    }

    fn leave_input_object_type(&self, _node: &InputObjectType, visitor_context: &mut T)
        ensures
            *final(visitor_context) == self.after_schema_event(*old(visitor_context), SchemaEvent::LeaveInputObjectType(_node)),
    {
        self.on_schema_event(SchemaEvent::LeaveInputObjectType(_node), visitor_context)
    }

    fn enter_input_object_type_field(&self, _node: &InputValue, _input_type: &InputObjectType, visitor_context: &mut T)
        ensures
            *final(visitor_context) == self.after_schema_event(*old(visitor_context), SchemaEvent::EnterInputObjectTypeField(_node, _input_type)),
    {
        self.on_schema_event(SchemaEvent::EnterInputObjectTypeField(_node, _input_type), visitor_context)
    }

    fn leave_input_object_type_field(&self, _node: &InputValue, _input_type: &InputObjectType, visitor_context: &mut T)
        ensures
            *final(visitor_context) == self.after_schema_event(*old(visitor_context), SchemaEvent::LeaveInputObjectTypeField(_node, _input_type)),
    {
        self.on_schema_event(SchemaEvent::LeaveInputObjectTypeField(_node, _input_type), visitor_context)
    }

    fn enter_union_type(&self, _node: &UnionType, visitor_context: &mut T)
        ensures
            *final(visitor_context) == self.after_schema_event(*old(visitor_context), SchemaEvent::EnterUnionType(_node)),
    {
        self.on_schema_event(SchemaEvent::EnterUnionType(_node), visitor_context)
    }

    fn leave_union_type(&self, _node: &UnionType, visitor_context: &mut T)
        ensures
            *final(visitor_context) == self.after_schema_event(*old(visitor_context), SchemaEvent::LeaveUnionType(_node)),
    {
        self.on_schema_event(SchemaEvent::LeaveUnionType(_node), visitor_context)
    }

    fn enter_scalar_type(&self, _node: &ScalarType, visitor_context: &mut T)
        ensures
            *final(visitor_context) == self.after_schema_event(*old(visitor_context), SchemaEvent::EnterScalarType(_node)),
    {
        self.on_schema_event(SchemaEvent::EnterScalarType(_node), visitor_context)
    }

    fn leave_scalar_type(&self, _node: &ScalarType, visitor_context: &mut T)
        ensures
            *final(visitor_context) == self.after_schema_event(*old(visitor_context), SchemaEvent::LeaveScalarType(_node)),
    {
        self.on_schema_event(SchemaEvent::LeaveScalarType(_node), visitor_context)
    }

    fn enter_enum_type(&self, _node: &EnumType, visitor_context: &mut T)
        ensures
            *final(visitor_context) == self.after_schema_event(*old(visitor_context), SchemaEvent::EnterEnumType(_node)),
    {
        self.on_schema_event(SchemaEvent::EnterEnumType(_node), visitor_context)
    }

    fn leave_enum_type(&self, _node: &EnumType, visitor_context: &mut T)
        ensures
            *final(visitor_context) == self.after_schema_event(*old(visitor_context), SchemaEvent::LeaveEnumType(_node)),
    {
        self.on_schema_event(SchemaEvent::LeaveEnumType(_node), visitor_context)
    }

    fn enter_enum_value(&self, _node: &EnumValue, _enum: &EnumType, visitor_context: &mut T)
        ensures
            *final(visitor_context) == self.after_schema_event(*old(visitor_context), SchemaEvent::EnterEnumValue(_node, _enum)),
    {
        self.on_schema_event(SchemaEvent::EnterEnumValue(_node, _enum), visitor_context)
    }

    fn leave_enum_value(&self, _node: &EnumValue, _enum: &EnumType, visitor_context: &mut T)
        ensures
            *final(visitor_context) == self.after_schema_event(*old(visitor_context), SchemaEvent::LeaveEnumValue(_node, _enum)),
    {
        self.on_schema_event(SchemaEvent::LeaveEnumValue(_node, _enum), visitor_context)
    }
}

} // verus!
