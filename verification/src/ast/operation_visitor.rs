//! The traversal of an operation document against a schema.
//!
//! A traversal visits the definitions of a document in order and, inside each,
//! its directives, variable definitions, selection sets, fields, fragment
//! spreads, inline fragments, arguments and input values, depth first. At each
//! node it knows the type of the enclosing selection set (the parent type),
//! the type of the node itself, and, inside arguments and input values, the
//! expected input type. A traversal is written out as the sequence of steps it
//! takes: the node entered and what was known at that point.
use vstd::prelude::*;

use crate::ast::ext::{
    directive_named, find_input_value, field_of, inner_name, object_named, op_directives,
    op_selection_set, op_variable_definitions, query_root_name, mutation_root_name,
    subscription_root_name, type_named, FieldByNameExtension, OperationDefinitionExtension,
    SchemaDocumentExtension, TypeExtension, find_input_value_in, input_field_of,
};
use crate::static_graphql::query::{
    Definition, Directive, Document, Field, FragmentDefinition, FragmentSpread, InlineFragment,
    OperationDefinition, Selection, SelectionSet, Type, TypeCondition, Value, VariableDefinition,
};
use crate::static_graphql::schema::{self, DirectiveLocation, InputValue, TypeDefinition};
use crate::ast::operation_walk::{document_walk_events, operation_document_events, OperationEvent};
use crate::ast::utils::{fold_events, fold_events_push};

verus! {

/// What a traversal knows at a node.
#[derive(Clone, Copy)]
pub struct VisitState<'a> {
    /// The type of the innermost enclosing selection set.
    pub parent_type: Option<&'a TypeDefinition>,
    /// The type of the current node: the type of a field, the condition of a
    /// fragment, or the root type of an operation.
    pub current_type: Option<&'a TypeDefinition>,
    /// The schema's type reference of the current field.
    pub type_literal: Option<&'a Type>,
    /// The definition of the type expected for the current input value.
    pub input_type: Option<&'a TypeDefinition>,
    /// The type reference expected for the current input value.
    pub input_type_literal: Option<&'a Type>,
    /// The definition of the innermost enclosing field.
    pub field: Option<&'a schema::Field>,
}

/// A node that a traversal enters.
#[derive(Clone, Copy)]
pub enum VisitNode<'a> {
    OperationDefinition(&'a OperationDefinition),
    FragmentDefinition(&'a FragmentDefinition),
    VariableDefinition(&'a VariableDefinition),
    /// A directive, with the kind of node that it is applied to.
    Directive(&'a Directive, DirectiveLocation),
    Argument(&'a (String, Value)),
    SelectionSet(&'a SelectionSet),
    Field(&'a Field),
    FragmentSpread(&'a FragmentSpread),
    InlineFragment(&'a InlineFragment),
    NullValue,
    /// A boolean, integer, float or string value.
    ScalarValue(&'a Value),
    EnumValue(&'a String),
    VariableValue(&'a String),
    ListValue(&'a Vec<Value>),
    ObjectValue(&'a Vec<(String, Value)>),
    ObjectField(&'a (String, Value)),
}

/// One step of a traversal: the node entered and the state at that point.
#[derive(Clone, Copy)]
pub struct VisitStep<'a> {
    pub node: VisitNode<'a>,
    pub state: VisitState<'a>,
}

pub open spec fn step<'a>(node: VisitNode<'a>, state: VisitState<'a>) -> VisitStep<'a> {
    VisitStep { node, state }
}

/// The state at the start of a definition.
pub open spec fn empty_state<'a>() -> VisitState<'a> {
    VisitState {
        parent_type: None,
        current_type: None,
        type_literal: None,
        input_type: None,
        input_type_literal: None,
        field: None,
    }
}

/// The state with `t` as the expected input type.
pub open spec fn with_input<'a>(
    schema: &'a schema::Document,
    st: VisitState<'a>,
    t: Option<&'a Type>,
) -> VisitState<'a> {
    VisitState {
        input_type: match t {
            Some(t) => type_named(schema, inner_name(*t)),
            None => None,
        },
        input_type_literal: t,
        ..st
    }
}

/// The type expected for the items of a list: the item type when a list type is expected.
pub open spec fn list_item_type<'a>(st: VisitState<'a>) -> Option<&'a Type> {
    match st.input_type_literal {
        Some(Type::ListType(inner)) => Some(&**inner),
        _ => None,
    }
}

/// The type expected for the field `key` of an input object value.
pub open spec fn object_field_type<'a>(
    schema: &'a schema::Document,
    st: VisitState<'a>,
    key: Seq<char>,
) -> Option<&'a Type> {
    match st.input_type_literal {
        Some(t) => match type_named(schema, inner_name(*t)) {
            Some(d) => match input_field_of(d, key) {
                Some(f) => Some(&f.value_type),
                None => None,
            },
            None => None,
        },
        None => None,
    }
}

/// The steps of visiting an input value (`n < 0`), or of the first `n` items
/// or fields of a list or object value.
pub open spec fn value_steps<'a>(
    schema: &'a schema::Document,
    v: &'a Value,
    n: int,
    st: VisitState<'a>,
) -> Seq<VisitStep<'a>>
    decreases v, if n < 0 { 1int } else { 0int }, n,
{
    if n < 0 {
        match v {
            Value::Null => seq![step(VisitNode::NullValue, st)],
            Value::Enum(e) => seq![step(VisitNode::EnumValue(e), st)],
            Value::Variable(name) => seq![step(VisitNode::VariableValue(name), st)],
            Value::List(items) => seq![step(VisitNode::ListValue(items), st)] + value_steps(
                schema,
                v,
                items@.len() as int,
                st,
            ),
            Value::Object(fields) => seq![step(VisitNode::ObjectValue(fields), st)] + value_steps(
                schema,
                v,
                fields@.len() as int,
                st,
            ),
            _ => seq![step(VisitNode::ScalarValue(v), st)],
        }
    } else {
        match v {
            Value::List(items) => if n == 0 || n > items@.len() {
                Seq::empty()
            } else {
                value_steps(schema, v, n - 1, st) + value_steps(
                    schema,
                    &items@[n - 1],
                    -1,
                    with_input(schema, st, list_item_type(st)),
                )
            },
            Value::Object(fields) => if n == 0 || n > fields@.len() {
                Seq::empty()
            } else {
                let f = &fields@[n - 1];
                let st_f = with_input(schema, st, object_field_type(schema, st, f.0@));
                value_steps(schema, v, n - 1, st) + seq![step(VisitNode::ObjectField(f), st_f)]
                    + value_steps(schema, &f.1, -1, st_f)
            },
            _ => Seq::empty(),
        }
    }
}

/// The type of the argument named `name`, among the argument definitions `defs`.
pub open spec fn argument_type<'a>(defs: Option<&'a Vec<InputValue>>, name: Seq<char>) -> Option<
    &'a Type,
> {
    match defs {
        Some(d) => match find_input_value(d, name, 0) {
            Some(a) => Some(&a.value_type),
            None => None,
        },
        None => None,
    }
}

/// The steps of visiting the first `n` arguments of `args`, whose definitions are `defs`.
pub open spec fn argument_steps<'a>(
    schema: &'a schema::Document,
    defs: Option<&'a Vec<InputValue>>,
    args: &'a Vec<(String, Value)>,
    n: int,
    st: VisitState<'a>,
) -> Seq<VisitStep<'a>>
    decreases n,
{
    if n <= 0 || n > args@.len() {
        Seq::empty()
    } else {
        let a = &args@[n - 1];
        let st_a = with_input(schema, st, argument_type(defs, a.0@));
        argument_steps(schema, defs, args, n - 1, st) + seq![step(VisitNode::Argument(a), st_a)]
            + value_steps(schema, &a.1, -1, st_a)
    }
}

/// The steps of visiting the first `n` of the directives `dirs` applied at `loc`.
pub open spec fn directive_steps<'a>(
    schema: &'a schema::Document,
    dirs: Seq<Directive>,
    loc: DirectiveLocation,
    n: int,
    st: VisitState<'a>,
) -> Seq<VisitStep<'a>>
    decreases n,
{
    if n <= 0 || n > dirs.len() {
        Seq::empty()
    } else {
        let d = &dirs[n - 1];
        let defs = match directive_named(schema, d.name@) {
            Some(dd) => Some(&dd.arguments),
            None => None,
        };
        directive_steps(schema, dirs, loc, n - 1, st) + seq![
            step(VisitNode::Directive(d, loc), st),
        ] + argument_steps(schema, defs, &d.arguments, d.arguments@.len() as int, st)
    }
}

/// The steps of visiting the first `n` of the variable definitions `vars`.
pub open spec fn variable_steps<'a>(
    schema: &'a schema::Document,
    vars: Seq<VariableDefinition>,
    n: int,
    st: VisitState<'a>,
) -> Seq<VisitStep<'a>>
    decreases n,
{
    if n <= 0 || n > vars.len() {
        Seq::empty()
    } else {
        let var = &vars[n - 1];
        let st_v = with_input(schema, st, Some(&var.var_type));
        variable_steps(schema, vars, n - 1, st) + seq![step(VisitNode::VariableDefinition(var), st_v)]
            + match &var.default_value {
            Some(d) => value_steps(schema, d, -1, st_v),
            None => Seq::empty(),
        }
    }
}

/// The state inside a selection set: its parent type is the current type.
pub open spec fn enter_selection_set<'a>(st: VisitState<'a>) -> VisitState<'a> {
    VisitState { parent_type: st.current_type, ..st }
}

/// The definition of a field in the state inside its selection set.
pub open spec fn field_def<'a>(f: &Field, st: VisitState<'a>) -> Option<&'a schema::Field> {
    match st.parent_type {
        Some(p) => field_of(p, f.name@),
        None => None,
    }
}

/// The state at a field, given the state inside the enclosing selection set.
pub open spec fn field_state<'a>(
    schema: &'a schema::Document,
    f: &Field,
    st: VisitState<'a>,
) -> VisitState<'a> {
    let def = field_def(f, st);
    VisitState {
        current_type: match def {
            Some(d) => type_named(schema, inner_name(d.field_type)),
            None => None,
        },
        type_literal: match def {
            Some(d) => Some(&d.field_type),
            None => None,
        },
        ..st
    }
}

/// The state at an inline fragment, given the state inside the enclosing selection set.
pub open spec fn inline_fragment_state<'a>(
    schema: &'a schema::Document,
    i: &InlineFragment,
    st: VisitState<'a>,
) -> VisitState<'a> {
    match &i.type_condition {
        Some(TypeCondition::On(name)) => VisitState {
            current_type: type_named(schema, name@),
            type_literal: None,
            ..st
        },
        None => st,
    }
}

/// The steps of visiting a selection set (`n < 0`), or the first `n` of its
/// items given the state inside it.
pub open spec fn selection_steps<'a>(
    schema: &'a schema::Document,
    ss: &'a SelectionSet,
    n: int,
    st: VisitState<'a>,
) -> Seq<VisitStep<'a>>
    decreases ss, if n < 0 { 1int } else { 0int }, n,
{
    if n < 0 {
        let inside = enter_selection_set(st);
        seq![step(VisitNode::SelectionSet(ss), inside)] + selection_steps(
            schema,
            ss,
            ss.items@.len() as int,
            inside,
        )
    } else if n == 0 || n > ss.items@.len() {
        Seq::empty()
    } else {
        let prev = selection_steps(schema, ss, n - 1, st);
        match &ss.items@[n - 1] {
            Selection::Field(f) => {
                let st_f = field_state(schema, f, st);
                let def = field_def(f, st);
                let st_in = VisitState { field: def, ..st_f };
                let arg_defs = match def {
                    Some(d) => Some(&d.arguments),
                    None => None,
                };
                prev + seq![step(VisitNode::Field(f), st_f)] + argument_steps(
                    schema,
                    arg_defs,
                    &f.arguments,
                    f.arguments@.len() as int,
                    st_in,
                ) + directive_steps(
                    schema,
                    f.directives@,
                    DirectiveLocation::Field,
                    f.directives@.len() as int,
                    st_in,
                ) + selection_steps(schema, &f.selection_set, -1, st_in)
            },
            Selection::FragmentSpread(s) => prev + seq![step(VisitNode::FragmentSpread(s), st)]
                + directive_steps(
                schema,
                s.directives@,
                DirectiveLocation::FragmentSpread,
                s.directives@.len() as int,
                st,
            ),
            Selection::InlineFragment(i) => {
                let st_i = inline_fragment_state(schema, i, st);
                prev + seq![step(VisitNode::InlineFragment(i), st_i)] + directive_steps(
                    schema,
                    i.directives@,
                    DirectiveLocation::InlineFragment,
                    i.directives@.len() as int,
                    st_i,
                ) + selection_steps(schema, &i.selection_set, -1, st_i)
            },
        }
    }
}

/// The type definition for `name`, when the schema defines an object type so named.
pub open spec fn root_type<'a>(schema: &'a schema::Document, name: Option<Seq<char>>) -> Option<
    &'a TypeDefinition,
> {
    match name {
        Some(n) => match object_named(schema, n) {
            Some(_) => type_named(schema, n),
            None => None,
        },
        None => None,
    }
}

/// The root type of an operation: the query, mutation or subscription type.
pub open spec fn operation_root<'a>(schema: &'a schema::Document, op: &OperationDefinition) -> Option<
    &'a TypeDefinition,
> {
    match op {
        OperationDefinition::Query(_) => root_type(schema, Some(query_root_name(schema))),
        OperationDefinition::SelectionSet(_) => root_type(schema, Some(query_root_name(schema))),
        OperationDefinition::Mutation(_) => root_type(schema, mutation_root_name(schema)),
        OperationDefinition::Subscription(_) => root_type(schema, subscription_root_name(schema)),
    }
}

/// Where the directives of an operation stand.
pub open spec fn operation_location(op: &OperationDefinition) -> DirectiveLocation {
    match op {
        OperationDefinition::Mutation(_) => DirectiveLocation::Mutation,
        OperationDefinition::Subscription(_) => DirectiveLocation::Subscription,
        _ => DirectiveLocation::Query,
    }
}

/// The type name of a fragment's type condition.
pub open spec fn condition_name(tc: &TypeCondition) -> Seq<char> {
    match tc {
        TypeCondition::On(name) => name@,
    }
}

/// The steps of visiting a definition.
pub open spec fn definition_steps<'a>(schema: &'a schema::Document, def: &'a Definition) -> Seq<
    VisitStep<'a>,
> {
    match def {
        Definition::Fragment(frag) => {
            let st = VisitState {
                current_type: type_named(schema, condition_name(&frag.type_condition)),
                ..empty_state()
            };
            seq![step(VisitNode::FragmentDefinition(frag), st)] + directive_steps(
                schema,
                frag.directives@,
                DirectiveLocation::FragmentDefinition,
                frag.directives@.len() as int,
                st,
            ) + selection_steps(schema, &frag.selection_set, -1, st)
        },
        Definition::Operation(op) => {
            let st = VisitState { current_type: operation_root(schema, op), ..empty_state() };
            seq![step(VisitNode::OperationDefinition(op), st)] + directive_steps(
                schema,
                op_directives(op),
                operation_location(op),
                op_directives(op).len() as int,
                st,
            ) + variable_steps(
                schema,
                op_variable_definitions(op),
                op_variable_definitions(op).len() as int,
                st,
            ) + selection_steps(schema, op_selection_set(op), -1, st)
        },
    }
}

/// The steps of visiting the first `n` definitions of a document.
pub open spec fn document_steps_upto<'a>(
    schema: &'a schema::Document,
    doc: &'a Document,
    n: int,
) -> Seq<VisitStep<'a>>
    decreases n,
{
    if n <= 0 || n > doc.definitions@.len() {
        Seq::empty()
    } else {
        document_steps_upto(schema, doc, n - 1) + definition_steps(schema, &doc.definitions@[n - 1])
    }
}

/// The steps of visiting a whole document.
pub open spec fn document_steps<'a>(schema: &'a schema::Document, doc: &'a Document) -> Seq<
    VisitStep<'a>,
> {
    document_steps_upto(schema, doc, doc.definitions@.len() as int)
}


// ---------------------------------------------------------------------------
// The traversal
// ---------------------------------------------------------------------------

/// The state with `t` as the expected input type.
pub fn input_state<'a>(schema: &'a schema::Document, st: VisitState<'a>, t: Option<&'a Type>) -> (r:
    VisitState<'a>)
    ensures
        r == with_input(schema, st, t),
{
    let input_type = match t {
        Some(t) => {
            let name = t.inner_type();
            schema.type_by_name(name.as_str())
        },
        None => None,
    };
    VisitState { input_type, input_type_literal: t, ..st }
}

/// Appends the steps of visiting an input value.
#[verifier::loop_isolation(false)]
pub fn visit_input_value<'a>(
    schema: &'a schema::Document,
    v: &'a Value,
    st: VisitState<'a>,
    out: &mut Vec<VisitStep<'a>>,
)
    ensures
        final(out)@ == old(out)@ + value_steps(schema, v, -1, st),
    decreases v,
{
    let ghost start = out@;
    match v {
        Value::Null => {
            out.push(VisitStep { node: VisitNode::NullValue, state: st });
        },
        Value::Enum(e) => {
            out.push(VisitStep { node: VisitNode::EnumValue(e), state: st });
        },
        Value::Variable(name) => {
            out.push(VisitStep { node: VisitNode::VariableValue(name), state: st });
        },
        Value::List(items) => {
            out.push(VisitStep { node: VisitNode::ListValue(items), state: st });
            let item_type = match st.input_type_literal {
                Some(Type::ListType(inner)) => Some(&**inner),
                _ => None,
            };
            let st_item = input_state(schema, st, item_type);
            let mut i: usize = 0;
            while i < items.len()
                invariant
                    i <= items@.len(),
                    out@ == start + seq![step(VisitNode::ListValue(items), st)] + value_steps(
                        schema,
                        v,
                        i as int,
                        st,
                    ),
                decreases items@.len() - i,
            {
                visit_input_value(schema, &items[i], st_item, out);
                i = i + 1;
            }
        },
        Value::Object(fields) => {
            out.push(VisitStep { node: VisitNode::ObjectValue(fields), state: st });
            let mut i: usize = 0;
            while i < fields.len()
                invariant
                    i <= fields@.len(),
                    out@ == start + seq![step(VisitNode::ObjectValue(fields), st)] + value_steps(
                        schema,
                        v,
                        i as int,
                        st,
                    ),
                decreases fields@.len() - i,
            {
                let f = &fields[i];
                let field_type = match st.input_type_literal {
                    Some(t) => {
                        let name = t.inner_type();
                        match schema.type_by_name(name.as_str()) {
                            Some(d) => match d.input_field_by_name(&f.0) {
                                Some(fd) => Some(&fd.value_type),
                                None => None,
                            },
                            None => None,
                        }
                    },
                    None => None,
                };
                let st_f = input_state(schema, st, field_type);
                out.push(VisitStep { node: VisitNode::ObjectField(f), state: st_f });
                visit_input_value(schema, &f.1, st_f, out);
                i = i + 1;
            }
        },
        _ => {
            out.push(VisitStep { node: VisitNode::ScalarValue(v), state: st });
        },
    }
}

/// Appends the steps of visiting the arguments `args`, whose definitions are `defs`.
pub fn visit_arguments<'a>(
    schema: &'a schema::Document,
    defs: Option<&'a Vec<InputValue>>,
    args: &'a Vec<(String, Value)>,
    st: VisitState<'a>,
    out: &mut Vec<VisitStep<'a>>,
)
    ensures
        final(out)@ == old(out)@ + argument_steps(schema, defs, args, args@.len() as int, st),
{
    let ghost start = out@;
    let mut i: usize = 0;
    while i < args.len()
        invariant
            i <= args@.len(),
            out@ == start + argument_steps(schema, defs, args, i as int, st),
        decreases args@.len() - i,
    {
        let a = &args[i];
        let arg_type = match defs {
            Some(d) => match find_input_value_in(d, a.0.as_str()) {
                Some(def) => Some(&def.value_type),
                None => None,
            },
            None => None,
        };
        let st_a = input_state(schema, st, arg_type);
        out.push(VisitStep { node: VisitNode::Argument(a), state: st_a });
        visit_input_value(schema, &a.1, st_a, out);
        i = i + 1;
    }
}

/// Appends the steps of visiting the directives `dirs`, applied at `loc`.
pub fn visit_directives<'a>(
    schema: &'a schema::Document,
    dirs: &'a [Directive],
    loc: DirectiveLocation,
    st: VisitState<'a>,
    out: &mut Vec<VisitStep<'a>>,
)
    ensures
        final(out)@ == old(out)@ + directive_steps(schema, dirs@, loc, dirs@.len() as int, st),
{
    let ghost start = out@;
    let mut i: usize = 0;
    while i < dirs.len()
        invariant
            i <= dirs@.len(),
            out@ == start + directive_steps(schema, dirs@, loc, i as int, st),
        decreases dirs@.len() - i,
    {
        let d = &dirs[i];
        let defs = match schema.directive_by_name(d.name.as_str()) {
            Some(dd) => Some(&dd.arguments),
            None => None,
        };
        out.push(VisitStep { node: VisitNode::Directive(d, loc), state: st });
        visit_arguments(schema, defs, &d.arguments, st, out);
        i = i + 1;
    }
}

/// Appends the steps of visiting the variable definitions `vars`.
pub fn visit_variable_definitions<'a>(
    schema: &'a schema::Document,
    vars: &'a [VariableDefinition],
    st: VisitState<'a>,
    out: &mut Vec<VisitStep<'a>>,
)
    ensures
        final(out)@ == old(out)@ + variable_steps(schema, vars@, vars@.len() as int, st),
{
    let ghost start = out@;
    let mut i: usize = 0;
    while i < vars.len()
        invariant
            i <= vars@.len(),
            out@ == start + variable_steps(schema, vars@, i as int, st),
        decreases vars@.len() - i,
    {
        let var = &vars[i];
        let st_v = input_state(schema, st, Some(&var.var_type));
        out.push(VisitStep { node: VisitNode::VariableDefinition(var), state: st_v });
        match &var.default_value {
            Some(d) => visit_input_value(schema, d, st_v, out),
            None => {},
        }
        i = i + 1;
    }
}

/// The state at a field, given the state inside the enclosing selection set.
pub(crate) fn field_state_exec<'a>(schema: &'a schema::Document, f: &Field, st: VisitState<'a>) -> (r: (
    VisitState<'a>,
    Option<&'a schema::Field>,
))
    ensures
        r.0 == field_state(schema, f, st),
        r.1 == field_def(f, st),
{
    let def = match st.parent_type {
        Some(p) => p.field_by_name(&f.name),
        None => None,
    };
    let current_type = match def {
        Some(d) => {
            let name = d.field_type.inner_type();
            schema.type_by_name(name.as_str())
        },
        None => None,
    };
    let type_literal = match def {
        Some(d) => Some(&d.field_type),
        None => None,
    };
    (VisitState { current_type, type_literal, ..st }, def)
}

/// Appends the steps of visiting a selection set.
#[verifier::loop_isolation(false)]
pub fn visit_selection_set<'a>(
    schema: &'a schema::Document,
    ss: &'a SelectionSet,
    st: VisitState<'a>,
    out: &mut Vec<VisitStep<'a>>,
)
    ensures
        final(out)@ == old(out)@ + selection_steps(schema, ss, -1, st),
    decreases ss,
{
    let ghost start = out@;
    let inside = VisitState { parent_type: st.current_type, ..st };
    out.push(VisitStep { node: VisitNode::SelectionSet(ss), state: inside });
    let mut i: usize = 0;
    while i < ss.items.len()
        invariant
            i <= ss.items@.len(),
            inside == enter_selection_set(st),
            out@ == start + seq![step(VisitNode::SelectionSet(ss), inside)] + selection_steps(
                schema,
                ss,
                i as int,
                inside,
            ),
        decreases ss.items@.len() - i,
    {
        match &ss.items[i] {
            Selection::Field(f) => {
                let (st_f, def) = field_state_exec(schema, f, inside);
                let st_in = VisitState { field: def, ..st_f };
                let arg_defs = match def {
                    Some(d) => Some(&d.arguments),
                    None => None,
                };
                out.push(VisitStep { node: VisitNode::Field(f), state: st_f });
                visit_arguments(schema, arg_defs, &f.arguments, st_in, out);
                visit_directives(schema, f.directives.as_slice(), DirectiveLocation::Field, st_in, out);
                visit_selection_set(schema, &f.selection_set, st_in, out);
            },
            Selection::FragmentSpread(s) => {
                out.push(VisitStep { node: VisitNode::FragmentSpread(s), state: inside });
                visit_directives(
                    schema,
                    s.directives.as_slice(),
                    DirectiveLocation::FragmentSpread,
                    inside,
                    out,
                );
            },
            Selection::InlineFragment(inl) => {
                let st_i = match &inl.type_condition {
                    Some(TypeCondition::On(name)) => VisitState {
                        current_type: schema.type_by_name(name.as_str()),
                        type_literal: None,
                        ..inside
                    },
                    None => inside,
                };
                out.push(VisitStep { node: VisitNode::InlineFragment(inl), state: st_i });
                visit_directives(
                    schema,
                    inl.directives.as_slice(),
                    DirectiveLocation::InlineFragment,
                    st_i,
                    out,
                );
                visit_selection_set(schema, &inl.selection_set, st_i, out);
            },
        }
        i = i + 1;
    }
}

/// The type definition for `name`, when the schema defines an object type so named.
fn root_type_exec<'a>(schema: &'a schema::Document, name: Option<&str>) -> (r: Option<&'a TypeDefinition>)
    ensures
        r == root_type(schema, match name {
            Some(n) => Some(n@),
            None => None,
        }),
{
    match name {
        Some(n) => match schema.object_type_by_name(n) {
            Some(_) => schema.type_by_name(n),
            None => None,
        },
        None => None,
    }
}

/// The root type of an operation.
pub fn operation_root_type<'a>(schema: &'a schema::Document, op: &OperationDefinition) -> (r: Option<
    &'a TypeDefinition,
>)
    ensures
        r == operation_root(schema, op),
{
    match op {
        OperationDefinition::Query(_) | OperationDefinition::SelectionSet(_) => {
            let name = schema.query_type_name();
            root_type_exec(schema, Some(name.as_str()))
        },
        OperationDefinition::Mutation(_) => match schema.schema_definition() {
            Some(d) => match &d.mutation {
                Some(n) => root_type_exec(schema, Some(n.as_str())),
                None => None,
            },
            None => root_type_exec(schema, Some("Mutation")),
        },
        OperationDefinition::Subscription(_) => match schema.schema_definition() {
            Some(d) => match &d.subscription {
                Some(n) => root_type_exec(schema, Some(n.as_str())),
                None => None,
            },
            None => root_type_exec(schema, Some("Subscription")),
        },
    }
}

/// Appends the steps of visiting a definition.
pub fn visit_definition<'a>(
    schema: &'a schema::Document,
    def: &'a Definition,
    out: &mut Vec<VisitStep<'a>>,
)
    ensures
        final(out)@ == old(out)@ + definition_steps(schema, def),
{
    let ghost start = out@;
    match def {
        Definition::Fragment(frag) => {
            let TypeCondition::On(cond) = &frag.type_condition;
            let st = VisitState {
                parent_type: None,
                current_type: schema.type_by_name(cond.as_str()),
                type_literal: None,
                input_type: None,
                input_type_literal: None,
                field: None,
            };
            out.push(VisitStep { node: VisitNode::FragmentDefinition(frag), state: st });
            visit_directives(
                schema,
                frag.directives.as_slice(),
                DirectiveLocation::FragmentDefinition,
                st,
                out,
            );
            visit_selection_set(schema, &frag.selection_set, st, out);
            assert(out@ =~= start + definition_steps(schema, def));
        },
        Definition::Operation(op) => {
            let st = VisitState {
                parent_type: None,
                current_type: operation_root_type(schema, op),
                type_literal: None,
                input_type: None,
                input_type_literal: None,
                field: None,
            };
            let loc = match op {
                OperationDefinition::Mutation(_) => DirectiveLocation::Mutation,
                OperationDefinition::Subscription(_) => DirectiveLocation::Subscription,
                _ => DirectiveLocation::Query,
            };
            out.push(VisitStep { node: VisitNode::OperationDefinition(op), state: st });
            visit_directives(schema, op.directives(), loc, st, out);
            visit_variable_definitions(schema, op.variable_definitions(), st, out);
            visit_selection_set(schema, op.selection_set(), st, out);
            assert(out@ =~= start + definition_steps(schema, def));
        },
    }
}

/// The steps of a traversal of a whole document, in visiting order.
pub fn document_visit_steps<'a>(schema: &'a schema::Document, doc: &'a Document) -> (r: Vec<
    VisitStep<'a>,
>)
    ensures
        r@ == document_steps(schema, doc),
{
    let mut out: Vec<VisitStep<'a>> = Vec::new();
    let mut i: usize = 0;
    while i < doc.definitions.len()
        invariant
            i <= doc.definitions@.len(),
            out@ == document_steps_upto(schema, doc, i as int),
        decreases doc.definitions@.len() - i,
    {
        visit_definition(schema, &doc.definitions[i], &mut out);
        i = i + 1;
    }
    out
}


// ---------------------------------------------------------------------------
// The context of a traversal
// ---------------------------------------------------------------------------

/// The last fragment definition among the first `i` definitions named `name`.
pub open spec fn last_fragment_before<'a>(doc: &'a Document, name: Seq<char>, i: int) -> Option<
    &'a FragmentDefinition,
>
    decreases i,
{
    if i <= 0 || i > doc.definitions@.len() {
        None
    } else {
        match &doc.definitions@[i - 1] {
            Definition::Fragment(f) => if f.name@ == name {
                Some(f)
            } else {
                last_fragment_before(doc, name, i - 1)
            },
            _ => last_fragment_before(doc, name, i - 1),
        }
    }
}

/// The fragment that a name refers to: the last fragment definition so named,
/// as in a map from names to fragments filled in document order.
pub open spec fn known_fragment<'a>(doc: &'a Document, name: Seq<char>) -> Option<&'a FragmentDefinition> {
    last_fragment_before(doc, name, doc.definitions@.len() as int)
}

/// The last directive definition among the first `i` definitions named `name`.
pub open spec fn last_directive_before<'a>(schema: &'a schema::Document, name: Seq<char>, i: int) -> Option<
    &'a schema::DirectiveDefinition,
>
    decreases i,
{
    if i <= 0 || i > schema.definitions@.len() {
        None
    } else {
        match &schema.definitions@[i - 1] {
            schema::Definition::DirectiveDefinition(d) => if d.name@ == name {
                Some(d)
            } else {
                last_directive_before(schema, name, i - 1)
            },
            _ => last_directive_before(schema, name, i - 1),
        }
    }
}

/// The directive that a name refers to: the last directive definition so
/// named, as in a map from names to directives filled in document order.
pub open spec fn known_directive<'a>(schema: &'a schema::Document, name: Seq<char>) -> Option<
    &'a schema::DirectiveDefinition,
> {
    last_directive_before(schema, name, schema.definitions@.len() as int)
}

/// The fragment definitions among the first `i` definitions, in order.
pub open spec fn fragments_upto<'a>(doc: &'a Document, i: int) -> Seq<&'a FragmentDefinition>
    decreases i,
{
    if i <= 0 || i > doc.definitions@.len() {
        Seq::empty()
    } else {
        match &doc.definitions@[i - 1] {
            Definition::Fragment(f) => fragments_upto(doc, i - 1).push(f),
            _ => fragments_upto(doc, i - 1),
        }
    }
}

/// The directive definitions among the first `i` definitions of a schema, in order.
pub open spec fn directive_definitions_upto<'a>(schema: &'a schema::Document, i: int) -> Seq<
    &'a schema::DirectiveDefinition,
>
    decreases i,
{
    if i <= 0 || i > schema.definitions@.len() {
        Seq::empty()
    } else {
        match &schema.definitions@[i - 1] {
            schema::Definition::DirectiveDefinition(d) => directive_definitions_upto(
                schema,
                i - 1,
            ).push(d),
            _ => directive_definitions_upto(schema, i - 1),
        }
    }
}

/// The fragment that a name refers to in a document: the last fragment so named.
pub fn find_fragment<'a>(doc: &'a Document, name: &str) -> (r: Option<&'a FragmentDefinition>)
    ensures
        r == known_fragment(doc, name@),
{
    let mut i: usize = doc.definitions.len();
    while i > 0
        invariant
            i <= doc.definitions@.len(),
            known_fragment(doc, name@) == last_fragment_before(doc, name@, i as int),
        decreases i,
    {
        if let Definition::Fragment(f) = &doc.definitions[i - 1] {
            if crate::text::str_eq(f.name.as_str(), name) {
                assert(last_fragment_before(doc, name@, i as int) == Some(f));
                return Some(f);
            }
        }
        i = i - 1;
    }
    None
}

/// A fragment so named among the first `i` definitions makes the name known there.
pub proof fn defined_fragment_is_known(doc: &Document, name: Seq<char>, i: int, k: int)
    requires
        0 <= k < i <= doc.definitions@.len(),
        doc.definitions@[k] matches Definition::Fragment(f) && f.name@ == name,
    ensures
        last_fragment_before(doc, name, i) is Some,
    decreases i,
{
    if k < i - 1 {
        match &doc.definitions@[i - 1] {
            Definition::Fragment(f) => {
                if f.name@ != name {
                    defined_fragment_is_known(doc, name, i - 1, k);
                }
            },
            _ => {
                defined_fragment_is_known(doc, name, i - 1, k);
            },
        }
    }
}

/// A traversal context: the schema and the operation document, the fragments
/// and directives they define, and the stacks of the types that a traversal
/// enters and leaves.
pub struct OperationVisitorContext<'a> {
    pub schema: &'a schema::Document,
    pub operation: &'a Document,
    /// The fragment definitions of the operation document, in document order.
    pub known_fragments: Vec<&'a FragmentDefinition>,
    /// The directive definitions of the schema, in document order.
    pub directives: Vec<&'a schema::DirectiveDefinition>,
    pub type_stack: Vec<Option<&'a TypeDefinition>>,
    pub parent_type_stack: Vec<Option<&'a TypeDefinition>>,
    pub input_type_stack: Vec<Option<&'a TypeDefinition>>,
    pub type_literal_stack: Vec<Option<&'a Type>>,
    pub input_type_literal_stack: Vec<Option<&'a Type>>,
    pub field_stack: Vec<Option<&'a schema::Field>>,
}

/// A stack without its top; an empty stack stays empty.
pub open spec fn popped<T>(s: Seq<T>) -> Seq<T> {
    if s.len() == 0 {
        s
    } else {
        s.drop_last()
    }
}

/// The top of a stack, or `None` when it is empty.
pub open spec fn top<T>(s: Seq<Option<T>>) -> Option<T> {
    if s.len() == 0 {
        None
    } else {
        s.last()
    }
}

/// The top of a stack, or `None` when it is empty.
fn stack_top<T: Copy>(s: &Vec<Option<T>>) -> (r: Option<T>)
    ensures
        r == top(s@),
{
    if s.len() == 0 {
        None
    } else {
        s[s.len() - 1]
    }
}

impl<'a> OperationVisitorContext<'a> {
    /// The type stack (for each entered node, its type when known).
    pub open spec fn types(&self) -> Seq<Option<&'a TypeDefinition>> {
        self.type_stack@
    }

    pub open spec fn parent_types(&self) -> Seq<Option<&'a TypeDefinition>> {
        self.parent_type_stack@
    }

    pub open spec fn input_types(&self) -> Seq<Option<&'a TypeDefinition>> {
        self.input_type_stack@
    }

    pub open spec fn type_literals(&self) -> Seq<Option<&'a Type>> {
        self.type_literal_stack@
    }

    pub open spec fn input_type_literals(&self) -> Seq<Option<&'a Type>> {
        self.input_type_literal_stack@
    }

    pub open spec fn fields(&self) -> Seq<Option<&'a schema::Field>> {
        self.field_stack@
    }

    /// A context for visiting `operation` against `schema`, with empty stacks.
    pub fn new(operation: &'a Document, schema: &'a schema::Document) -> (r: Self)
        ensures
            r.schema == schema,
            r.operation == operation,
            r.known_fragments@ == fragments_upto(operation, operation.definitions@.len() as int),
            r.directives@ == directive_definitions_upto(schema, schema.definitions@.len() as int),
            r.types().len() == 0,
            r.parent_types().len() == 0,
            r.input_types().len() == 0,
            r.type_literals().len() == 0,
            r.input_type_literals().len() == 0,
            r.fields().len() == 0,
    {
        let mut known_fragments: Vec<&'a FragmentDefinition> = Vec::new();
        let mut i: usize = 0;
        while i < operation.definitions.len()
            invariant
                i <= operation.definitions@.len(),
                known_fragments@ == fragments_upto(operation, i as int),
            decreases operation.definitions@.len() - i,
        {
            if let Definition::Fragment(f) = &operation.definitions[i] {
                known_fragments.push(f);
            }
            i = i + 1;
        }
        let mut directives: Vec<&'a schema::DirectiveDefinition> = Vec::new();
        let mut j: usize = 0;
        while j < schema.definitions.len()
            invariant
                j <= schema.definitions@.len(),
                directives@ == directive_definitions_upto(schema, j as int),
            decreases schema.definitions@.len() - j,
        {
            if let schema::Definition::DirectiveDefinition(d) = &schema.definitions[j] {
                directives.push(d);
            }
            j = j + 1;
        }
        OperationVisitorContext {
            schema,
            operation,
            known_fragments,
            directives,
            type_stack: Vec::new(),
            parent_type_stack: Vec::new(),
            input_type_stack: Vec::new(),
            type_literal_stack: Vec::new(),
            input_type_literal_stack: Vec::new(),
            field_stack: Vec::new(),
        }
    }

    /// The fragment that a name refers to: the last fragment so named.
    pub fn fragment_by_name(&self, name: &str) -> (r: Option<&'a FragmentDefinition>)
        ensures
            r == known_fragment(self.operation, name@),
    {
        find_fragment(self.operation, name)
    }

    /// The directive that a name refers to: the last directive definition so named.
    pub fn directive_by_name(&self, name: &str) -> (r: Option<&'a schema::DirectiveDefinition>)
        ensures
            r == known_directive(self.schema, name@),
    {
        let schema = self.schema;
        let mut i: usize = schema.definitions.len();
        while i > 0
            invariant
                i <= schema.definitions@.len(),
                schema == self.schema,
                known_directive(schema, name@) == last_directive_before(schema, name@, i as int),
            decreases i,
        {
            if let schema::Definition::DirectiveDefinition(d) = &schema.definitions[i - 1] {
                if crate::text::str_eq(d.name.as_str(), name) {
                    assert(last_directive_before(schema, name@, i as int) == Some(d));
                    return Some(d);
                }
            }
            i = i - 1;
        }
        None
    }

    /// Enters a node of type `t`: pushes the definition of its named type, and `t`.
    pub fn enter_type(&mut self, t: Option<&'a Type>)
        ensures
            final(self).types() == old(self).types().push(match t {
                Some(t) => type_named(old(self).schema, inner_name(*t)),
                None => None,
            }),
            final(self).type_literals() == old(self).type_literals().push(t),
            final(self).schema == old(self).schema,
            final(self).operation == old(self).operation,
            final(self).parent_types() == old(self).parent_types(),
            final(self).input_types() == old(self).input_types(),
            final(self).input_type_literals() == old(self).input_type_literals(),
            final(self).fields() == old(self).fields(),
    {
        let d = match t {
            Some(t) => {
                let name = t.inner_type();
                self.schema.type_by_name(name.as_str())
            },
            None => None,
        };
        self.type_stack.push(d);
        self.type_literal_stack.push(t);
    }

    /// Leaves the node entered last with `enter_type`.
    pub fn leave_type(&mut self)
        ensures
            final(self).types() == popped(old(self).types()),
            final(self).type_literals() == popped(old(self).type_literals()),
            final(self).schema == old(self).schema,
            final(self).operation == old(self).operation,
            final(self).parent_types() == old(self).parent_types(),
            final(self).input_types() == old(self).input_types(),
            final(self).input_type_literals() == old(self).input_type_literals(),
            final(self).fields() == old(self).fields(),
    {
        if self.type_stack.len() > 0 {
            self.type_stack.pop();
        }
        if self.type_literal_stack.len() > 0 {
            self.type_literal_stack.pop();
        }
    }



    /// Enters a selection set: pushes the current type as its parent type.
    pub fn enter_parent_type(&mut self)
        ensures
            final(self).parent_types() == old(self).parent_types().push(top(old(self).types())),
            final(self).schema == old(self).schema,
            final(self).operation == old(self).operation,
            final(self).types() == old(self).types(),
            final(self).type_literals() == old(self).type_literals(),
            final(self).input_types() == old(self).input_types(),
            final(self).input_type_literals() == old(self).input_type_literals(),
            final(self).fields() == old(self).fields(),
    {
        let t = stack_top(&self.type_stack);
        self.parent_type_stack.push(t);
    }

    /// Leaves the selection set entered last with `enter_parent_type`.
    pub fn leave_parent_type(&mut self)
        ensures
            final(self).parent_types() == popped(old(self).parent_types()),
            final(self).schema == old(self).schema,
            final(self).operation == old(self).operation,
            final(self).types() == old(self).types(),
            final(self).type_literals() == old(self).type_literals(),
            final(self).input_types() == old(self).input_types(),
            final(self).input_type_literals() == old(self).input_type_literals(),
            final(self).fields() == old(self).fields(),
    {
        if self.parent_type_stack.len() > 0 {
            self.parent_type_stack.pop();
        }
    }

    /// Enters a field whose definition is `f`, when known.
    pub fn enter_field(&mut self, f: Option<&'a schema::Field>)
        ensures
            final(self).fields() == old(self).fields().push(f),
            final(self).schema == old(self).schema,
            final(self).operation == old(self).operation,
            final(self).types() == old(self).types(),
            final(self).type_literals() == old(self).type_literals(),
            final(self).parent_types() == old(self).parent_types(),
            final(self).input_types() == old(self).input_types(),
            final(self).input_type_literals() == old(self).input_type_literals(),
    {
        self.field_stack.push(f);
    }

    /// Leaves the field entered last with `enter_field`.
    pub fn leave_field(&mut self)
        ensures
            final(self).fields() == popped(old(self).fields()),
            final(self).schema == old(self).schema,
            final(self).operation == old(self).operation,
            final(self).types() == old(self).types(),
            final(self).type_literals() == old(self).type_literals(),
            final(self).parent_types() == old(self).parent_types(),
            final(self).input_types() == old(self).input_types(),
            final(self).input_type_literals() == old(self).input_type_literals(),
    {
        if self.field_stack.len() > 0 {
            self.field_stack.pop();
        }
    }

    /// Enters an input value expected to be of type `t`: pushes the definition
    /// of its named type, and `t`.
    pub fn enter_input_type(&mut self, t: Option<&'a Type>)
        ensures
            final(self).input_types() == old(self).input_types().push(match t {
                Some(t) => type_named(old(self).schema, inner_name(*t)),
                None => None,
            }),
            final(self).input_type_literals() == old(self).input_type_literals().push(t),
            final(self).schema == old(self).schema,
            final(self).operation == old(self).operation,
            final(self).types() == old(self).types(),
            final(self).type_literals() == old(self).type_literals(),
            final(self).parent_types() == old(self).parent_types(),
            final(self).fields() == old(self).fields(),
    {
        let d = match t {
            Some(t) => {
                let name = t.inner_type();
                self.schema.type_by_name(name.as_str())
            },
            None => None,
        };
        self.input_type_stack.push(d);
        self.input_type_literal_stack.push(t);
    }

    /// Leaves the input value entered last with `enter_input_type`.
    pub fn leave_input_type(&mut self)
        ensures
            final(self).input_types() == popped(old(self).input_types()),
            final(self).input_type_literals() == popped(old(self).input_type_literals()),
            final(self).schema == old(self).schema,
            final(self).operation == old(self).operation,
            final(self).types() == old(self).types(),
            final(self).type_literals() == old(self).type_literals(),
            final(self).parent_types() == old(self).parent_types(),
            final(self).fields() == old(self).fields(),
    {
        if self.input_type_stack.len() > 0 {
            self.input_type_stack.pop();
        }
        if self.input_type_literal_stack.len() > 0 {
            self.input_type_literal_stack.pop();
        }
    }

    /// The type of the node entered last, when known.
    pub fn current_type(&self) -> (r: Option<&'a TypeDefinition>)
        ensures
            r == top(self.types()),
    {
        stack_top(&self.type_stack)
    }

    /// The type expected for the input value entered last, when known.
    pub fn current_input_type(&self) -> (r: Option<&'a TypeDefinition>)
        ensures
            r == top(self.input_types()),
    {
        stack_top(&self.input_type_stack)
    }

    /// The type of the selection set entered last, when known.
    pub fn current_parent_type(&self) -> (r: Option<&'a TypeDefinition>)
        ensures
            r == top(self.parent_types()),
    {
        stack_top(&self.parent_type_stack)
    }

    /// The type reference of the node entered last, when known.
    pub fn current_type_literal(&self) -> (r: Option<&'a Type>)
        ensures
            r == top(self.type_literals()),
    {
        stack_top(&self.type_literal_stack)
    }

    /// The type reference expected for the input value entered last, when known.
    pub fn current_input_type_literal(&self) -> (r: Option<&'a Type>)
        ensures
            r == top(self.input_type_literals()),
    {
        stack_top(&self.input_type_literal_stack)
    }

    /// The definition of the field entered last, when known.
    pub fn current_field(&self) -> (r: Option<&'a schema::Field>)
        ensures
            r == top(self.fields()),
    {
        stack_top(&self.field_stack)
    }

    /// Whether `c` has the same schema, document and stacks as `self`, but
    /// for the type stacks.
    pub open spec fn same_but_types(self, c: Self) -> bool {
        &&& c.schema == self.schema
        &&& c.operation == self.operation
        &&& c.parent_types() == self.parent_types()
        &&& c.input_types() == self.input_types()
        &&& c.input_type_literals() == self.input_type_literals()
        &&& c.fields() == self.fields()
    }

    /// Whether `c` has the same schema, document and stacks as `self`, but
    /// for the parent type stack.
    pub open spec fn same_but_parent_types(self, c: Self) -> bool {
        &&& c.schema == self.schema
        &&& c.operation == self.operation
        &&& c.types() == self.types()
        &&& c.type_literals() == self.type_literals()
        &&& c.input_types() == self.input_types()
        &&& c.input_type_literals() == self.input_type_literals()
        &&& c.fields() == self.fields()
    }

    /// Whether `c` has the same schema, document and stacks as `self`, but
    /// for the field stack.
    pub open spec fn same_but_fields(self, c: Self) -> bool {
        &&& c.schema == self.schema
        &&& c.operation == self.operation
        &&& c.types() == self.types()
        &&& c.type_literals() == self.type_literals()
        &&& c.parent_types() == self.parent_types()
        &&& c.input_types() == self.input_types()
        &&& c.input_type_literals() == self.input_type_literals()
    }

    /// Whether `c` has the same schema, document and stacks as `self`, but
    /// for the input type stacks.
    pub open spec fn same_but_input_types(self, c: Self) -> bool {
        &&& c.schema == self.schema
        &&& c.operation == self.operation
        &&& c.types() == self.types()
        &&& c.type_literals() == self.type_literals()
        &&& c.parent_types() == self.parent_types()
        &&& c.fields() == self.fields()
    }

    /// Runs `func` on the context with the node type `t` entered, and leaves
    /// that node on the context that `func` returns.
    pub fn with_type<F: FnOnce(Self) -> Self>(self, t: Option<&'a Type>, func: F) -> (r: Self)
        requires
            forall|c: Self| call_requires(func, (c,)),
        ensures
            exists|c_in: Self, out: Self|
                {
                    &&& call_ensures(func, (c_in,), out)
                    &&& enters(self, ContextEntry::Type(t), c_in)
                    &&& leaves(out, ContextEntry::Type(t), r)
                },
    {
        let ghost base = self;
        let mut c = self;
        c.enter_type(t);
        let ghost c_in = c;
        let mut out = func(c);
        let ghost out0 = out;
        out.leave_type();
        assert(call_ensures(func, (c_in,), out0));
        out
    }

    /// Runs `func` on the context with a selection set of the current type
    /// entered, and leaves it on the context that `func` returns.
    pub fn with_parent_type<F: FnOnce(Self) -> Self>(self, func: F) -> (r: Self)
        requires
            forall|c: Self| call_requires(func, (c,)),
        ensures
            exists|c_in: Self, out: Self|
                {
                    &&& call_ensures(func, (c_in,), out)
                    &&& enters(self, ContextEntry::ParentType, c_in)
                    &&& leaves(out, ContextEntry::ParentType, r)
                },
    {
        let mut c = self;
        c.enter_parent_type();
        let ghost c_in = c;
        let mut out = func(c);
        let ghost out0 = out;
        out.leave_parent_type();
        assert(call_ensures(func, (c_in,), out0));
        out
    }

    /// Runs `func` on the context with the field definition `f` entered, and
    /// leaves it on the context that `func` returns.
    pub fn with_field<F: FnOnce(Self) -> Self>(self, f: Option<&'a schema::Field>, func: F) -> (r: Self)
        requires
            forall|c: Self| call_requires(func, (c,)),
        ensures
            exists|c_in: Self, out: Self|
                {
                    &&& call_ensures(func, (c_in,), out)
                    &&& enters(self, ContextEntry::Field(f), c_in)
                    &&& leaves(out, ContextEntry::Field(f), r)
                },
    {
        let mut c = self;
        c.enter_field(f);
        let ghost c_in = c;
        let mut out = func(c);
        let ghost out0 = out;
        out.leave_field();
        assert(call_ensures(func, (c_in,), out0));
        out
    }

    /// Runs `func` on the context with an input value of type `t` entered,
    /// and leaves it on the context that `func` returns.
    pub fn with_input_type<F: FnOnce(Self) -> Self>(self, t: Option<&'a Type>, func: F) -> (r: Self)
        requires
            forall|c: Self| call_requires(func, (c,)),
        ensures
            exists|c_in: Self, out: Self|
                {
                    &&& call_ensures(func, (c_in,), out)
                    &&& enters(self, ContextEntry::InputType(t), c_in)
                    &&& leaves(out, ContextEntry::InputType(t), r)
                },
    {
        let mut c = self;
        c.enter_input_type(t);
        let ghost c_in = c;
        let mut out = func(c);
        let ghost out0 = out;
        out.leave_input_type();
        assert(call_ensures(func, (c_in,), out0));
        out
    }
} // impl

} // verus!

verus! {

/// What a `with_*` call of the context enters.
#[derive(Clone, Copy)]
pub enum ContextEntry<'a> {
    /// `with_type`: a node of the given type.
    Type(Option<&'a Type>),
    /// `with_parent_type`: a selection set of the current type.
    ParentType,
    /// `with_field`: a field with the given definition.
    Field(Option<&'a schema::Field>),
    /// `with_input_type`: an input value of the given type.
    InputType(Option<&'a Type>),
}

/// The definition of the named type at the core of `t`, when `t` is known.
pub open spec fn type_of<'a>(schema: &'a schema::Document, t: Option<&'a Type>) -> Option<&'a TypeDefinition> {
    match t {
        Some(t) => type_named(schema, inner_name(*t)),
        None => None,
    }
}

/// Whether `c_in` is the context that a `with_*` call entering `e` on `c`
/// hands to its closure: one more entry on the stack of its kind, the rest
/// as in `c`.
pub open spec fn enters<'a>(c: OperationVisitorContext<'a>, e: ContextEntry<'a>, c_in: OperationVisitorContext<'a>) -> bool {
    match e {
        ContextEntry::Type(t) => {
            &&& c.same_but_types(c_in)
            &&& c_in.types() == c.types().push(type_of(c.schema, t))
            &&& c_in.type_literals() == c.type_literals().push(t)
        },
        ContextEntry::ParentType => {
            &&& c.same_but_parent_types(c_in)
            &&& c_in.parent_types() == c.parent_types().push(top(c.types()))
        },
        ContextEntry::Field(f) => {
            &&& c.same_but_fields(c_in)
            &&& c_in.fields() == c.fields().push(f)
        },
        ContextEntry::InputType(t) => {
            &&& c.same_but_input_types(c_in)
            &&& c_in.input_types() == c.input_types().push(type_of(c.schema, t))
            &&& c_in.input_type_literals() == c.input_type_literals().push(t)
        },
    }
}

/// Whether `r` is what a `with_*` call entering `e` returns when its closure
/// returned `out`: the top of the stack of its kind taken off, the rest as in
/// `out`.
pub open spec fn leaves<'a>(out: OperationVisitorContext<'a>, e: ContextEntry<'a>, r: OperationVisitorContext<'a>) -> bool {
    match e {
        ContextEntry::Type(_) => {
            &&& out.same_but_types(r)
            &&& r.types() == popped(out.types())
            &&& r.type_literals() == popped(out.type_literals())
        },
        ContextEntry::ParentType => {
            &&& out.same_but_parent_types(r)
            &&& r.parent_types() == popped(out.parent_types())
        },
        ContextEntry::Field(_) => {
            &&& out.same_but_fields(r)
            &&& r.fields() == popped(out.fields())
        },
        ContextEntry::InputType(_) => {
            &&& out.same_but_input_types(r)
            &&& r.input_types() == popped(out.input_types())
            &&& r.input_type_literals() == popped(out.input_type_literals())
        },
    }
}

/// Whether two contexts have the same schema, document and stacks.
pub open spec fn same_stacks<'a>(a: OperationVisitorContext<'a>, b: OperationVisitorContext<'a>) -> bool {
    &&& a.schema == b.schema
    &&& a.operation == b.operation
    &&& a.types() == b.types()
    &&& a.type_literals() == b.type_literals()
    &&& a.parent_types() == b.parent_types()
    &&& a.input_types() == b.input_types()
    &&& a.input_type_literals() == b.input_type_literals()
    &&& a.fields() == b.fields()
}

/// Whether a context's stacks are all empty, as `new` makes them.
pub open spec fn fresh<'a>(c: OperationVisitorContext<'a>) -> bool {
    &&& c.types().len() == 0
    &&& c.type_literals().len() == 0
    &&& c.parent_types().len() == 0
    &&& c.input_types().len() == 0
    &&& c.input_type_literals().len() == 0
    &&& c.fields().len() == 0
}

/// Whether `cs` are the contexts that nested `with_*` calls hand their
/// closures, each call made on the context before it: `cs[i + 1]` is what
/// entering `es[i]` on `cs[i]` gives.
pub open spec fn nested_entries<'a>(cs: Seq<OperationVisitorContext<'a>>, es: Seq<ContextEntry<'a>>) -> bool {
    &&& cs.len() == es.len() + 1
    &&& forall|i: int| 0 <= i < es.len() ==> #[trigger] enters(cs[i], es[i], cs[i + 1])
}

/// The type entered by the innermost `with_type` among `es`, `None` if none.
pub open spec fn innermost_type<'a>(schema: &'a schema::Document, es: Seq<ContextEntry<'a>>) -> Option<&'a TypeDefinition>
    decreases es.len(),
{
    if es.len() == 0 {
        None
    } else {
        match es.last() {
            ContextEntry::Type(t) => type_of(schema, t),
            _ => innermost_type(schema, es.drop_last()),
        }
    }
}

/// The type reference entered by the innermost `with_type` among `es`.
pub open spec fn innermost_type_literal<'a>(es: Seq<ContextEntry<'a>>) -> Option<&'a Type>
    decreases es.len(),
{
    if es.len() == 0 {
        None
    } else {
        match es.last() {
            ContextEntry::Type(t) => t,
            _ => innermost_type_literal(es.drop_last()),
        }
    }
}

/// The type captured by the innermost `with_parent_type` among `es`: the
/// innermost type entered before it.
pub open spec fn innermost_parent_type<'a>(schema: &'a schema::Document, es: Seq<ContextEntry<'a>>) -> Option<
    &'a TypeDefinition,
>
    decreases es.len(),
{
    if es.len() == 0 {
        None
    } else {
        match es.last() {
            ContextEntry::ParentType => innermost_type(schema, es.drop_last()),
            _ => innermost_parent_type(schema, es.drop_last()),
        }
    }
}

/// The field entered by the innermost `with_field` among `es`.
pub open spec fn innermost_field<'a>(es: Seq<ContextEntry<'a>>) -> Option<&'a schema::Field>
    decreases es.len(),
{
    if es.len() == 0 {
        None
    } else {
        match es.last() {
            ContextEntry::Field(f) => f,
            _ => innermost_field(es.drop_last()),
        }
    }
}

/// The input type entered by the innermost `with_input_type` among `es`.
pub open spec fn innermost_input_type<'a>(schema: &'a schema::Document, es: Seq<ContextEntry<'a>>) -> Option<
    &'a TypeDefinition,
>
    decreases es.len(),
{
    if es.len() == 0 {
        None
    } else {
        match es.last() {
            ContextEntry::InputType(t) => type_of(schema, t),
            _ => innermost_input_type(schema, es.drop_last()),
        }
    }
}

/// The input type reference entered by the innermost `with_input_type` among `es`.
pub open spec fn innermost_input_type_literal<'a>(es: Seq<ContextEntry<'a>>) -> Option<&'a Type>
    decreases es.len(),
{
    if es.len() == 0 {
        None
    } else {
        match es.last() {
            ContextEntry::InputType(t) => t,
            _ => innermost_input_type_literal(es.drop_last()),
        }
    }
}

/// Inside nested `with_*` calls made on a context fresh from `new`, the top
/// of each stack, which its `current_*` function returns, is what the
/// innermost call of its kind entered, and `None` where no call of its kind
/// is active; the schema and document stay those of the fresh context.
pub proof fn current_is_innermost<'a>(cs: Seq<OperationVisitorContext<'a>>, es: Seq<ContextEntry<'a>>)
    requires
        nested_entries(cs, es),
        fresh(cs[0]),
    ensures
        cs.last().schema == cs[0].schema,
        cs.last().operation == cs[0].operation,
        top(cs.last().types()) == innermost_type(cs[0].schema, es),
        top(cs.last().type_literals()) == innermost_type_literal(es),
        top(cs.last().parent_types()) == innermost_parent_type(cs[0].schema, es),
        top(cs.last().fields()) == innermost_field(es),
        top(cs.last().input_types()) == innermost_input_type(cs[0].schema, es),
        top(cs.last().input_type_literals()) == innermost_input_type_literal(es),
    decreases es.len(),
{
    if es.len() > 0 {
        let n = es.len() - 1;
        let cs0 = cs.drop_last();
        let es0 = es.drop_last();
        assert forall|i: int| 0 <= i < es0.len() implies #[trigger] enters(cs0[i], es0[i], cs0[i + 1]) by {
            assert(enters(cs[i], es[i], cs[i + 1]));
        }
        current_is_innermost(cs0, es0);
        assert(cs0.last() == cs[n]);
        assert(enters(cs[n], es[n], cs[n + 1]));
        assert(cs.last() == cs[n + 1]);
        assert(es.last() == es[n]);
    }
}

/// A `with_*` call whose closure hands back the context that it was given,
/// stacks and all, returns the context that it was called on.
pub proof fn with_restores<'a>(
    c: OperationVisitorContext<'a>,
    e: ContextEntry<'a>,
    c_in: OperationVisitorContext<'a>,
    out: OperationVisitorContext<'a>,
    r: OperationVisitorContext<'a>,
)
    requires
        enters(c, e, c_in),
        same_stacks(c_in, out),
        leaves(out, e, r),
    ensures
        same_stacks(c, r),
{
    match e {
        ContextEntry::Type(_) => {
            assert(r.types() =~= c.types());
            assert(r.type_literals() =~= c.type_literals());
        },
        ContextEntry::ParentType => {
            assert(r.parent_types() =~= c.parent_types());
        },
        ContextEntry::Field(_) => {
            assert(r.fields() =~= c.fields());
        },
        ContextEntry::InputType(_) => {
            assert(r.input_types() =~= c.input_types());
            assert(r.input_type_literals() =~= c.input_type_literals());
        },
    }
}

} // verus!


verus! {

/// A visitor of operation documents: each hook is called when the traversal
/// enters or leaves a node of its kind, with what the traversal knows there.
/// What a hook does to the visitor and the user context is
/// `after_operation_event` of its event; a hook that a visitor does not
/// define hands its event to `on_operation_event`.
pub trait OperationVisitor<'a, UserContext>: Sized {
    /// The visitor and the user context after the hook of `event` has run.
    /// Unless a visitor says otherwise, its hooks change nothing.
    open spec fn after_operation_event(&self, user: UserContext, event: OperationEvent<'a>) -> (Self, UserContext) {
        (*self, user)
    }

    /// What the hooks that the visitor does not define do with their event.
    fn on_operation_event(&mut self, event: OperationEvent<'a>, user: &mut UserContext)
        ensures
            (*final(self), *final(user)) == old(self).after_operation_event(*old(user), event),
    ;

    fn enter_document(&mut self, _ctx: &OperationVisitorContext<'a>, _user: &mut UserContext, _document: &'a Document)
        ensures
            (*final(self), *final(_user)) == old(self).after_operation_event(
                *old(_user),
                OperationEvent::EnterDocument(_document),
            ),
    {
        self.on_operation_event(OperationEvent::EnterDocument(_document), _user)
    }

    fn leave_document(&mut self, _ctx: &OperationVisitorContext<'a>, _user: &mut UserContext, _document: &'a Document)
        ensures
            (*final(self), *final(_user)) == old(self).after_operation_event(
                *old(_user),
                OperationEvent::LeaveDocument(_document),
            ),
    {
        self.on_operation_event(OperationEvent::LeaveDocument(_document), _user)
    }

    fn enter_operation_definition(&mut self, _state: &VisitState<'a>, _user: &mut UserContext, _node: &'a OperationDefinition)
        ensures
            (*final(self), *final(_user)) == old(self).after_operation_event(
                *old(_user),
                OperationEvent::Enter(step(VisitNode::OperationDefinition(_node), *_state)),
            ),
    {
        self.on_operation_event(OperationEvent::Enter(VisitStep { node: VisitNode::OperationDefinition(_node), state: *_state }), _user)
    }

    fn leave_operation_definition(&mut self, _state: &VisitState<'a>, _user: &mut UserContext, _node: &'a OperationDefinition)
        ensures
            (*final(self), *final(_user)) == old(self).after_operation_event(
                *old(_user),
                OperationEvent::Leave(step(VisitNode::OperationDefinition(_node), *_state)),
            ),
    {
        self.on_operation_event(OperationEvent::Leave(VisitStep { node: VisitNode::OperationDefinition(_node), state: *_state }), _user)
    }

    fn enter_fragment_definition(&mut self, _state: &VisitState<'a>, _user: &mut UserContext, _node: &'a FragmentDefinition)
        ensures
            (*final(self), *final(_user)) == old(self).after_operation_event(
                *old(_user),
                OperationEvent::Enter(step(VisitNode::FragmentDefinition(_node), *_state)),
            ),
    {
        self.on_operation_event(OperationEvent::Enter(VisitStep { node: VisitNode::FragmentDefinition(_node), state: *_state }), _user)
    }

    fn leave_fragment_definition(&mut self, _state: &VisitState<'a>, _user: &mut UserContext, _node: &'a FragmentDefinition)
        ensures
            (*final(self), *final(_user)) == old(self).after_operation_event(
                *old(_user),
                OperationEvent::Leave(step(VisitNode::FragmentDefinition(_node), *_state)),
            ),
    {
        self.on_operation_event(OperationEvent::Leave(VisitStep { node: VisitNode::FragmentDefinition(_node), state: *_state }), _user)
    }

    fn enter_variable_definition(&mut self, _state: &VisitState<'a>, _user: &mut UserContext, _node: &'a VariableDefinition)
        ensures
            (*final(self), *final(_user)) == old(self).after_operation_event(
                *old(_user),
                OperationEvent::Enter(step(VisitNode::VariableDefinition(_node), *_state)),
            ),
    {
        self.on_operation_event(OperationEvent::Enter(VisitStep { node: VisitNode::VariableDefinition(_node), state: *_state }), _user)
    }

    fn leave_variable_definition(&mut self, _state: &VisitState<'a>, _user: &mut UserContext, _node: &'a VariableDefinition)
        ensures
            (*final(self), *final(_user)) == old(self).after_operation_event(
                *old(_user),
                OperationEvent::Leave(step(VisitNode::VariableDefinition(_node), *_state)),
            ),
    {
        self.on_operation_event(OperationEvent::Leave(VisitStep { node: VisitNode::VariableDefinition(_node), state: *_state }), _user)
    }

    fn enter_directive(&mut self, _state: &VisitState<'a>, _user: &mut UserContext, _node: &'a Directive, _location: DirectiveLocation)
        ensures
            (*final(self), *final(_user)) == old(self).after_operation_event(
                *old(_user),
                OperationEvent::Enter(step(VisitNode::Directive(_node, _location), *_state)),
            ),
    {
        self.on_operation_event(OperationEvent::Enter(VisitStep { node: VisitNode::Directive(_node, _location), state: *_state }), _user)
    }

    fn leave_directive(&mut self, _state: &VisitState<'a>, _user: &mut UserContext, _node: &'a Directive, _location: DirectiveLocation)
        ensures
            (*final(self), *final(_user)) == old(self).after_operation_event(
                *old(_user),
                OperationEvent::Leave(step(VisitNode::Directive(_node, _location), *_state)),
            ),
    {
        self.on_operation_event(OperationEvent::Leave(VisitStep { node: VisitNode::Directive(_node, _location), state: *_state }), _user)
    }

    fn enter_argument(&mut self, _state: &VisitState<'a>, _user: &mut UserContext, _node: &'a (String, Value))
        ensures
            (*final(self), *final(_user)) == old(self).after_operation_event(
                *old(_user),
                OperationEvent::Enter(step(VisitNode::Argument(_node), *_state)),
            ),
    {
        self.on_operation_event(OperationEvent::Enter(VisitStep { node: VisitNode::Argument(_node), state: *_state }), _user)
    }

    fn leave_argument(&mut self, _state: &VisitState<'a>, _user: &mut UserContext, _node: &'a (String, Value))
        ensures
            (*final(self), *final(_user)) == old(self).after_operation_event(
                *old(_user),
                OperationEvent::Leave(step(VisitNode::Argument(_node), *_state)),
            ),
    {
        self.on_operation_event(OperationEvent::Leave(VisitStep { node: VisitNode::Argument(_node), state: *_state }), _user)
    }

    fn enter_selection_set(&mut self, _state: &VisitState<'a>, _user: &mut UserContext, _node: &'a SelectionSet)
        ensures
            (*final(self), *final(_user)) == old(self).after_operation_event(
                *old(_user),
                OperationEvent::Enter(step(VisitNode::SelectionSet(_node), *_state)),
            ),
    {
        self.on_operation_event(OperationEvent::Enter(VisitStep { node: VisitNode::SelectionSet(_node), state: *_state }), _user)
    }

    fn leave_selection_set(&mut self, _state: &VisitState<'a>, _user: &mut UserContext, _node: &'a SelectionSet)
        ensures
            (*final(self), *final(_user)) == old(self).after_operation_event(
                *old(_user),
                OperationEvent::Leave(step(VisitNode::SelectionSet(_node), *_state)),
            ),
    {
        self.on_operation_event(OperationEvent::Leave(VisitStep { node: VisitNode::SelectionSet(_node), state: *_state }), _user)
    }

    fn enter_field(&mut self, _state: &VisitState<'a>, _user: &mut UserContext, _node: &'a Field)
        ensures
            (*final(self), *final(_user)) == old(self).after_operation_event(
                *old(_user),
                OperationEvent::Enter(step(VisitNode::Field(_node), *_state)),
            ),
    {
        self.on_operation_event(OperationEvent::Enter(VisitStep { node: VisitNode::Field(_node), state: *_state }), _user)
    }

    fn leave_field(&mut self, _state: &VisitState<'a>, _user: &mut UserContext, _node: &'a Field)
        ensures
            (*final(self), *final(_user)) == old(self).after_operation_event(
                *old(_user),
                OperationEvent::Leave(step(VisitNode::Field(_node), *_state)),
            ),
    {
        self.on_operation_event(OperationEvent::Leave(VisitStep { node: VisitNode::Field(_node), state: *_state }), _user)
    }

    fn enter_fragment_spread(&mut self, _state: &VisitState<'a>, _user: &mut UserContext, _node: &'a FragmentSpread)
        ensures
            (*final(self), *final(_user)) == old(self).after_operation_event(
                *old(_user),
                OperationEvent::Enter(step(VisitNode::FragmentSpread(_node), *_state)),
            ),
    {
        self.on_operation_event(OperationEvent::Enter(VisitStep { node: VisitNode::FragmentSpread(_node), state: *_state }), _user)
    }

    fn leave_fragment_spread(&mut self, _state: &VisitState<'a>, _user: &mut UserContext, _node: &'a FragmentSpread)
        ensures
            (*final(self), *final(_user)) == old(self).after_operation_event(
                *old(_user),
                OperationEvent::Leave(step(VisitNode::FragmentSpread(_node), *_state)),
            ),
    {
        self.on_operation_event(OperationEvent::Leave(VisitStep { node: VisitNode::FragmentSpread(_node), state: *_state }), _user)
    }

    fn enter_inline_fragment(&mut self, _state: &VisitState<'a>, _user: &mut UserContext, _node: &'a InlineFragment)
        ensures
            (*final(self), *final(_user)) == old(self).after_operation_event(
                *old(_user),
                OperationEvent::Enter(step(VisitNode::InlineFragment(_node), *_state)),
            ),
    {
        self.on_operation_event(OperationEvent::Enter(VisitStep { node: VisitNode::InlineFragment(_node), state: *_state }), _user)
    }

    fn leave_inline_fragment(&mut self, _state: &VisitState<'a>, _user: &mut UserContext, _node: &'a InlineFragment)
        ensures
            (*final(self), *final(_user)) == old(self).after_operation_event(
                *old(_user),
                OperationEvent::Leave(step(VisitNode::InlineFragment(_node), *_state)),
            ),
    {
        self.on_operation_event(OperationEvent::Leave(VisitStep { node: VisitNode::InlineFragment(_node), state: *_state }), _user)
    }

    fn enter_null_value(&mut self, _state: &VisitState<'a>, _user: &mut UserContext)
        ensures
            (*final(self), *final(_user)) == old(self).after_operation_event(
                *old(_user),
                OperationEvent::Enter(step(VisitNode::NullValue, *_state)),
            ),
    {
        self.on_operation_event(OperationEvent::Enter(VisitStep { node: VisitNode::NullValue, state: *_state }), _user)
    }

    fn leave_null_value(&mut self, _state: &VisitState<'a>, _user: &mut UserContext)
        ensures
            (*final(self), *final(_user)) == old(self).after_operation_event(
                *old(_user),
                OperationEvent::Leave(step(VisitNode::NullValue, *_state)),
            ),
    {
        self.on_operation_event(OperationEvent::Leave(VisitStep { node: VisitNode::NullValue, state: *_state }), _user)
    }

    fn enter_scalar_value(&mut self, _state: &VisitState<'a>, _user: &mut UserContext, _node: &'a Value)
        ensures
            (*final(self), *final(_user)) == old(self).after_operation_event(
                *old(_user),
                OperationEvent::Enter(step(VisitNode::ScalarValue(_node), *_state)),
            ),
    {
        self.on_operation_event(OperationEvent::Enter(VisitStep { node: VisitNode::ScalarValue(_node), state: *_state }), _user)
    }

    fn leave_scalar_value(&mut self, _state: &VisitState<'a>, _user: &mut UserContext, _node: &'a Value)
        ensures
            (*final(self), *final(_user)) == old(self).after_operation_event(
                *old(_user),
                OperationEvent::Leave(step(VisitNode::ScalarValue(_node), *_state)),
            ),
    {
        self.on_operation_event(OperationEvent::Leave(VisitStep { node: VisitNode::ScalarValue(_node), state: *_state }), _user)
    }

    fn enter_enum_value(&mut self, _state: &VisitState<'a>, _user: &mut UserContext, _node: &'a String)
        ensures
            (*final(self), *final(_user)) == old(self).after_operation_event(
                *old(_user),
                OperationEvent::Enter(step(VisitNode::EnumValue(_node), *_state)),
            ),
    {
        self.on_operation_event(OperationEvent::Enter(VisitStep { node: VisitNode::EnumValue(_node), state: *_state }), _user)
    }

    fn leave_enum_value(&mut self, _state: &VisitState<'a>, _user: &mut UserContext, _node: &'a String)
        ensures
            (*final(self), *final(_user)) == old(self).after_operation_event(
                *old(_user),
                OperationEvent::Leave(step(VisitNode::EnumValue(_node), *_state)),
            ),
    {
        self.on_operation_event(OperationEvent::Leave(VisitStep { node: VisitNode::EnumValue(_node), state: *_state }), _user)
    }

    fn enter_variable_value(&mut self, _state: &VisitState<'a>, _user: &mut UserContext, _node: &'a String)
        ensures
            (*final(self), *final(_user)) == old(self).after_operation_event(
                *old(_user),
                OperationEvent::Enter(step(VisitNode::VariableValue(_node), *_state)),
            ),
    {
        self.on_operation_event(OperationEvent::Enter(VisitStep { node: VisitNode::VariableValue(_node), state: *_state }), _user)
    }

    fn leave_variable_value(&mut self, _state: &VisitState<'a>, _user: &mut UserContext, _node: &'a String)
        ensures
            (*final(self), *final(_user)) == old(self).after_operation_event(
                *old(_user),
                OperationEvent::Leave(step(VisitNode::VariableValue(_node), *_state)),
            ),
    {
        self.on_operation_event(OperationEvent::Leave(VisitStep { node: VisitNode::VariableValue(_node), state: *_state }), _user)
    }

    fn enter_list_value(&mut self, _state: &VisitState<'a>, _user: &mut UserContext, _node: &'a Vec<Value>)
        ensures
            (*final(self), *final(_user)) == old(self).after_operation_event(
                *old(_user),
                OperationEvent::Enter(step(VisitNode::ListValue(_node), *_state)),
            ),
    {
        self.on_operation_event(OperationEvent::Enter(VisitStep { node: VisitNode::ListValue(_node), state: *_state }), _user)
    }

    fn leave_list_value(&mut self, _state: &VisitState<'a>, _user: &mut UserContext, _node: &'a Vec<Value>)
        ensures
            (*final(self), *final(_user)) == old(self).after_operation_event(
                *old(_user),
                OperationEvent::Leave(step(VisitNode::ListValue(_node), *_state)),
            ),
    {
        self.on_operation_event(OperationEvent::Leave(VisitStep { node: VisitNode::ListValue(_node), state: *_state }), _user)
    }

    fn enter_object_value(&mut self, _state: &VisitState<'a>, _user: &mut UserContext, _node: &'a Vec<(String, Value)>)
        ensures
            (*final(self), *final(_user)) == old(self).after_operation_event(
                *old(_user),
                OperationEvent::Enter(step(VisitNode::ObjectValue(_node), *_state)),
            ),
    {
        self.on_operation_event(OperationEvent::Enter(VisitStep { node: VisitNode::ObjectValue(_node), state: *_state }), _user)
    }

    fn leave_object_value(&mut self, _state: &VisitState<'a>, _user: &mut UserContext, _node: &'a Vec<(String, Value)>)
        ensures
            (*final(self), *final(_user)) == old(self).after_operation_event(
                *old(_user),
                OperationEvent::Leave(step(VisitNode::ObjectValue(_node), *_state)),
            ),
    {
        self.on_operation_event(OperationEvent::Leave(VisitStep { node: VisitNode::ObjectValue(_node), state: *_state }), _user)
    }

    fn enter_object_field(&mut self, _state: &VisitState<'a>, _user: &mut UserContext, _node: &'a (String, Value))
        ensures
            (*final(self), *final(_user)) == old(self).after_operation_event(
                *old(_user),
                OperationEvent::Enter(step(VisitNode::ObjectField(_node), *_state)),
            ),
    {
        self.on_operation_event(OperationEvent::Enter(VisitStep { node: VisitNode::ObjectField(_node), state: *_state }), _user)
    }

    fn leave_object_field(&mut self, _state: &VisitState<'a>, _user: &mut UserContext, _node: &'a (String, Value))
        ensures
            (*final(self), *final(_user)) == old(self).after_operation_event(
                *old(_user),
                OperationEvent::Leave(step(VisitNode::ObjectField(_node), *_state)),
            ),
    {
        self.on_operation_event(OperationEvent::Leave(VisitStep { node: VisitNode::ObjectField(_node), state: *_state }), _user)
    }
}

/// Walks `document` with `visitor`: the document hook, then the hooks of
/// each node of the traversal against the context's schema, entered and
/// left in order, then the closing document hook.
pub fn visit_document<'a, Visitor: OperationVisitor<'a, UserContext>, UserContext>(
    visitor: &mut Visitor,
    document: &'a Document,
    context: &OperationVisitorContext<'a>,
    user_context: &mut UserContext,
)
    ensures
        (*final(visitor), *final(user_context)) == fold_events(
            (|p: (Visitor, UserContext), e: OperationEvent<'a>| p.0.after_operation_event(p.1, e)),
            operation_document_events(context.schema, document),
            (*old(visitor), *old(user_context)),
        ),
{
    let ghost f = |p: (Visitor, UserContext), e: OperationEvent<'a>| p.0.after_operation_event(p.1, e);
    let ghost start = (*visitor, *user_context);
    let events = document_walk_events(context.schema, document);
    let mut i: usize = 0;
    while i < events.len()
        invariant
            i <= events@.len(),
            events@ == operation_document_events(context.schema, document),
            f == (|p: (Visitor, UserContext), e: OperationEvent<'a>| p.0.after_operation_event(p.1, e)),
            (*visitor, *user_context) == fold_events(f, events@.take(i as int), start),
        decreases events@.len() - i,
    {
        match events[i] {
            OperationEvent::EnterDocument(d) => visitor.enter_document(context, user_context, d),
            OperationEvent::LeaveDocument(d) => visitor.leave_document(context, user_context, d),
            OperationEvent::Enter(s) => {
                let st = &s.state;
                match s.node {
                    VisitNode::OperationDefinition(n) => visitor.enter_operation_definition(st, user_context, n),
                    VisitNode::FragmentDefinition(n) => visitor.enter_fragment_definition(st, user_context, n),
                    VisitNode::VariableDefinition(n) => visitor.enter_variable_definition(st, user_context, n),
                    VisitNode::Directive(n, loc) => visitor.enter_directive(st, user_context, n, loc),
                    VisitNode::Argument(n) => visitor.enter_argument(st, user_context, n),
                    VisitNode::SelectionSet(n) => visitor.enter_selection_set(st, user_context, n),
                    VisitNode::Field(n) => visitor.enter_field(st, user_context, n),
                    VisitNode::FragmentSpread(n) => visitor.enter_fragment_spread(st, user_context, n),
                    VisitNode::InlineFragment(n) => visitor.enter_inline_fragment(st, user_context, n),
                    VisitNode::NullValue => visitor.enter_null_value(st, user_context),
                    VisitNode::ScalarValue(n) => visitor.enter_scalar_value(st, user_context, n),
                    VisitNode::EnumValue(n) => visitor.enter_enum_value(st, user_context, n),
                    VisitNode::VariableValue(n) => visitor.enter_variable_value(st, user_context, n),
                    VisitNode::ListValue(n) => visitor.enter_list_value(st, user_context, n),
                    VisitNode::ObjectValue(n) => visitor.enter_object_value(st, user_context, n),
                    VisitNode::ObjectField(n) => visitor.enter_object_field(st, user_context, n),
                }
            },
            OperationEvent::Leave(s) => {
                let st = &s.state;
                match s.node {
                    VisitNode::OperationDefinition(n) => visitor.leave_operation_definition(st, user_context, n),
                    VisitNode::FragmentDefinition(n) => visitor.leave_fragment_definition(st, user_context, n),
                    VisitNode::VariableDefinition(n) => visitor.leave_variable_definition(st, user_context, n),
                    VisitNode::Directive(n, loc) => visitor.leave_directive(st, user_context, n, loc),
                    VisitNode::Argument(n) => visitor.leave_argument(st, user_context, n),
                    VisitNode::SelectionSet(n) => visitor.leave_selection_set(st, user_context, n),
                    VisitNode::Field(n) => visitor.leave_field(st, user_context, n),
                    VisitNode::FragmentSpread(n) => visitor.leave_fragment_spread(st, user_context, n),
                    VisitNode::InlineFragment(n) => visitor.leave_inline_fragment(st, user_context, n),
                    VisitNode::NullValue => visitor.leave_null_value(st, user_context),
                    VisitNode::ScalarValue(n) => visitor.leave_scalar_value(st, user_context, n),
                    VisitNode::EnumValue(n) => visitor.leave_enum_value(st, user_context, n),
                    VisitNode::VariableValue(n) => visitor.leave_variable_value(st, user_context, n),
                    VisitNode::ListValue(n) => visitor.leave_list_value(st, user_context, n),
                    VisitNode::ObjectValue(n) => visitor.leave_object_value(st, user_context, n),
                    VisitNode::ObjectField(n) => visitor.leave_object_field(st, user_context, n),
                }
            },
        }
        proof {
            fold_events_push(f, events@.take(i as int), events@[i as int], start);
            assert(events@.take(i as int).push(events@[i as int]) =~= events@.take(i as int + 1));
        }
        i = i + 1;
    }
    assert(events@.take(events@.len() as int) =~= events@);
}

} // verus!
