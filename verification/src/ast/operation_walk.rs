//! The walk that an operation visitor is taken through: the steps of the
//! traversal, each node entered and, after what lies inside it, left again
//! with the same state.
use vstd::prelude::*;

use crate::ast::ext::{
    directive_named, find_input_value_in, op_directives, op_selection_set, op_variable_definitions,
    FieldByNameExtension, OperationDefinitionExtension, SchemaDocumentExtension, TypeExtension,
};
use crate::ast::operation_visitor::{
    argument_steps, argument_type, condition_name, definition_steps, directive_steps, document_steps,
    document_steps_upto, empty_state, selection_steps, value_steps, variable_steps, enter_selection_set, field_def, field_state,
    field_state_exec, inline_fragment_state, input_state, list_item_type, object_field_type,
    operation_location, operation_root, operation_root_type, step, with_input, VisitNode, VisitState,
    VisitStep,
};
use crate::static_graphql::query::{
    Definition, Directive, Document, OperationDefinition, Selection, SelectionSet, Type, TypeCondition,
    Value, VariableDefinition,
};
use crate::ast::utils::{nested_by, nested_by_append, nested_by_empty, nested_by_pair};
use crate::static_graphql::schema::{self, DirectiveLocation, InputValue};

verus! {

/// What a traversal hands to a visitor: the document entered, a node entered
/// or left, or the document left.
#[derive(Clone, Copy)]
pub enum OperationEvent<'a> {
    EnterDocument(&'a Document),
    Enter(VisitStep<'a>),
    Leave(VisitStep<'a>),
    LeaveDocument(&'a Document),
}

/// A node entered, what lies inside it, and the node left.
pub open spec fn around<'a>(s: VisitStep<'a>, inner: Seq<OperationEvent<'a>>) -> Seq<OperationEvent<'a>> {
    seq![OperationEvent::Enter(s)] + inner + seq![OperationEvent::Leave(s)]
}

/// The walk over an input value (`n < 0`), or over the first `n` items or
/// fields of a list or object value.
pub open spec fn value_walk<'a>(
    schema: &'a schema::Document,
    v: &'a Value,
    n: int,
    st: VisitState<'a>,
) -> Seq<OperationEvent<'a>>
    decreases v, if n < 0 { 1int } else { 0int }, n,
{
    if n < 0 {
        match v {
            Value::Null => around(step(VisitNode::NullValue, st), Seq::empty()),
            Value::Enum(e) => around(step(VisitNode::EnumValue(e), st), Seq::empty()),
            Value::Variable(name) => around(step(VisitNode::VariableValue(name), st), Seq::empty()),
            Value::List(items) => around(
                step(VisitNode::ListValue(items), st),
                value_walk(schema, v, items@.len() as int, st),
            ),
            Value::Object(fields) => around(
                step(VisitNode::ObjectValue(fields), st),
                value_walk(schema, v, fields@.len() as int, st),
            ),
            _ => around(step(VisitNode::ScalarValue(v), st), Seq::empty()),
        }
    } else {
        match v {
            Value::List(items) => if n == 0 || n > items@.len() {
                Seq::empty()
            } else {
                value_walk(schema, v, n - 1, st) + value_walk(
                    schema,
                    &items@[n - 1],
                    -1,
                    with_input(schema, st, list_item_type(st)),
                )
            },
            Value::Object(fields) => if n == 0 || n > fields@.len() {
                Seq::empty()
            } else {
                let f = &fields@[n - 1];
                let st_f = with_input(schema, st, object_field_type(schema, st, f.0@));
                value_walk(schema, v, n - 1, st) + around(
                    step(VisitNode::ObjectField(f), st_f),
                    value_walk(schema, &f.1, -1, st_f),
                )
            },
            _ => Seq::empty(),
        }
    }
}

/// The walk over the first `n` arguments of `args`, whose definitions are `defs`.
pub open spec fn argument_walk<'a>(
    schema: &'a schema::Document,
    defs: Option<&'a Vec<InputValue>>,
    args: &'a Vec<(String, Value)>,
    n: int,
    st: VisitState<'a>,
) -> Seq<OperationEvent<'a>>
    decreases n,
{
    if n <= 0 || n > args@.len() {
        Seq::empty()
    } else {
        let a = &args@[n - 1];
        let st_a = with_input(schema, st, argument_type(defs, a.0@));
        argument_walk(schema, defs, args, n - 1, st) + around(
            step(VisitNode::Argument(a), st_a),
            value_walk(schema, &a.1, -1, st_a),
        )
    }
}

/// The walk over the first `n` of the directives `dirs` applied at `loc`.
pub open spec fn directive_walk<'a>(
    schema: &'a schema::Document,
    dirs: Seq<Directive>,
    loc: DirectiveLocation,
    n: int,
    st: VisitState<'a>,
) -> Seq<OperationEvent<'a>>
    decreases n,
{
    if n <= 0 || n > dirs.len() {
        Seq::empty()
    } else {
        let d = &dirs[n - 1];
        let defs = match directive_named(schema, d.name@) {
            Some(dd) => Some(&dd.arguments),
            None => None,
        };
        directive_walk(schema, dirs, loc, n - 1, st) + around(
            step(VisitNode::Directive(d, loc), st),
            argument_walk(schema, defs, &d.arguments, d.arguments@.len() as int, st),
        )
    }
}

/// The walk over the first `n` of the variable definitions `vars`.
pub open spec fn variable_walk<'a>(
    schema: &'a schema::Document,
    vars: Seq<VariableDefinition>,
    n: int,
    st: VisitState<'a>,
) -> Seq<OperationEvent<'a>>
    decreases n,
{
    if n <= 0 || n > vars.len() {
        Seq::empty()
    } else {
        let var = &vars[n - 1];
        let st_v = with_input(schema, st, Some(&var.var_type));
        variable_walk(schema, vars, n - 1, st) + around(
            step(VisitNode::VariableDefinition(var), st_v),
            match &var.default_value {
                Some(d) => value_walk(schema, d, -1, st_v),
                None => Seq::empty(),
            },
        )
    }
}

/// The walk over a selection set (`n < 0`), or over the first `n` of its
/// items given the state inside it.
pub open spec fn selection_walk<'a>(
    schema: &'a schema::Document,
    ss: &'a SelectionSet,
    n: int,
    st: VisitState<'a>,
) -> Seq<OperationEvent<'a>>
    decreases ss, if n < 0 { 1int } else { 0int }, n,
{
    if n < 0 {
        let inside = enter_selection_set(st);
        around(step(VisitNode::SelectionSet(ss), inside), selection_walk(schema, ss, ss.items@.len() as int, inside))
    } else if n == 0 || n > ss.items@.len() {
        Seq::empty()
    } else {
        let prev = selection_walk(schema, ss, n - 1, st);
        match &ss.items@[n - 1] {
            Selection::Field(f) => {
                let st_f = field_state(schema, f, st);
                let def = field_def(f, st);
                let st_in = VisitState { field: def, ..st_f };
                let arg_defs = match def {
                    Some(d) => Some(&d.arguments),
                    None => None,
                };
                prev + around(
                    step(VisitNode::Field(f), st_f),
                    argument_walk(schema, arg_defs, &f.arguments, f.arguments@.len() as int, st_in)
                        + directive_walk(
                        schema,
                        f.directives@,
                        DirectiveLocation::Field,
                        f.directives@.len() as int,
                        st_in,
                    ) + selection_walk(schema, &f.selection_set, -1, st_in),
                )
            },
            Selection::FragmentSpread(s) => prev + around(
                step(VisitNode::FragmentSpread(s), st),
                directive_walk(
                    schema,
                    s.directives@,
                    DirectiveLocation::FragmentSpread,
                    s.directives@.len() as int,
                    st,
                ),
            ),
            Selection::InlineFragment(i) => {
                let st_i = inline_fragment_state(schema, i, st);
                prev + around(
                    step(VisitNode::InlineFragment(i), st_i),
                    directive_walk(
                        schema,
                        i.directives@,
                        DirectiveLocation::InlineFragment,
                        i.directives@.len() as int,
                        st_i,
                    ) + selection_walk(schema, &i.selection_set, -1, st_i),
                )
            },
        }
    }
}

/// The walk over a definition.
pub open spec fn definition_walk<'a>(schema: &'a schema::Document, def: &'a Definition) -> Seq<
    OperationEvent<'a>,
> {
    match def {
        Definition::Fragment(frag) => {
            let st = VisitState {
                current_type: crate::ast::ext::type_named(schema, condition_name(&frag.type_condition)),
                ..empty_state()
            };
            around(
                step(VisitNode::FragmentDefinition(frag), st),
                directive_walk(
                    schema,
                    frag.directives@,
                    DirectiveLocation::FragmentDefinition,
                    frag.directives@.len() as int,
                    st,
                ) + selection_walk(schema, &frag.selection_set, -1, st),
            )
        },
        Definition::Operation(op) => {
            let st = VisitState { current_type: operation_root(schema, op), ..empty_state() };
            around(
                step(VisitNode::OperationDefinition(op), st),
                directive_walk(schema, op_directives(op), operation_location(op), op_directives(op).len() as int, st)
                    + variable_walk(
                    schema,
                    op_variable_definitions(op),
                    op_variable_definitions(op).len() as int,
                    st,
                ) + selection_walk(schema, op_selection_set(op), -1, st),
            )
        },
    }
}

/// The walk over the first `n` definitions of a document.
pub open spec fn document_walk_upto<'a>(schema: &'a schema::Document, doc: &'a Document, n: int) -> Seq<
    OperationEvent<'a>,
>
    decreases n,
{
    if n <= 0 || n > doc.definitions@.len() {
        Seq::empty()
    } else {
        document_walk_upto(schema, doc, n - 1) + definition_walk(schema, &doc.definitions@[n - 1])
    }
}

/// The events of a traversal of `doc` against `schema`: the document
/// entered, each node entered and left in order, and the document left.
pub open spec fn operation_document_events<'a>(schema: &'a schema::Document, doc: &'a Document) -> Seq<
    OperationEvent<'a>,
> {
    seq![OperationEvent::EnterDocument(doc)] + document_walk_upto(schema, doc, doc.definitions@.len() as int)
        + seq![OperationEvent::LeaveDocument(doc)]
}

/// Appends the walk over an input value.
#[verifier::loop_isolation(false)]
pub fn walk_input_value<'a>(
    schema: &'a schema::Document,
    v: &'a Value,
    st: VisitState<'a>,
    out: &mut Vec<OperationEvent<'a>>,
)
    ensures
        final(out)@ == old(out)@ + value_walk(schema, v, -1, st),
    decreases v,
{
    let ghost start = out@;
    match v {
        Value::Null => {
            let s = VisitStep { node: VisitNode::NullValue, state: st };
            out.push(OperationEvent::Enter(s));
            out.push(OperationEvent::Leave(s));
        },
        Value::Enum(e) => {
            let s = VisitStep { node: VisitNode::EnumValue(e), state: st };
            out.push(OperationEvent::Enter(s));
            out.push(OperationEvent::Leave(s));
        },
        Value::Variable(name) => {
            let s = VisitStep { node: VisitNode::VariableValue(name), state: st };
            out.push(OperationEvent::Enter(s));
            out.push(OperationEvent::Leave(s));
        },
        Value::List(items) => {
            let s = VisitStep { node: VisitNode::ListValue(items), state: st };
            out.push(OperationEvent::Enter(s));
            let item_type = match st.input_type_literal {
                Some(Type::ListType(inner)) => Some(&**inner),
                _ => None,
            };
            let st_item = input_state(schema, st, item_type);
            let mut i: usize = 0;
            while i < items.len()
                invariant
                    i <= items@.len(),
                    out@ == start + seq![OperationEvent::Enter(s)] + value_walk(schema, v, i as int, st),
                decreases items@.len() - i,
            {
                walk_input_value(schema, &items[i], st_item, out);
                i = i + 1;
            }
            out.push(OperationEvent::Leave(s));
        },
        Value::Object(fields) => {
            let s = VisitStep { node: VisitNode::ObjectValue(fields), state: st };
            out.push(OperationEvent::Enter(s));
            let mut i: usize = 0;
            while i < fields.len()
                invariant
                    i <= fields@.len(),
                    out@ == start + seq![OperationEvent::Enter(s)] + value_walk(schema, v, i as int, st),
                decreases fields@.len() - i,
            {
                let f = &fields[i];
                let field_type = match st.input_type_literal {
                    Some(t) => {
                        let name = t.inner_type();
                        match schema.type_by_name(name.as_str()) {
                            Some(d) => match d.input_field_by_name(&f.0) {
                                Some(fd) => Some(&fd.value_type),
                                None => None,
                            },
                            None => None,
                        }
                    },
                    None => None,
                };
                let st_f = input_state(schema, st, field_type);
                let sf = VisitStep { node: VisitNode::ObjectField(f), state: st_f };
                out.push(OperationEvent::Enter(sf));
                walk_input_value(schema, &f.1, st_f, out);
                out.push(OperationEvent::Leave(sf));
                i = i + 1;
            }
            out.push(OperationEvent::Leave(s));
        },
        _ => {
            let s = VisitStep { node: VisitNode::ScalarValue(v), state: st };
            out.push(OperationEvent::Enter(s));
            out.push(OperationEvent::Leave(s));
        },
    }
    assert(out@ =~= start + value_walk(schema, v, -1, st));
}


/// Appends the walk over the arguments `args`, whose definitions are `defs`.
pub fn walk_arguments<'a>(
    schema: &'a schema::Document,
    defs: Option<&'a Vec<InputValue>>,
    args: &'a Vec<(String, Value)>,
    st: VisitState<'a>,
    out: &mut Vec<OperationEvent<'a>>,
)
    ensures
        final(out)@ == old(out)@ + argument_walk(schema, defs, args, args@.len() as int, st),
{
    let ghost start = out@;
    let mut i: usize = 0;
    while i < args.len()
        invariant
            i <= args@.len(),
            out@ == start + argument_walk(schema, defs, args, i as int, st),
        decreases args@.len() - i,
    {
        let a = &args[i];
        let arg_type = match defs {
            Some(d) => match find_input_value_in(d, a.0.as_str()) {
                Some(def) => Some(&def.value_type),
                None => None,
            },
            None => None,
        };
        let st_a = input_state(schema, st, arg_type);
        let s = VisitStep { node: VisitNode::Argument(a), state: st_a };
        out.push(OperationEvent::Enter(s));
        walk_input_value(schema, &a.1, st_a, out);
        out.push(OperationEvent::Leave(s));
        assert(out@ =~= start + argument_walk(schema, defs, args, i as int + 1, st));
        i = i + 1;
    }
}

/// Appends the walk over the directives `dirs`, applied at `loc`.
pub fn walk_directives<'a>(
    schema: &'a schema::Document,
    dirs: &'a [Directive],
    loc: DirectiveLocation,
    st: VisitState<'a>,
    out: &mut Vec<OperationEvent<'a>>,
)
    ensures
        final(out)@ == old(out)@ + directive_walk(schema, dirs@, loc, dirs@.len() as int, st),
{
    let ghost start = out@;
    let mut i: usize = 0;
    while i < dirs.len()
        invariant
            i <= dirs@.len(),
            out@ == start + directive_walk(schema, dirs@, loc, i as int, st),
        decreases dirs@.len() - i,
    {
        let d = &dirs[i];
        let defs = match schema.directive_by_name(d.name.as_str()) {
            Some(dd) => Some(&dd.arguments),
            None => None,
        };
        let s = VisitStep { node: VisitNode::Directive(d, loc), state: st };
        out.push(OperationEvent::Enter(s));
        walk_arguments(schema, defs, &d.arguments, st, out);
        out.push(OperationEvent::Leave(s));
        assert(out@ =~= start + directive_walk(schema, dirs@, loc, i as int + 1, st));
        i = i + 1;
    }
}

/// Appends the walk over the variable definitions `vars`.
pub fn walk_variable_definitions<'a>(
    schema: &'a schema::Document,
    vars: &'a [VariableDefinition],
    st: VisitState<'a>,
    out: &mut Vec<OperationEvent<'a>>,
)
    ensures
        final(out)@ == old(out)@ + variable_walk(schema, vars@, vars@.len() as int, st),
{
    let ghost start = out@;
    let mut i: usize = 0;
    while i < vars.len()
        invariant
            i <= vars@.len(),
            out@ == start + variable_walk(schema, vars@, i as int, st),
        decreases vars@.len() - i,
    {
        let var = &vars[i];
        let st_v = input_state(schema, st, Some(&var.var_type));
        let s = VisitStep { node: VisitNode::VariableDefinition(var), state: st_v };
        out.push(OperationEvent::Enter(s));
        match &var.default_value {
            Some(d) => walk_input_value(schema, d, st_v, out),
            None => {},
        }
        out.push(OperationEvent::Leave(s));
        assert(out@ =~= start + variable_walk(schema, vars@, i as int + 1, st));
        i = i + 1;
    }
}

/// Appends the walk over a selection set.
#[verifier::loop_isolation(false)]
pub fn walk_selection_set<'a>(
    schema: &'a schema::Document,
    ss: &'a SelectionSet,
    st: VisitState<'a>,
    out: &mut Vec<OperationEvent<'a>>,
)
    ensures
        final(out)@ == old(out)@ + selection_walk(schema, ss, -1, st),
    decreases ss,
{
    let ghost start = out@;
    let inside = VisitState { parent_type: st.current_type, ..st };
    let set_step = VisitStep { node: VisitNode::SelectionSet(ss), state: inside };
    out.push(OperationEvent::Enter(set_step));
    let mut i: usize = 0;
    while i < ss.items.len()
        invariant
            i <= ss.items@.len(),
            inside == enter_selection_set(st),
            out@ == start + seq![OperationEvent::Enter(set_step)] + selection_walk(schema, ss, i as int, inside),
        decreases ss.items@.len() - i,
    {
        match &ss.items[i] {
            Selection::Field(f) => {
                let (st_f, def) = field_state_exec(schema, f, inside);
                let st_in = VisitState { field: def, ..st_f };
                let arg_defs = match def {
                    Some(d) => Some(&d.arguments),
                    None => None,
                };
                let s = VisitStep { node: VisitNode::Field(f), state: st_f };
                out.push(OperationEvent::Enter(s));
                walk_arguments(schema, arg_defs, &f.arguments, st_in, out);
                walk_directives(schema, f.directives.as_slice(), DirectiveLocation::Field, st_in, out);
                walk_selection_set(schema, &f.selection_set, st_in, out);
                out.push(OperationEvent::Leave(s));
            },
            Selection::FragmentSpread(sp) => {
                let s = VisitStep { node: VisitNode::FragmentSpread(sp), state: inside };
                out.push(OperationEvent::Enter(s));
                walk_directives(schema, sp.directives.as_slice(), DirectiveLocation::FragmentSpread, inside, out);
                out.push(OperationEvent::Leave(s));
            },
            Selection::InlineFragment(inl) => {
                let st_i = match &inl.type_condition {
                    Some(TypeCondition::On(name)) => VisitState {
                        current_type: schema.type_by_name(name.as_str()),
                        type_literal: None,
                        ..inside
                    },
                    None => inside,
                };
                let s = VisitStep { node: VisitNode::InlineFragment(inl), state: st_i };
                out.push(OperationEvent::Enter(s));
                walk_directives(schema, inl.directives.as_slice(), DirectiveLocation::InlineFragment, st_i, out);
                walk_selection_set(schema, &inl.selection_set, st_i, out);
                out.push(OperationEvent::Leave(s));
            },
        }
        assert(out@ =~= start + seq![OperationEvent::Enter(set_step)] + selection_walk(schema, ss, i as int + 1, inside));
        i = i + 1;
    }
    out.push(OperationEvent::Leave(set_step));
    assert(out@ =~= start + selection_walk(schema, ss, -1, st));
}

/// Appends the walk over a definition.
pub fn walk_definition<'a>(schema: &'a schema::Document, def: &'a Definition, out: &mut Vec<OperationEvent<'a>>)
    ensures
        final(out)@ == old(out)@ + definition_walk(schema, def),
{
    let ghost start = out@;
    match def {
        Definition::Fragment(frag) => {
            let TypeCondition::On(cond) = &frag.type_condition;
            let st = VisitState {
                parent_type: None,
                current_type: schema.type_by_name(cond.as_str()),
                type_literal: None,
                input_type: None,
                input_type_literal: None,
                field: None,
            };
            let s = VisitStep { node: VisitNode::FragmentDefinition(frag), state: st };
            out.push(OperationEvent::Enter(s));
            walk_directives(schema, frag.directives.as_slice(), DirectiveLocation::FragmentDefinition, st, out);
            walk_selection_set(schema, &frag.selection_set, st, out);
            out.push(OperationEvent::Leave(s));
            assert(out@ =~= start + definition_walk(schema, def));
        },
        Definition::Operation(op) => {
            let st = VisitState {
                parent_type: None,
                current_type: operation_root_type(schema, op),
                type_literal: None,
                input_type: None,
                input_type_literal: None,
                field: None,
            };
            let loc = match op {
                OperationDefinition::Mutation(_) => DirectiveLocation::Mutation,
                OperationDefinition::Subscription(_) => DirectiveLocation::Subscription,
                _ => DirectiveLocation::Query,
            };
            let s = VisitStep { node: VisitNode::OperationDefinition(op), state: st };
            out.push(OperationEvent::Enter(s));
            walk_directives(schema, op.directives(), loc, st, out);
            walk_variable_definitions(schema, op.variable_definitions(), st, out);
            walk_selection_set(schema, op.selection_set(), st, out);
            out.push(OperationEvent::Leave(s));
            assert(out@ =~= start + definition_walk(schema, def));
        },
    }
}

/// The events of a traversal of a whole document, in order, with the
/// document's own enter and leave around them.
pub fn document_walk_events<'a>(schema: &'a schema::Document, doc: &'a Document) -> (r: Vec<OperationEvent<'a>>)
    ensures
        r@ == operation_document_events(schema, doc),
{
    let mut out: Vec<OperationEvent<'a>> = Vec::new();
    out.push(OperationEvent::EnterDocument(doc));
    let mut i: usize = 0;
    while i < doc.definitions.len()
        invariant
            i <= doc.definitions@.len(),
            out@ == seq![OperationEvent::EnterDocument(doc)] + document_walk_upto(schema, doc, i as int),
        decreases doc.definitions@.len() - i,
    {
        walk_definition(schema, &doc.definitions[i], &mut out);
        assert(out@ =~= seq![OperationEvent::EnterDocument(doc)] + document_walk_upto(schema, doc, i as int + 1));
        i = i + 1;
    }
    out.push(OperationEvent::LeaveDocument(doc));
    assert(out@ =~= operation_document_events(schema, doc));
    out
}


/// The steps of the nodes that `events` enter, in order.
pub open spec fn entered<'a>(events: Seq<OperationEvent<'a>>) -> Seq<VisitStep<'a>>
    decreases events.len(),
{
    if events.len() == 0 {
        Seq::empty()
    } else {
        entered(events.drop_last()) + match events.last() {
            OperationEvent::Enter(s) => seq![s],
            _ => Seq::empty(),
        }
    }
}

/// The nodes entered by two walks one after the other.
proof fn entered_append<'a>(a: Seq<OperationEvent<'a>>, b: Seq<OperationEvent<'a>>)
    ensures
        entered(a + b) == entered(a) + entered(b),
    decreases b.len(),
{
    if b.len() == 0 {
        assert(a + b =~= a);
        assert(entered(a) + entered(b) =~= entered(a));
    } else {
        entered_append(a, b.drop_last());
        assert((a + b).drop_last() =~= a + b.drop_last());
        assert((a + b).last() == b.last());
        assert(entered(a + b) =~= entered(a) + entered(b));
    }
}

/// The nodes entered by a node's walk: the node, then those inside it.
proof fn entered_around<'a>(s: VisitStep<'a>, inner: Seq<OperationEvent<'a>>)
    ensures
        entered(around(s, inner)) == seq![s] + entered(inner),
{
    let head = seq![OperationEvent::Enter(s)];
    let tail = seq![OperationEvent::Leave(s)];
    entered_append(head + inner, tail);
    entered_append(head, inner);
    assert(head.drop_last() =~= Seq::<OperationEvent<'a>>::empty());
    assert(entered(head.drop_last()) =~= Seq::<VisitStep<'a>>::empty());
    assert(head.last() == OperationEvent::Enter(s));
    assert(entered(head) =~= seq![s]);
    assert(tail.drop_last() =~= Seq::<OperationEvent<'a>>::empty());
    assert(entered(tail) =~= Seq::<VisitStep<'a>>::empty());
    assert(entered(around(s, inner)) =~= seq![s] + entered(inner));
}

proof fn entered_value<'a>(schema: &'a schema::Document, v: &'a Value, n: int, st: VisitState<'a>)
    ensures
        entered(value_walk(schema, v, n, st)) == value_steps(schema, v, n, st),
    decreases v, if n < 0 { 1int } else { 0int }, n,
{
    if n < 0 {
        match v {
            Value::List(items) => {
                entered_value(schema, v, items@.len() as int, st);
                entered_around(step(VisitNode::ListValue(items), st), value_walk(schema, v, items@.len() as int, st));
            },
            Value::Object(fields) => {
                entered_value(schema, v, fields@.len() as int, st);
                entered_around(step(VisitNode::ObjectValue(fields), st), value_walk(schema, v, fields@.len() as int, st));
            },
            Value::Null => {
                entered_around(step(VisitNode::NullValue, st), Seq::empty());
                assert(seq![step(VisitNode::NullValue, st)] + Seq::<VisitStep<'a>>::empty() =~= seq![step(VisitNode::NullValue, st)]);
            },
            Value::Enum(e) => {
                entered_around(step(VisitNode::EnumValue(e), st), Seq::empty());
                assert(seq![step(VisitNode::EnumValue(e), st)] + Seq::<VisitStep<'a>>::empty() =~= seq![step(VisitNode::EnumValue(e), st)]);
            },
            Value::Variable(name) => {
                entered_around(step(VisitNode::VariableValue(name), st), Seq::empty());
                assert(seq![step(VisitNode::VariableValue(name), st)] + Seq::<VisitStep<'a>>::empty() =~= seq![step(VisitNode::VariableValue(name), st)]);
            },
            _ => {
                entered_around(step(VisitNode::ScalarValue(v), st), Seq::empty());
                assert(seq![step(VisitNode::ScalarValue(v), st)] + Seq::<VisitStep<'a>>::empty() =~= seq![step(VisitNode::ScalarValue(v), st)]);
            },
        }
    } else {
        match v {
            Value::List(items) => if n == 0 || n > items@.len() {
            } else {
                let st_i = with_input(schema, st, list_item_type(st));
                entered_value(schema, v, n - 1, st);
                entered_value(schema, &items@[n - 1], -1, st_i);
                entered_append(value_walk(schema, v, n - 1, st), value_walk(schema, &items@[n - 1], -1, st_i));
            },
            Value::Object(fields) => if n == 0 || n > fields@.len() {
            } else {
                let f = &fields@[n - 1];
                let st_f = with_input(schema, st, object_field_type(schema, st, f.0@));
                entered_value(schema, v, n - 1, st);
                entered_value(schema, &f.1, -1, st_f);
                entered_around(step(VisitNode::ObjectField(f), st_f), value_walk(schema, &f.1, -1, st_f));
                entered_append(
                    value_walk(schema, v, n - 1, st),
                    around(step(VisitNode::ObjectField(f), st_f), value_walk(schema, &f.1, -1, st_f)),
                );
                assert(entered(value_walk(schema, v, n, st)) =~= value_steps(schema, v, n, st));
            },
            _ => {},
        }
    }
}

proof fn entered_arguments<'a>(
    schema: &'a schema::Document,
    defs: Option<&'a Vec<InputValue>>,
    args: &'a Vec<(String, Value)>,
    n: int,
    st: VisitState<'a>,
)
    ensures
        entered(argument_walk(schema, defs, args, n, st)) == argument_steps(schema, defs, args, n, st),
    decreases n,
{
    if n <= 0 || n > args@.len() {
    } else {
        let a = &args@[n - 1];
        let st_a = with_input(schema, st, argument_type(defs, a.0@));
        entered_arguments(schema, defs, args, n - 1, st);
        entered_value(schema, &a.1, -1, st_a);
        entered_around(step(VisitNode::Argument(a), st_a), value_walk(schema, &a.1, -1, st_a));
        entered_append(
            argument_walk(schema, defs, args, n - 1, st),
            around(step(VisitNode::Argument(a), st_a), value_walk(schema, &a.1, -1, st_a)),
        );
        assert(entered(argument_walk(schema, defs, args, n, st)) =~= argument_steps(schema, defs, args, n, st));
    }
}

proof fn entered_directives<'a>(
    schema: &'a schema::Document,
    dirs: Seq<Directive>,
    loc: DirectiveLocation,
    n: int,
    st: VisitState<'a>,
)
    ensures
        entered(directive_walk(schema, dirs, loc, n, st)) == directive_steps(schema, dirs, loc, n, st),
    decreases n,
{
    if n <= 0 || n > dirs.len() {
    } else {
        let d = &dirs[n - 1];
        let defs = match directive_named(schema, d.name@) {
            Some(dd) => Some(&dd.arguments),
            None => None,
        };
        let inner = argument_walk(schema, defs, &d.arguments, d.arguments@.len() as int, st);
        entered_directives(schema, dirs, loc, n - 1, st);
        entered_arguments(schema, defs, &d.arguments, d.arguments@.len() as int, st);
        entered_around(step(VisitNode::Directive(d, loc), st), inner);
        entered_append(directive_walk(schema, dirs, loc, n - 1, st), around(step(VisitNode::Directive(d, loc), st), inner));
        assert(entered(directive_walk(schema, dirs, loc, n, st)) =~= directive_steps(schema, dirs, loc, n, st));
    }
}

proof fn entered_variables<'a>(schema: &'a schema::Document, vars: Seq<VariableDefinition>, n: int, st: VisitState<'a>)
    ensures
        entered(variable_walk(schema, vars, n, st)) == variable_steps(schema, vars, n, st),
    decreases n,
{
    if n <= 0 || n > vars.len() {
    } else {
        let var = &vars[n - 1];
        let st_v = with_input(schema, st, Some(&var.var_type));
        let inner = match &var.default_value {
            Some(d) => value_walk(schema, d, -1, st_v),
            None => Seq::empty(),
        };
        entered_variables(schema, vars, n - 1, st);
        match &var.default_value {
            Some(d) => entered_value(schema, d, -1, st_v),
            None => {},
        }
        entered_around(step(VisitNode::VariableDefinition(var), st_v), inner);
        entered_append(variable_walk(schema, vars, n - 1, st), around(step(VisitNode::VariableDefinition(var), st_v), inner));
        assert(entered(variable_walk(schema, vars, n, st)) =~= variable_steps(schema, vars, n, st));
    }
}

proof fn entered_selections<'a>(schema: &'a schema::Document, ss: &'a SelectionSet, n: int, st: VisitState<'a>)
    ensures
        entered(selection_walk(schema, ss, n, st)) == selection_steps(schema, ss, n, st),
    decreases ss, if n < 0 { 1int } else { 0int }, n,
{
    if n < 0 {
        let inside = enter_selection_set(st);
        entered_selections(schema, ss, ss.items@.len() as int, inside);
        entered_around(step(VisitNode::SelectionSet(ss), inside), selection_walk(schema, ss, ss.items@.len() as int, inside));
    } else if n == 0 || n > ss.items@.len() {
    } else {
        let prev = selection_walk(schema, ss, n - 1, st);
        entered_selections(schema, ss, n - 1, st);
        match &ss.items@[n - 1] {
            Selection::Field(f) => {
                let st_f = field_state(schema, f, st);
                let def = field_def(f, st);
                let st_in = VisitState { field: def, ..st_f };
                let arg_defs = match def {
                    Some(d) => Some(&d.arguments),
                    None => None,
                };
                let a = argument_walk(schema, arg_defs, &f.arguments, f.arguments@.len() as int, st_in);
                let d = directive_walk(schema, f.directives@, DirectiveLocation::Field, f.directives@.len() as int, st_in);
                let sub = selection_walk(schema, &f.selection_set, -1, st_in);
                entered_arguments(schema, arg_defs, &f.arguments, f.arguments@.len() as int, st_in);
                entered_directives(schema, f.directives@, DirectiveLocation::Field, f.directives@.len() as int, st_in);
                entered_selections(schema, &f.selection_set, -1, st_in);
                entered_append(a, d);
                entered_append(a + d, sub);
                entered_around(step(VisitNode::Field(f), st_f), a + d + sub);
                entered_append(prev, around(step(VisitNode::Field(f), st_f), a + d + sub));
                assert(entered(selection_walk(schema, ss, n, st)) =~= selection_steps(schema, ss, n, st));
            },
            Selection::FragmentSpread(sp) => {
                let d = directive_walk(schema, sp.directives@, DirectiveLocation::FragmentSpread, sp.directives@.len() as int, st);
                entered_directives(schema, sp.directives@, DirectiveLocation::FragmentSpread, sp.directives@.len() as int, st);
                entered_around(step(VisitNode::FragmentSpread(sp), st), d);
                entered_append(prev, around(step(VisitNode::FragmentSpread(sp), st), d));
                assert(entered(selection_walk(schema, ss, n, st)) =~= selection_steps(schema, ss, n, st));
            },
            Selection::InlineFragment(i) => {
                let st_i = inline_fragment_state(schema, i, st);
                let d = directive_walk(schema, i.directives@, DirectiveLocation::InlineFragment, i.directives@.len() as int, st_i);
                let sub = selection_walk(schema, &i.selection_set, -1, st_i);
                entered_directives(schema, i.directives@, DirectiveLocation::InlineFragment, i.directives@.len() as int, st_i);
                entered_selections(schema, &i.selection_set, -1, st_i);
                entered_append(d, sub);
                entered_around(step(VisitNode::InlineFragment(i), st_i), d + sub);
                entered_append(prev, around(step(VisitNode::InlineFragment(i), st_i), d + sub));
                assert(entered(selection_walk(schema, ss, n, st)) =~= selection_steps(schema, ss, n, st));
            },
        }
    }
}

proof fn entered_definition<'a>(schema: &'a schema::Document, def: &'a Definition)
    ensures
        entered(definition_walk(schema, def)) == definition_steps(schema, def),
{
    match def {
        Definition::Fragment(frag) => {
            let st = VisitState {
                current_type: crate::ast::ext::type_named(schema, condition_name(&frag.type_condition)),
                ..empty_state()
            };
            let d = directive_walk(schema, frag.directives@, DirectiveLocation::FragmentDefinition, frag.directives@.len() as int, st);
            let sub = selection_walk(schema, &frag.selection_set, -1, st);
            entered_directives(schema, frag.directives@, DirectiveLocation::FragmentDefinition, frag.directives@.len() as int, st);
            entered_selections(schema, &frag.selection_set, -1, st);
            entered_append(d, sub);
            entered_around(step(VisitNode::FragmentDefinition(frag), st), d + sub);
            assert(entered(definition_walk(schema, def)) =~= definition_steps(schema, def));
        },
        Definition::Operation(op) => {
            let st = VisitState { current_type: operation_root(schema, op), ..empty_state() };
            let d = directive_walk(schema, op_directives(op), operation_location(op), op_directives(op).len() as int, st);
            let v = variable_walk(schema, op_variable_definitions(op), op_variable_definitions(op).len() as int, st);
            let sub = selection_walk(schema, op_selection_set(op), -1, st);
            entered_directives(schema, op_directives(op), operation_location(op), op_directives(op).len() as int, st);
            entered_variables(schema, op_variable_definitions(op), op_variable_definitions(op).len() as int, st);
            entered_selections(schema, op_selection_set(op), -1, st);
            entered_append(d, v);
            entered_append(d + v, sub);
            entered_around(step(VisitNode::OperationDefinition(op), st), d + v + sub);
            assert(entered(definition_walk(schema, def)) =~= definition_steps(schema, def));
        },
    }
}

proof fn entered_document_upto<'a>(schema: &'a schema::Document, doc: &'a Document, n: int)
    ensures
        entered(document_walk_upto(schema, doc, n)) == document_steps_upto(schema, doc, n),
    decreases n,
{
    if n <= 0 || n > doc.definitions@.len() {
    } else {
        entered_document_upto(schema, doc, n - 1);
        entered_definition(schema, &doc.definitions@[n - 1]);
        entered_append(document_walk_upto(schema, doc, n - 1), definition_walk(schema, &doc.definitions@[n - 1]));
    }
}

/// Walking an operation document with a visitor enters exactly the nodes of
/// the traversal that the validation rules check, once each, in the same
/// order and with the same states.
pub proof fn visitor_walk_enters_traversal_steps<'a>(schema: &'a schema::Document, doc: &'a Document)
    ensures
        entered(operation_document_events(schema, doc)) == document_steps(schema, doc),
{
    let head = seq![OperationEvent::EnterDocument(doc)];
    let body = document_walk_upto(schema, doc, doc.definitions@.len() as int);
    let tail = seq![OperationEvent::LeaveDocument(doc)];
    entered_document_upto(schema, doc, doc.definitions@.len() as int);
    entered_append(head + body, tail);
    entered_append(head, body);
    assert(head.drop_last() =~= Seq::<OperationEvent<'a>>::empty());
    assert(tail.drop_last() =~= Seq::<OperationEvent<'a>>::empty());
    assert(entered(head.drop_last()) =~= Seq::<VisitStep<'a>>::empty());
    assert(head.last() == OperationEvent::EnterDocument(doc));
    assert(entered(head) =~= Seq::<VisitStep<'a>>::empty());
    assert(entered(tail) =~= Seq::<VisitStep<'a>>::empty());
    assert(entered(operation_document_events(schema, doc)) =~= document_steps(schema, doc));
}


/// The event that leaves what `e` enters; `None` for an event that leaves.
pub open spec fn operation_closer<'a>(e: OperationEvent<'a>) -> Option<OperationEvent<'a>> {
    match e {
        OperationEvent::EnterDocument(d) => Some(OperationEvent::LeaveDocument(d)),
        OperationEvent::Enter(s) => Some(OperationEvent::Leave(s)),
        _ => None,
    }
}

/// A node's walk is nested when the walk inside it is.
proof fn nested_around<'a>(c: spec_fn(OperationEvent<'a>) -> Option<OperationEvent<'a>>, s: VisitStep<'a>, inner: Seq<OperationEvent<'a>>)
    requires
        c == (|e: OperationEvent<'a>| operation_closer(e)),
        nested_by(c, inner),
    ensures
        nested_by(c, around(s, inner)),
{
    nested_by_pair(c, OperationEvent::Enter(s), inner, OperationEvent::Leave(s));
}

proof fn nested_value<'a>(
    c: spec_fn(OperationEvent<'a>) -> Option<OperationEvent<'a>>,
    schema: &'a schema::Document,
    v: &'a Value,
    n: int,
    st: VisitState<'a>,
)
    requires
        c == (|e: OperationEvent<'a>| operation_closer(e)),
    ensures
        nested_by(c, value_walk(schema, v, n, st)),
    decreases v, if n < 0 { 1int } else { 0int }, n,
{
    nested_by_empty(c, Seq::<OperationEvent<'a>>::empty());
    if n < 0 {
        match v {
            Value::List(items) => {
                nested_value(c, schema, v, items@.len() as int, st);
                nested_around(c, step(VisitNode::ListValue(items), st), value_walk(schema, v, items@.len() as int, st));
            },
            Value::Object(fields) => {
                nested_value(c, schema, v, fields@.len() as int, st);
                nested_around(c, step(VisitNode::ObjectValue(fields), st), value_walk(schema, v, fields@.len() as int, st));
            },
            Value::Null => nested_around(c, step(VisitNode::NullValue, st), Seq::empty()),
            Value::Enum(e) => nested_around(c, step(VisitNode::EnumValue(e), st), Seq::empty()),
            Value::Variable(name) => nested_around(c, step(VisitNode::VariableValue(name), st), Seq::empty()),
            _ => nested_around(c, step(VisitNode::ScalarValue(v), st), Seq::empty()),
        }
    } else {
        match v {
            Value::List(items) => if n == 0 || n > items@.len() {
            } else {
                let st_i = with_input(schema, st, list_item_type(st));
                nested_value(c, schema, v, n - 1, st);
                nested_value(c, schema, &items@[n - 1], -1, st_i);
                nested_by_append(c, value_walk(schema, v, n - 1, st), value_walk(schema, &items@[n - 1], -1, st_i));
            },
            Value::Object(fields) => if n == 0 || n > fields@.len() {
            } else {
                let f = &fields@[n - 1];
                let st_f = with_input(schema, st, object_field_type(schema, st, f.0@));
                nested_value(c, schema, v, n - 1, st);
                nested_value(c, schema, &f.1, -1, st_f);
                nested_around(c, step(VisitNode::ObjectField(f), st_f), value_walk(schema, &f.1, -1, st_f));
                nested_by_append(c, 
                    value_walk(schema, v, n - 1, st),
                    around(step(VisitNode::ObjectField(f), st_f), value_walk(schema, &f.1, -1, st_f)),
                );
            },
            _ => {},
        }
    }
}

proof fn nested_arguments<'a>(
    c: spec_fn(OperationEvent<'a>) -> Option<OperationEvent<'a>>,
    schema: &'a schema::Document,
    defs: Option<&'a Vec<InputValue>>,
    args: &'a Vec<(String, Value)>,
    n: int,
    st: VisitState<'a>,
)
    requires
        c == (|e: OperationEvent<'a>| operation_closer(e)),
    ensures
        nested_by(c, argument_walk(schema, defs, args, n, st)),
    decreases n,
{
    nested_by_empty(c, Seq::<OperationEvent<'a>>::empty());
    if n <= 0 || n > args@.len() {
    } else {
        let a = &args@[n - 1];
        let st_a = with_input(schema, st, argument_type(defs, a.0@));
        nested_arguments(c, schema, defs, args, n - 1, st);
        nested_value(c, schema, &a.1, -1, st_a);
        nested_around(c, step(VisitNode::Argument(a), st_a), value_walk(schema, &a.1, -1, st_a));
        nested_by_append(c, 
            argument_walk(schema, defs, args, n - 1, st),
            around(step(VisitNode::Argument(a), st_a), value_walk(schema, &a.1, -1, st_a)),
        );
    }
}

proof fn nested_directives<'a>(
    c: spec_fn(OperationEvent<'a>) -> Option<OperationEvent<'a>>,
    schema: &'a schema::Document,
    dirs: Seq<Directive>,
    loc: DirectiveLocation,
    n: int,
    st: VisitState<'a>,
)
    requires
        c == (|e: OperationEvent<'a>| operation_closer(e)),
    ensures
        nested_by(c, directive_walk(schema, dirs, loc, n, st)),
    decreases n,
{
    nested_by_empty(c, Seq::<OperationEvent<'a>>::empty());
    if n <= 0 || n > dirs.len() {
    } else {
        let d = &dirs[n - 1];
        let defs = match directive_named(schema, d.name@) {
            Some(dd) => Some(&dd.arguments),
            None => None,
        };
        let inner = argument_walk(schema, defs, &d.arguments, d.arguments@.len() as int, st);
        nested_directives(c, schema, dirs, loc, n - 1, st);
        nested_arguments(c, schema, defs, &d.arguments, d.arguments@.len() as int, st);
        nested_around(c, step(VisitNode::Directive(d, loc), st), inner);
        nested_by_append(c, directive_walk(schema, dirs, loc, n - 1, st), around(step(VisitNode::Directive(d, loc), st), inner));
    }
}

proof fn nested_variables<'a>(
    c: spec_fn(OperationEvent<'a>) -> Option<OperationEvent<'a>>,
    schema: &'a schema::Document,
    vars: Seq<VariableDefinition>,
    n: int,
    st: VisitState<'a>,
)
    requires
        c == (|e: OperationEvent<'a>| operation_closer(e)),
    ensures
        nested_by(c, variable_walk(schema, vars, n, st)),
    decreases n,
{
    nested_by_empty(c, Seq::<OperationEvent<'a>>::empty());
    if n <= 0 || n > vars.len() {
    } else {
        let var = &vars[n - 1];
        let st_v = with_input(schema, st, Some(&var.var_type));
        let inner = match &var.default_value {
            Some(d) => value_walk(schema, d, -1, st_v),
            None => Seq::empty(),
        };
        nested_variables(c, schema, vars, n - 1, st);
        match &var.default_value {
            Some(d) => nested_value(c, schema, d, -1, st_v),
            None => {},
        }
        nested_around(c, step(VisitNode::VariableDefinition(var), st_v), inner);
        nested_by_append(c, variable_walk(schema, vars, n - 1, st), around(step(VisitNode::VariableDefinition(var), st_v), inner));
    }
}

proof fn nested_selections<'a>(
    c: spec_fn(OperationEvent<'a>) -> Option<OperationEvent<'a>>,
    schema: &'a schema::Document,
    ss: &'a SelectionSet,
    n: int,
    st: VisitState<'a>,
)
    requires
        c == (|e: OperationEvent<'a>| operation_closer(e)),
    ensures
        nested_by(c, selection_walk(schema, ss, n, st)),
    decreases ss, if n < 0 { 1int } else { 0int }, n,
{
    nested_by_empty(c, Seq::<OperationEvent<'a>>::empty());
    if n < 0 {
        let inside = enter_selection_set(st);
        nested_selections(c, schema, ss, ss.items@.len() as int, inside);
        nested_around(c, step(VisitNode::SelectionSet(ss), inside), selection_walk(schema, ss, ss.items@.len() as int, inside));
    } else if n == 0 || n > ss.items@.len() {
    } else {
        let prev = selection_walk(schema, ss, n - 1, st);
        nested_selections(c, schema, ss, n - 1, st);
        match &ss.items@[n - 1] {
            Selection::Field(f) => {
                let st_f = field_state(schema, f, st);
                let def = field_def(f, st);
                let st_in = VisitState { field: def, ..st_f };
                let arg_defs = match def {
                    Some(d) => Some(&d.arguments),
                    None => None,
                };
                let a = argument_walk(schema, arg_defs, &f.arguments, f.arguments@.len() as int, st_in);
                let d = directive_walk(schema, f.directives@, DirectiveLocation::Field, f.directives@.len() as int, st_in);
                let sub = selection_walk(schema, &f.selection_set, -1, st_in);
                nested_arguments(c, schema, arg_defs, &f.arguments, f.arguments@.len() as int, st_in);
                nested_directives(c, schema, f.directives@, DirectiveLocation::Field, f.directives@.len() as int, st_in);
                nested_selections(c, schema, &f.selection_set, -1, st_in);
                nested_by_append(c, a, d);
                nested_by_append(c, a + d, sub);
                nested_around(c, step(VisitNode::Field(f), st_f), a + d + sub);
                nested_by_append(c, prev, around(step(VisitNode::Field(f), st_f), a + d + sub));
            },
            Selection::FragmentSpread(sp) => {
                let d = directive_walk(schema, sp.directives@, DirectiveLocation::FragmentSpread, sp.directives@.len() as int, st);
                nested_directives(c, schema, sp.directives@, DirectiveLocation::FragmentSpread, sp.directives@.len() as int, st);
                nested_around(c, step(VisitNode::FragmentSpread(sp), st), d);
                nested_by_append(c, prev, around(step(VisitNode::FragmentSpread(sp), st), d));
            },
            Selection::InlineFragment(i) => {
                let st_i = inline_fragment_state(schema, i, st);
                let d = directive_walk(schema, i.directives@, DirectiveLocation::InlineFragment, i.directives@.len() as int, st_i);
                let sub = selection_walk(schema, &i.selection_set, -1, st_i);
                nested_directives(c, schema, i.directives@, DirectiveLocation::InlineFragment, i.directives@.len() as int, st_i);
                nested_selections(c, schema, &i.selection_set, -1, st_i);
                nested_by_append(c, d, sub);
                nested_around(c, step(VisitNode::InlineFragment(i), st_i), d + sub);
                nested_by_append(c, prev, around(step(VisitNode::InlineFragment(i), st_i), d + sub));
            },
        }
    }
}

proof fn nested_definition<'a>(
    c: spec_fn(OperationEvent<'a>) -> Option<OperationEvent<'a>>,
    schema: &'a schema::Document,
    def: &'a Definition,
)
    requires
        c == (|e: OperationEvent<'a>| operation_closer(e)),
    ensures
        nested_by(c, definition_walk(schema, def)),
{
    match def {
        Definition::Fragment(frag) => {
            let st = VisitState {
                current_type: crate::ast::ext::type_named(schema, condition_name(&frag.type_condition)),
                ..empty_state()
            };
            let d = directive_walk(schema, frag.directives@, DirectiveLocation::FragmentDefinition, frag.directives@.len() as int, st);
            let sub = selection_walk(schema, &frag.selection_set, -1, st);
            nested_directives(c, schema, frag.directives@, DirectiveLocation::FragmentDefinition, frag.directives@.len() as int, st);
            nested_selections(c, schema, &frag.selection_set, -1, st);
            nested_by_append(c, d, sub);
            nested_around(c, step(VisitNode::FragmentDefinition(frag), st), d + sub);
        },
        Definition::Operation(op) => {
            let st = VisitState { current_type: operation_root(schema, op), ..empty_state() };
            let d = directive_walk(schema, op_directives(op), operation_location(op), op_directives(op).len() as int, st);
            let v = variable_walk(schema, op_variable_definitions(op), op_variable_definitions(op).len() as int, st);
            let sub = selection_walk(schema, op_selection_set(op), -1, st);
            nested_directives(c, schema, op_directives(op), operation_location(op), op_directives(op).len() as int, st);
            nested_variables(c, schema, op_variable_definitions(op), op_variable_definitions(op).len() as int, st);
            nested_selections(c, schema, op_selection_set(op), -1, st);
            nested_by_append(c, d, v);
            nested_by_append(c, d + v, sub);
            nested_around(c, step(VisitNode::OperationDefinition(op), st), d + v + sub);
        },
    }
}

proof fn nested_document_upto<'a>(
    c: spec_fn(OperationEvent<'a>) -> Option<OperationEvent<'a>>,
    schema: &'a schema::Document,
    doc: &'a Document,
    n: int,
)
    requires
        c == (|e: OperationEvent<'a>| operation_closer(e)),
    ensures
        nested_by(c, document_walk_upto(schema, doc, n)),
    decreases n,
{
    nested_by_empty(c, Seq::<OperationEvent<'a>>::empty());
    if n <= 0 || n > doc.definitions@.len() {
    } else {
        nested_document_upto(c, schema, doc, n - 1);
        nested_definition(c, schema, &doc.definitions@[n - 1]);
        nested_by_append(c, document_walk_upto(schema, doc, n - 1), definition_walk(schema, &doc.definitions@[n - 1]));
    }
}

/// Walking an operation document with a visitor leaves every node that it
/// enters, after the nodes inside it and before the next node beside it:
/// the enter and leave hooks come in properly nested pairs.
pub proof fn visitor_walk_is_well_nested<'a>(schema: &'a schema::Document, doc: &'a Document)
    ensures
        nested_by((|e: OperationEvent<'a>| operation_closer(e)), operation_document_events(schema, doc)),
{
    let c = |e: OperationEvent<'a>| operation_closer(e);
    let body = document_walk_upto(schema, doc, doc.definitions@.len() as int);
    nested_document_upto(c, schema, doc, doc.definitions@.len() as int);
    nested_by_pair(c, OperationEvent::EnterDocument(doc), body, OperationEvent::LeaveDocument(doc));
}

} // verus!
