//! Visiting operation documents by their syntax alone: the events of a walk
//! over a document, in order, and a visitor trait whose hooks are called
//! for them.
use vstd::prelude::*;

use crate::ast::utils::{
    fold_events, fold_events_append, fold_events_push, nested_by, nested_by_append, nested_by_empty,
    nested_by_pair, DefaultVisitorContext,
};
use crate::static_graphql::common::Value;
use crate::static_graphql::query::{
    Definition, Document, Field, FragmentDefinition, FragmentSpread, InlineFragment, Mutation, OperationDefinition,
    Query, Selection, SelectionSet, Subscription, VariableDefinition,
};

verus! {

/// A point of a walk over an operation document: entering or leaving a node.
#[derive(Clone, Copy)]
pub enum QueryEvent<'a> {
    EnterDocument(&'a Document),
    LeaveDocument(&'a Document),
    EnterDefinition(&'a Definition),
    LeaveDefinition(&'a Definition),
    EnterFragmentDefinition(&'a FragmentDefinition),
    LeaveFragmentDefinition(&'a FragmentDefinition),
    EnterOperationDefinition(&'a OperationDefinition),
    LeaveOperationDefinition(&'a OperationDefinition),
    EnterQuery(&'a Query),
    LeaveQuery(&'a Query),
    EnterMutation(&'a Mutation),
    LeaveMutation(&'a Mutation),
    EnterSubscription(&'a Subscription),
    LeaveSubscription(&'a Subscription),
    EnterSelectionSet(&'a SelectionSet),
    LeaveSelectionSet(&'a SelectionSet),
    EnterVariableDefinition(&'a VariableDefinition, &'a OperationDefinition),
    LeaveVariableDefinition(&'a VariableDefinition, &'a OperationDefinition),
    EnterSelection(&'a Selection),
    LeaveSelection(&'a Selection),
    EnterField(&'a Field),
    LeaveField(&'a Field),
    EnterFieldArgument(&'a String, &'a Value, &'a Field),
    LeaveFieldArgument(&'a String, &'a Value, &'a Field),
    EnterFragmentSpread(&'a FragmentSpread),
    LeaveFragmentSpread(&'a FragmentSpread),
    EnterInlineFragment(&'a InlineFragment),
    LeaveInlineFragment(&'a InlineFragment),
}

/// The events of the first `n` arguments of a field.
pub open spec fn argument_events<'a>(f: &'a Field, n: int) -> Seq<QueryEvent<'a>>
    decreases n,
{
    if n <= 0 || n > f.arguments@.len() {
        Seq::empty()
    } else {
        argument_events(f, n - 1) + seq![
            QueryEvent::EnterFieldArgument(&f.arguments@[n - 1].0, &f.arguments@[n - 1].1, f),
            QueryEvent::LeaveFieldArgument(&f.arguments@[n - 1].0, &f.arguments@[n - 1].1, f),
        ]
    }
}

/// The events of a selection set (`n < 0`: entered, its items, and left), or
/// of its first `n` items: each selection entered, its field with the
/// field's arguments and selection set, its fragment spread, or its inline
/// fragment with that fragment's selection set, and left.
pub open spec fn selection_set_events<'a>(ss: &'a SelectionSet, n: int) -> Seq<QueryEvent<'a>>
    decreases ss, if n < 0 {
        1int
    } else {
        0int
    }, n,
{
    if n < 0 {
        seq![QueryEvent::EnterSelectionSet(ss)] + selection_set_events(ss, ss.items@.len() as int) + seq![
            QueryEvent::LeaveSelectionSet(ss),
        ]
    } else if n == 0 || n > ss.items@.len() {
        Seq::empty()
    } else {
        let sel = &ss.items@[n - 1];
        let inner = match sel {
            Selection::Field(f) => seq![QueryEvent::EnterField(f)] + argument_events(f, f.arguments@.len() as int)
                + selection_set_events(&f.selection_set, -1) + seq![QueryEvent::LeaveField(f)],
            Selection::FragmentSpread(s) => seq![
                QueryEvent::EnterFragmentSpread(s),
                QueryEvent::LeaveFragmentSpread(s),
            ],
            Selection::InlineFragment(i) => seq![QueryEvent::EnterInlineFragment(i)] + selection_set_events(
                &i.selection_set,
                -1,
            ) + seq![QueryEvent::LeaveInlineFragment(i)],
        };
        selection_set_events(ss, n - 1) + seq![QueryEvent::EnterSelection(sel)] + inner + seq![
            QueryEvent::LeaveSelection(sel),
        ]
    }
}

/// The events of the first `n` variable definitions of an operation.
pub open spec fn variable_events<'a>(
    vars: &'a Vec<VariableDefinition>,
    op: &'a OperationDefinition,
    n: int,
) -> Seq<QueryEvent<'a>>
    decreases n,
{
    if n <= 0 || n > vars@.len() {
        Seq::empty()
    } else {
        variable_events(vars, op, n - 1) + seq![
            QueryEvent::EnterVariableDefinition(&vars@[n - 1], op),
            QueryEvent::LeaveVariableDefinition(&vars@[n - 1], op),
        ]
    }
}

/// The events of an operation between entering and leaving it.
pub open spec fn operation_events<'a>(op: &'a OperationDefinition) -> Seq<QueryEvent<'a>> {
    match op {
        OperationDefinition::Query(q) => seq![QueryEvent::EnterQuery(q)] + variable_events(
            &q.variable_definitions,
            op,
            q.variable_definitions@.len() as int,
        ) + selection_set_events(&q.selection_set, -1) + seq![QueryEvent::LeaveQuery(q)],
        OperationDefinition::Mutation(m) => seq![QueryEvent::EnterMutation(m)] + variable_events(
            &m.variable_definitions,
            op,
            m.variable_definitions@.len() as int,
        ) + selection_set_events(&m.selection_set, -1) + seq![QueryEvent::LeaveMutation(m)],
        OperationDefinition::Subscription(s) => seq![QueryEvent::EnterSubscription(s)] + variable_events(
            &s.variable_definitions,
            op,
            s.variable_definitions@.len() as int,
        ) + selection_set_events(&s.selection_set, -1) + seq![QueryEvent::LeaveSubscription(s)],
        OperationDefinition::SelectionSet(ss) => seq![QueryEvent::EnterSelectionSet(ss)] + selection_set_events(
            ss,
            -1,
        ) + seq![QueryEvent::LeaveSelectionSet(ss)],
    }
}

/// The events of one definition.
pub open spec fn query_definition_events<'a>(def: &'a Definition) -> Seq<QueryEvent<'a>> {
    seq![QueryEvent::EnterDefinition(def)] + match def {
        Definition::Fragment(f) => seq![QueryEvent::EnterFragmentDefinition(f)] + selection_set_events(
            &f.selection_set,
            -1,
        ) + seq![QueryEvent::LeaveFragmentDefinition(f)],
        Definition::Operation(op) => seq![QueryEvent::EnterOperationDefinition(op)] + operation_events(op) + seq![
            QueryEvent::LeaveOperationDefinition(op),
        ],
    } + seq![QueryEvent::LeaveDefinition(def)]
}

/// The events of the first `n` definitions of a document.
pub open spec fn query_events_upto<'a>(doc: &'a Document, n: int) -> Seq<QueryEvent<'a>>
    decreases n,
{
    if n <= 0 || n > doc.definitions@.len() {
        Seq::empty()
    } else {
        query_events_upto(doc, n - 1) + query_definition_events(&doc.definitions@[n - 1])
    }
}

/// The events of a walk over an operation document, in order.
pub open spec fn query_events<'a>(doc: &'a Document) -> Seq<QueryEvent<'a>> {
    query_events_upto(doc, doc.definitions@.len() as int)
}

/// The events of a walk over an operation document with the document's own
/// enter and leave around them.
pub open spec fn document_events<'a>(doc: &'a Document) -> Seq<QueryEvent<'a>> {
    seq![QueryEvent::EnterDocument(doc)] + query_events(doc) + seq![QueryEvent::LeaveDocument(doc)]
}

/// The event that leaves what `e` enters; `None` for an event that leaves.
pub open spec fn query_closer<'a>(e: QueryEvent<'a>) -> Option<QueryEvent<'a>> {
    match e {
        QueryEvent::EnterDocument(n) => Some(QueryEvent::LeaveDocument(n)),
        QueryEvent::EnterDefinition(n) => Some(QueryEvent::LeaveDefinition(n)),
        QueryEvent::EnterFragmentDefinition(n) => Some(QueryEvent::LeaveFragmentDefinition(n)),
        QueryEvent::EnterOperationDefinition(n) => Some(QueryEvent::LeaveOperationDefinition(n)),
        QueryEvent::EnterQuery(n) => Some(QueryEvent::LeaveQuery(n)),
        QueryEvent::EnterMutation(n) => Some(QueryEvent::LeaveMutation(n)),
        QueryEvent::EnterSubscription(n) => Some(QueryEvent::LeaveSubscription(n)),
        QueryEvent::EnterSelectionSet(n) => Some(QueryEvent::LeaveSelectionSet(n)),
        QueryEvent::EnterSelection(n) => Some(QueryEvent::LeaveSelection(n)),
        QueryEvent::EnterField(n) => Some(QueryEvent::LeaveField(n)),
        QueryEvent::EnterFragmentSpread(n) => Some(QueryEvent::LeaveFragmentSpread(n)),
        QueryEvent::EnterInlineFragment(n) => Some(QueryEvent::LeaveInlineFragment(n)),
        QueryEvent::EnterVariableDefinition(n, op) => Some(QueryEvent::LeaveVariableDefinition(n, op)),
        QueryEvent::EnterFieldArgument(name, value, f) => Some(QueryEvent::LeaveFieldArgument(name, value, f)),
        _ => None,
    }
}

/// The events of an entered node with nothing inside it.
proof fn query_leaf<'a>(c: spec_fn(QueryEvent<'a>) -> Option<QueryEvent<'a>>, open: QueryEvent<'a>, close: QueryEvent<'a>)
    requires
        c(open) == Some(close),
        c(close) is None,
    ensures
        nested_by(c, seq![open, close]),
{
    nested_by_empty(c, Seq::<QueryEvent<'a>>::empty());
    nested_by_pair(c, open, Seq::<QueryEvent<'a>>::empty(), close);
    assert(seq![open] + Seq::<QueryEvent<'a>>::empty() + seq![close] =~= seq![open, close]);
}

proof fn nested_argument_events<'a>(c: spec_fn(QueryEvent<'a>) -> Option<QueryEvent<'a>>, f: &'a Field, n: int)
    requires
        c == (|e: QueryEvent<'a>| query_closer(e)),
    ensures
        nested_by(c, argument_events(f, n)),
    decreases n,
{
    if n <= 0 || n > f.arguments@.len() {
        nested_by_empty(c, argument_events(f, n));
    } else {
        let a = &f.arguments@[n - 1];
        nested_argument_events(c, f, n - 1);
        query_leaf(c, QueryEvent::EnterFieldArgument(&a.0, &a.1, f), QueryEvent::LeaveFieldArgument(&a.0, &a.1, f));
        nested_by_append(c, argument_events(f, n - 1), seq![
            QueryEvent::EnterFieldArgument(&a.0, &a.1, f),
            QueryEvent::LeaveFieldArgument(&a.0, &a.1, f),
        ]);
    }
}

proof fn nested_selection_set_events<'a>(c: spec_fn(QueryEvent<'a>) -> Option<QueryEvent<'a>>, ss: &'a SelectionSet, n: int)
    requires
        c == (|e: QueryEvent<'a>| query_closer(e)),
    ensures
        nested_by(c, selection_set_events(ss, n)),
    decreases ss, if n < 0 { 1int } else { 0int }, n,
{
    if n < 0 {
        nested_selection_set_events(c, ss, ss.items@.len() as int);
        nested_by_pair(c, QueryEvent::EnterSelectionSet(ss), selection_set_events(ss, ss.items@.len() as int), QueryEvent::LeaveSelectionSet(ss));
    } else if n == 0 || n > ss.items@.len() {
        nested_by_empty(c, selection_set_events(ss, n));
    } else {
        let sel = &ss.items@[n - 1];
        let prev = selection_set_events(ss, n - 1);
        nested_selection_set_events(c, ss, n - 1);
        let inner = match sel {
            Selection::Field(f) => seq![QueryEvent::EnterField(f)] + argument_events(f, f.arguments@.len() as int)
                + selection_set_events(&f.selection_set, -1) + seq![QueryEvent::LeaveField(f)],
            Selection::FragmentSpread(sp) => seq![
                QueryEvent::EnterFragmentSpread(sp),
                QueryEvent::LeaveFragmentSpread(sp),
            ],
            Selection::InlineFragment(i) => seq![QueryEvent::EnterInlineFragment(i)] + selection_set_events(
                &i.selection_set,
                -1,
            ) + seq![QueryEvent::LeaveInlineFragment(i)],
        };
        match sel {
            Selection::Field(f) => {
                nested_argument_events(c, f, f.arguments@.len() as int);
                nested_selection_set_events(c, &f.selection_set, -1);
                nested_by_append(c, argument_events(f, f.arguments@.len() as int), selection_set_events(&f.selection_set, -1));
                nested_by_pair(
                    c,
                    QueryEvent::EnterField(f),
                    argument_events(f, f.arguments@.len() as int) + selection_set_events(&f.selection_set, -1),
                    QueryEvent::LeaveField(f),
                );
                assert(inner =~= seq![QueryEvent::EnterField(f)] + (argument_events(f, f.arguments@.len() as int)
                    + selection_set_events(&f.selection_set, -1)) + seq![QueryEvent::LeaveField(f)]);
            },
            Selection::FragmentSpread(sp) => {
                query_leaf(c, QueryEvent::EnterFragmentSpread(sp), QueryEvent::LeaveFragmentSpread(sp));
            },
            Selection::InlineFragment(i) => {
                nested_selection_set_events(c, &i.selection_set, -1);
                nested_by_pair(c, QueryEvent::EnterInlineFragment(i), selection_set_events(&i.selection_set, -1), QueryEvent::LeaveInlineFragment(i));
            },
        }
        nested_by_pair(c, QueryEvent::EnterSelection(sel), inner, QueryEvent::LeaveSelection(sel));
        nested_by_append(c, prev, seq![QueryEvent::EnterSelection(sel)] + inner + seq![QueryEvent::LeaveSelection(sel)]);
        assert(selection_set_events(ss, n) =~= prev + (seq![QueryEvent::EnterSelection(sel)] + inner + seq![
            QueryEvent::LeaveSelection(sel),
        ]));
    }
}

proof fn nested_variable_events<'a>(
    c: spec_fn(QueryEvent<'a>) -> Option<QueryEvent<'a>>,
    vars: &'a Vec<VariableDefinition>,
    op: &'a OperationDefinition,
    n: int,
)
    requires
        c == (|e: QueryEvent<'a>| query_closer(e)),
    ensures
        nested_by(c, variable_events(vars, op, n)),
    decreases n,
{
    if n <= 0 || n > vars@.len() {
        nested_by_empty(c, variable_events(vars, op, n));
    } else {
        nested_variable_events(c, vars, op, n - 1);
        query_leaf(c, QueryEvent::EnterVariableDefinition(&vars@[n - 1], op), QueryEvent::LeaveVariableDefinition(&vars@[n - 1], op));
        nested_by_append(c, variable_events(vars, op, n - 1), seq![
            QueryEvent::EnterVariableDefinition(&vars@[n - 1], op),
            QueryEvent::LeaveVariableDefinition(&vars@[n - 1], op),
        ]);
    }
}

proof fn nested_operation_events<'a>(c: spec_fn(QueryEvent<'a>) -> Option<QueryEvent<'a>>, op: &'a OperationDefinition)
    requires
        c == (|e: QueryEvent<'a>| query_closer(e)),
    ensures
        nested_by(c, operation_events(op)),
{
    match op {
        OperationDefinition::Query(q) => {
            let v = variable_events(&q.variable_definitions, op, q.variable_definitions@.len() as int);
            let ss = selection_set_events(&q.selection_set, -1);
            nested_variable_events(c, &q.variable_definitions, op, q.variable_definitions@.len() as int);
            nested_selection_set_events(c, &q.selection_set, -1);
            nested_by_append(c, v, ss);
            nested_by_pair(c, QueryEvent::EnterQuery(q), v + ss, QueryEvent::LeaveQuery(q));
            assert(operation_events(op) =~= seq![QueryEvent::EnterQuery(q)] + (v + ss) + seq![QueryEvent::LeaveQuery(q)]);
        },
        OperationDefinition::Mutation(m) => {
            let v = variable_events(&m.variable_definitions, op, m.variable_definitions@.len() as int);
            let ss = selection_set_events(&m.selection_set, -1);
            nested_variable_events(c, &m.variable_definitions, op, m.variable_definitions@.len() as int);
            nested_selection_set_events(c, &m.selection_set, -1);
            nested_by_append(c, v, ss);
            nested_by_pair(c, QueryEvent::EnterMutation(m), v + ss, QueryEvent::LeaveMutation(m));
            assert(operation_events(op) =~= seq![QueryEvent::EnterMutation(m)] + (v + ss) + seq![QueryEvent::LeaveMutation(m)]);
        },
        OperationDefinition::Subscription(sub) => {
            let v = variable_events(&sub.variable_definitions, op, sub.variable_definitions@.len() as int);
            let ss = selection_set_events(&sub.selection_set, -1);
            nested_variable_events(c, &sub.variable_definitions, op, sub.variable_definitions@.len() as int);
            nested_selection_set_events(c, &sub.selection_set, -1);
            nested_by_append(c, v, ss);
            nested_by_pair(c, QueryEvent::EnterSubscription(sub), v + ss, QueryEvent::LeaveSubscription(sub));
            assert(operation_events(op) =~= seq![QueryEvent::EnterSubscription(sub)] + (v + ss) + seq![
                QueryEvent::LeaveSubscription(sub),
            ]);
        },
        OperationDefinition::SelectionSet(ss) => {
            nested_selection_set_events(c, ss, -1);
            nested_by_pair(c, QueryEvent::EnterSelectionSet(ss), selection_set_events(ss, -1), QueryEvent::LeaveSelectionSet(ss));
        },
    }
}

proof fn nested_definition_events<'a>(c: spec_fn(QueryEvent<'a>) -> Option<QueryEvent<'a>>, def: &'a Definition)
    requires
        c == (|e: QueryEvent<'a>| query_closer(e)),
    ensures
        nested_by(c, query_definition_events(def)),
{
    let inner = match def {
        Definition::Fragment(f) => seq![QueryEvent::EnterFragmentDefinition(f)] + selection_set_events(
            &f.selection_set,
            -1,
        ) + seq![QueryEvent::LeaveFragmentDefinition(f)],
        Definition::Operation(op) => seq![QueryEvent::EnterOperationDefinition(op)] + operation_events(op) + seq![
            QueryEvent::LeaveOperationDefinition(op),
        ],
    };
    match def {
        Definition::Fragment(f) => {
            nested_selection_set_events(c, &f.selection_set, -1);
            nested_by_pair(c, QueryEvent::EnterFragmentDefinition(f), selection_set_events(&f.selection_set, -1), QueryEvent::LeaveFragmentDefinition(f));
        },
        Definition::Operation(op) => {
            nested_operation_events(c, op);
            nested_by_pair(c, QueryEvent::EnterOperationDefinition(op), operation_events(op), QueryEvent::LeaveOperationDefinition(op));
        },
    }
    nested_by_pair(c, QueryEvent::EnterDefinition(def), inner, QueryEvent::LeaveDefinition(def));
}

proof fn nested_query_events_upto<'a>(c: spec_fn(QueryEvent<'a>) -> Option<QueryEvent<'a>>, doc: &'a Document, n: int)
    requires
        c == (|e: QueryEvent<'a>| query_closer(e)),
    ensures
        nested_by(c, query_events_upto(doc, n)),
    decreases n,
{
    if n <= 0 || n > doc.definitions@.len() {
        nested_by_empty(c, query_events_upto(doc, n));
    } else {
        nested_query_events_upto(c, doc, n - 1);
        nested_definition_events(c, &doc.definitions@[n - 1]);
        nested_by_append(c, query_events_upto(doc, n - 1), query_definition_events(&doc.definitions@[n - 1]));
    }
}

/// Walking an operation document with a query visitor leaves every node
/// that it enters, after the nodes inside it and before the next node beside
/// it: the enter and leave hooks come in properly nested pairs.
pub proof fn query_walk_is_well_nested<'a>(doc: &'a Document)
    ensures
        nested_by((|e: QueryEvent<'a>| query_closer(e)), document_events(doc)),
{
    let c = |e: QueryEvent<'a>| query_closer(e);
    nested_query_events_upto(c, doc, doc.definitions@.len() as int);
    nested_by_pair(c, QueryEvent::EnterDocument(doc), query_events(doc), QueryEvent::LeaveDocument(doc));
}

/// Appends the events of a selection set.
#[verifier::loop_isolation(false)]
pub fn push_selection_set_events<'a>(ss: &'a SelectionSet, out: &mut Vec<QueryEvent<'a>>)
    ensures
        final(out)@ == old(out)@ + selection_set_events(ss, -1),
    decreases ss,
{
    let ghost start = out@;
    out.push(QueryEvent::EnterSelectionSet(ss));
    let mut i: usize = 0;
    while i < ss.items.len()
        invariant
            i <= ss.items@.len(),
            out@ == start + seq![QueryEvent::EnterSelectionSet(ss)] + selection_set_events(ss, i as int),
        decreases ss.items@.len() - i,
    {
        let ghost before = out@;
        let sel = &ss.items[i];
        out.push(QueryEvent::EnterSelection(sel));
        match sel {
            Selection::Field(f) => {
                out.push(QueryEvent::EnterField(f));
                let ghost mid = out@;
                let mut j: usize = 0;
                while j < f.arguments.len()
                    invariant
                        j <= f.arguments@.len(),
                        out@ == mid + argument_events(f, j as int),
                    decreases f.arguments@.len() - j,
                {
                    out.push(QueryEvent::EnterFieldArgument(&f.arguments[j].0, &f.arguments[j].1, f));
                    out.push(QueryEvent::LeaveFieldArgument(&f.arguments[j].0, &f.arguments[j].1, f));
                    j = j + 1;
                }
                push_selection_set_events(&f.selection_set, out);
                out.push(QueryEvent::LeaveField(f));
            },
            Selection::FragmentSpread(s) => {
                out.push(QueryEvent::EnterFragmentSpread(s));
                out.push(QueryEvent::LeaveFragmentSpread(s));
            },
            Selection::InlineFragment(inl) => {
                out.push(QueryEvent::EnterInlineFragment(inl));
                push_selection_set_events(&inl.selection_set, out);
                out.push(QueryEvent::LeaveInlineFragment(inl));
            },
        }
        out.push(QueryEvent::LeaveSelection(sel));
        assert(out@ =~= start + seq![QueryEvent::EnterSelectionSet(ss)] + selection_set_events(ss, i as int + 1));
        i = i + 1;
    }
    out.push(QueryEvent::LeaveSelectionSet(ss));
    assert(out@ =~= start + selection_set_events(ss, -1));
}

/// Appends the events of the variable definitions of an operation.
fn push_variable_events<'a>(
    vars: &'a Vec<VariableDefinition>,
    op: &'a OperationDefinition,
    out: &mut Vec<QueryEvent<'a>>,
)
    ensures
        final(out)@ == old(out)@ + variable_events(vars, op, vars@.len() as int),
{
    let ghost start = out@;
    let mut i: usize = 0;
    while i < vars.len()
        invariant
            i <= vars@.len(),
            out@ == start + variable_events(vars, op, i as int),
        decreases vars@.len() - i,
    {
        out.push(QueryEvent::EnterVariableDefinition(&vars[i], op));
        out.push(QueryEvent::LeaveVariableDefinition(&vars[i], op));
        assert(out@ =~= start + variable_events(vars, op, i as int + 1));
        i = i + 1;
    }
}

/// Appends the events of an operation between entering and leaving it.
fn push_operation_events<'a>(op: &'a OperationDefinition, out: &mut Vec<QueryEvent<'a>>)
    ensures
        final(out)@ == old(out)@ + operation_events(op),
{
    let ghost start = out@;
    match op {
        OperationDefinition::Query(q) => {
            out.push(QueryEvent::EnterQuery(q));
            push_variable_events(&q.variable_definitions, op, out);
            push_selection_set_events(&q.selection_set, out);
            out.push(QueryEvent::LeaveQuery(q));
        },
        OperationDefinition::Mutation(m) => {
            out.push(QueryEvent::EnterMutation(m));
            push_variable_events(&m.variable_definitions, op, out);
            push_selection_set_events(&m.selection_set, out);
            out.push(QueryEvent::LeaveMutation(m));
        },
        OperationDefinition::Subscription(sub) => {
            out.push(QueryEvent::EnterSubscription(sub));
            push_variable_events(&sub.variable_definitions, op, out);
            push_selection_set_events(&sub.selection_set, out);
            out.push(QueryEvent::LeaveSubscription(sub));
        },
        OperationDefinition::SelectionSet(ss) => {
            out.push(QueryEvent::EnterSelectionSet(ss));
            push_selection_set_events(ss, out);
            out.push(QueryEvent::LeaveSelectionSet(ss));
        },
    }
    assert(out@ =~= start + operation_events(op));
}

/// Appends the events of one definition.
fn push_definition_events<'a>(def: &'a Definition, out: &mut Vec<QueryEvent<'a>>)
    ensures
        final(out)@ == old(out)@ + query_definition_events(def),
{
    let ghost start = out@;
    out.push(QueryEvent::EnterDefinition(def));
    match def {
        Definition::Fragment(f) => {
            out.push(QueryEvent::EnterFragmentDefinition(f));
            push_selection_set_events(&f.selection_set, out);
            out.push(QueryEvent::LeaveFragmentDefinition(f));
        },
        Definition::Operation(op) => {
            out.push(QueryEvent::EnterOperationDefinition(op));
            push_operation_events(op, out);
            out.push(QueryEvent::LeaveOperationDefinition(op));
        },
    }
    out.push(QueryEvent::LeaveDefinition(def));
    assert(out@ =~= start + query_definition_events(def));
}

/// The events of a walk over an operation document, in order.
pub fn query_visit_events<'a>(document: &'a Document) -> (r: Vec<QueryEvent<'a>>)
    ensures
        r@ == query_events(document),
{
    let mut out: Vec<QueryEvent<'a>> = Vec::new();
    let mut i: usize = 0;
    while i < document.definitions.len()
        invariant
            i <= document.definitions@.len(),
            out@ == query_events_upto(document, i as int),
        decreases document.definitions@.len() - i,
    {
        push_definition_events(&document.definitions[i], &mut out);
        i = i + 1;
    }
    out
}

/// A visitor of operation documents by their syntax alone: each hook is
/// called when the walk enters or leaves a node of its kind. What a hook does
/// to the context is `after_query_event` of its event; a hook that a visitor
/// does not define hands its event to `on_query_event`.
pub trait QueryVisitor<T = DefaultVisitorContext> {
    /// The context after the hook of `event` has run on `visitor_context`.
    /// Unless a visitor says otherwise, its hooks change nothing.
    open spec fn after_query_event<'a>(&self, visitor_context: T, event: QueryEvent<'a>) -> T {
        visitor_context
    }

    /// What the hooks that the visitor does not define do with their event.
    fn on_query_event<'a>(&self, event: QueryEvent<'a>, visitor_context: &mut T)
        ensures
            *final(visitor_context) == self.after_query_event(*old(visitor_context), event),
    ;

    /// Walks a document: the document hook, a hook for each event of the
    /// walk in order, and the closing document hook.
    fn visit_document<'a>(&self, node: &'a Document, visitor_context: &mut T)
        ensures
            *final(visitor_context) == fold_events(
                (|c: T, e: QueryEvent<'a>| self.after_query_event(c, e)),
                document_events(node),
                *old(visitor_context),
            ),
    {
        let ghost step = |c: T, e: QueryEvent<'a>| self.after_query_event(c, e);
        let ghost start = *visitor_context;
        self.enter_document(node, visitor_context);
        let events = query_visit_events(node);
        let ghost mid = *visitor_context;
        self.dispatch_events(&events, visitor_context);
        self.leave_document(node, visitor_context);
        proof {
            let first = seq![QueryEvent::EnterDocument(node)];
            assert(fold_events(step, first, start) == mid) by {
                fold_events_push(step, Seq::<QueryEvent<'a>>::empty(), QueryEvent::EnterDocument(node), start);
                assert(Seq::<QueryEvent<'a>>::empty().push(QueryEvent::EnterDocument(node)) =~= first);
            }
            fold_events_append(step, first, events@, start);
            fold_events_push(step, first + events@, QueryEvent::LeaveDocument(node), start);
            assert((first + events@).push(QueryEvent::LeaveDocument(node)) =~= document_events(node));
        }
    }

    /// Walks one selection set: a hook for each event of its walk in order.
    fn __visit_selection_set<'a>(&self, node: &'a SelectionSet, visitor_context: &mut T)
        ensures
            *final(visitor_context) == fold_events(
                (|c: T, e: QueryEvent<'a>| self.after_query_event(c, e)),
                selection_set_events(node, -1),
                *old(visitor_context),
            ),
    {
        let mut events: Vec<QueryEvent<'a>> = Vec::new();
        push_selection_set_events(node, &mut events);
        assert(events@ =~= selection_set_events(node, -1));
        self.dispatch_events(&events, visitor_context);
    }

    /// Calls the hook of each event, in order.
    fn dispatch_events<'a>(&self, events: &Vec<QueryEvent<'a>>, visitor_context: &mut T)
        ensures
            *final(visitor_context) == fold_events(
                (|c: T, e: QueryEvent<'a>| self.after_query_event(c, e)),
                events@,
                *old(visitor_context),
            ),
    {
        let ghost step = |c: T, e: QueryEvent<'a>| self.after_query_event(c, e);
        let ghost start = *visitor_context;
        let mut i: usize = 0;
        while i < events.len()
            invariant
                i <= events@.len(),
                step == (|c: T, e: QueryEvent<'a>| self.after_query_event(c, e)),
                *visitor_context == fold_events(step, events@.take(i as int), start),
            decreases events@.len() - i,
        {
            let ev = events[i];
            match ev {
                QueryEvent::EnterDefinition(node) => self.enter_definition(node, visitor_context),
                QueryEvent::LeaveDefinition(node) => self.leave_definition(node, visitor_context),
                QueryEvent::EnterFragmentDefinition(node) => self.enter_fragment_definition(node, visitor_context),
                QueryEvent::LeaveFragmentDefinition(node) => self.leave_fragment_definition(node, visitor_context),
                QueryEvent::EnterOperationDefinition(node) => self.enter_operation_definition(node, visitor_context),
                QueryEvent::LeaveOperationDefinition(node) => self.leave_operation_definition(node, visitor_context),
                QueryEvent::EnterQuery(node) => self.enter_query(node, visitor_context),
                QueryEvent::LeaveQuery(node) => self.leave_query(node, visitor_context),
                QueryEvent::EnterMutation(node) => self.enter_mutation(node, visitor_context),
                QueryEvent::LeaveMutation(node) => self.leave_mutation(node, visitor_context),
                QueryEvent::EnterSubscription(node) => self.enter_subscription(node, visitor_context),
                QueryEvent::LeaveSubscription(node) => self.leave_subscription(node, visitor_context),
                QueryEvent::EnterSelectionSet(node) => self.enter_selection_set(node, visitor_context),
                QueryEvent::LeaveSelectionSet(node) => self.leave_selection_set(node, visitor_context),
                QueryEvent::EnterVariableDefinition(node, parent_operation) => self.enter_variable_definition(node, parent_operation, visitor_context),
                QueryEvent::LeaveVariableDefinition(node, parent_operation) => self.leave_variable_definition(node, parent_operation, visitor_context),
                QueryEvent::EnterSelection(node) => self.enter_selection(node, visitor_context),
                QueryEvent::LeaveSelection(node) => self.leave_selection(node, visitor_context),
                QueryEvent::EnterField(node) => self.enter_field(node, visitor_context),
                QueryEvent::LeaveField(node) => self.leave_field(node, visitor_context),
                QueryEvent::EnterFieldArgument(name, value, parent_field) => self.enter_field_argument(name, value, parent_field, visitor_context),
                QueryEvent::LeaveFieldArgument(name, value, parent_field) => self.leave_field_argument(name, value, parent_field, visitor_context),
                QueryEvent::EnterFragmentSpread(node) => self.enter_fragment_spread(node, visitor_context),
                QueryEvent::LeaveFragmentSpread(node) => self.leave_fragment_spread(node, visitor_context),
                QueryEvent::EnterInlineFragment(node) => self.enter_inline_fragment(node, visitor_context),
                QueryEvent::LeaveInlineFragment(node) => self.leave_inline_fragment(node, visitor_context),
                QueryEvent::EnterDocument(d) => self.enter_document(d, visitor_context),
                QueryEvent::LeaveDocument(d) => self.leave_document(d, visitor_context),
            }
            proof {
                fold_events_push(step, events@.take(i as int), events@[i as int], start);
                assert(events@.take(i as int).push(events@[i as int]) =~= events@.take(i as int + 1));
            }
            i = i + 1;
        }
        assert(events@.take(events@.len() as int) =~= events@);
    }

    fn enter_document(&self, _node: &Document, visitor_context: &mut T)
        ensures
            *final(visitor_context) == self.after_query_event(*old(visitor_context), QueryEvent::EnterDocument(_node)),
    {
        self.on_query_event(QueryEvent::EnterDocument(_node), visitor_context)
    }

    fn leave_document(&self, _node: &Document, visitor_context: &mut T)
        ensures
            *final(visitor_context) == self.after_query_event(*old(visitor_context), QueryEvent::LeaveDocument(_node)),
    {
        self.on_query_event(QueryEvent::LeaveDocument(_node), visitor_context)
    }

    fn enter_definition(&self, _node: &Definition, visitor_context: &mut T)
        ensures
            *final(visitor_context) == self.after_query_event(*old(visitor_context), QueryEvent::EnterDefinition(_node)),
    {
        self.on_query_event(QueryEvent::EnterDefinition(_node), visitor_context)
    }

    fn leave_definition(&self, _node: &Definition, visitor_context: &mut T)
        ensures
            *final(visitor_context) == self.after_query_event(*old(visitor_context), QueryEvent::LeaveDefinition(_node)),
    {
        self.on_query_event(QueryEvent::LeaveDefinition(_node), visitor_context)
    }

    fn enter_fragment_definition(&self, _node: &FragmentDefinition, visitor_context: &mut T)
        ensures
            *final(visitor_context) == self.after_query_event(*old(visitor_context), QueryEvent::EnterFragmentDefinition(_node)),
    {
        self.on_query_event(QueryEvent::EnterFragmentDefinition(_node), visitor_context)
    }

    fn leave_fragment_definition(&self, _node: &FragmentDefinition, visitor_context: &mut T)
        ensures
            *final(visitor_context) == self.after_query_event(*old(visitor_context), QueryEvent::LeaveFragmentDefinition(_node)),
    {
        self.on_query_event(QueryEvent::LeaveFragmentDefinition(_node), visitor_context)
    }

    fn enter_operation_definition(&self, _node: &OperationDefinition, visitor_context: &mut T)
        ensures
            *final(visitor_context) == self.after_query_event(*old(visitor_context), QueryEvent::EnterOperationDefinition(_node)),
    {
        self.on_query_event(QueryEvent::EnterOperationDefinition(_node), visitor_context)
    }

    fn leave_operation_definition(&self, _node: &OperationDefinition, visitor_context: &mut T)
        ensures
            *final(visitor_context) == self.after_query_event(*old(visitor_context), QueryEvent::LeaveOperationDefinition(_node)),
    {
        self.on_query_event(QueryEvent::LeaveOperationDefinition(_node), visitor_context)
    }

    fn enter_query(&self, _node: &Query, visitor_context: &mut T)
        ensures
            *final(visitor_context) == self.after_query_event(*old(visitor_context), QueryEvent::EnterQuery(_node)),
    {
        self.on_query_event(QueryEvent::EnterQuery(_node), visitor_context)
    }

    fn leave_query(&self, _node: &Query, visitor_context: &mut T)
        ensures
            *final(visitor_context) == self.after_query_event(*old(visitor_context), QueryEvent::LeaveQuery(_node)),
    {
        self.on_query_event(QueryEvent::LeaveQuery(_node), visitor_context)
    }

    fn enter_mutation(&self, _node: &Mutation, visitor_context: &mut T)
        ensures
            *final(visitor_context) == self.after_query_event(*old(visitor_context), QueryEvent::EnterMutation(_node)),
    {
        self.on_query_event(QueryEvent::EnterMutation(_node), visitor_context)
    }

    fn leave_mutation(&self, _node: &Mutation, visitor_context: &mut T)
        ensures
            *final(visitor_context) == self.after_query_event(*old(visitor_context), QueryEvent::LeaveMutation(_node)),
    {
        self.on_query_event(QueryEvent::LeaveMutation(_node), visitor_context)
    }

    fn enter_subscription(&self, _node: &Subscription, visitor_context: &mut T)
        ensures
            *final(visitor_context) == self.after_query_event(*old(visitor_context), QueryEvent::EnterSubscription(_node)),
    {
        self.on_query_event(QueryEvent::EnterSubscription(_node), visitor_context)
    }

    fn leave_subscription(&self, _node: &Subscription, visitor_context: &mut T)
        ensures
            *final(visitor_context) == self.after_query_event(*old(visitor_context), QueryEvent::LeaveSubscription(_node)),
    {
        self.on_query_event(QueryEvent::LeaveSubscription(_node), visitor_context)
    }

    fn enter_selection_set(&self, _node: &SelectionSet, visitor_context: &mut T)
        ensures
            *final(visitor_context) == self.after_query_event(*old(visitor_context), QueryEvent::EnterSelectionSet(_node)),
    {
        self.on_query_event(QueryEvent::EnterSelectionSet(_node), visitor_context)
    }

    fn leave_selection_set(&self, _node: &SelectionSet, visitor_context: &mut T)
        ensures
            *final(visitor_context) == self.after_query_event(*old(visitor_context), QueryEvent::LeaveSelectionSet(_node)),
    {
        self.on_query_event(QueryEvent::LeaveSelectionSet(_node), visitor_context)
    }

    fn enter_variable_definition(&self, _node: &VariableDefinition, _parent_operation: &OperationDefinition, visitor_context: &mut T)
        ensures
            *final(visitor_context) == self.after_query_event(*old(visitor_context), QueryEvent::EnterVariableDefinition(_node, _parent_operation)),
    {
        self.on_query_event(QueryEvent::EnterVariableDefinition(_node, _parent_operation), visitor_context)
    }

    fn leave_variable_definition(&self, _node: &VariableDefinition, _parent_operation: &OperationDefinition, visitor_context: &mut T)
        ensures
            *final(visitor_context) == self.after_query_event(*old(visitor_context), QueryEvent::LeaveVariableDefinition(_node, _parent_operation)),
    {
        self.on_query_event(QueryEvent::LeaveVariableDefinition(_node, _parent_operation), visitor_context)
    }

    fn enter_selection(&self, _node: &Selection, visitor_context: &mut T)
        ensures
            *final(visitor_context) == self.after_query_event(*old(visitor_context), QueryEvent::EnterSelection(_node)),
    {
        self.on_query_event(QueryEvent::EnterSelection(_node), visitor_context)
    }

    fn leave_selection(&self, _node: &Selection, visitor_context: &mut T)
        ensures
            *final(visitor_context) == self.after_query_event(*old(visitor_context), QueryEvent::LeaveSelection(_node)),
    {
        self.on_query_event(QueryEvent::LeaveSelection(_node), visitor_context)
    }

    fn enter_field(&self, _node: &Field, visitor_context: &mut T)
        ensures
            *final(visitor_context) == self.after_query_event(*old(visitor_context), QueryEvent::EnterField(_node)),
    {
        self.on_query_event(QueryEvent::EnterField(_node), visitor_context)
    }

    fn leave_field(&self, _node: &Field, visitor_context: &mut T)
        ensures
            *final(visitor_context) == self.after_query_event(*old(visitor_context), QueryEvent::LeaveField(_node)),
    {
        self.on_query_event(QueryEvent::LeaveField(_node), visitor_context)
    }

    fn enter_field_argument(&self, _name: &String, _value: &Value, _parent_field: &Field, visitor_context: &mut T)
        ensures
            *final(visitor_context) == self.after_query_event(*old(visitor_context), QueryEvent::EnterFieldArgument(_name, _value, _parent_field)),
    {
        self.on_query_event(QueryEvent::EnterFieldArgument(_name, _value, _parent_field), visitor_context)
    }

    fn leave_field_argument(&self, _name: &String, _value: &Value, _parent_field: &Field, visitor_context: &mut T)
        ensures
            *final(visitor_context) == self.after_query_event(*old(visitor_context), QueryEvent::LeaveFieldArgument(_name, _value, _parent_field)),
    {
        self.on_query_event(QueryEvent::LeaveFieldArgument(_name, _value, _parent_field), visitor_context)
    }

    fn enter_fragment_spread(&self, _node: &FragmentSpread, visitor_context: &mut T)
        ensures
            *final(visitor_context) == self.after_query_event(*old(visitor_context), QueryEvent::EnterFragmentSpread(_node)),
    {
        self.on_query_event(QueryEvent::EnterFragmentSpread(_node), visitor_context)
    }

    fn leave_fragment_spread(&self, _node: &FragmentSpread, visitor_context: &mut T)
        ensures
            *final(visitor_context) == self.after_query_event(*old(visitor_context), QueryEvent::LeaveFragmentSpread(_node)),
    {
        self.on_query_event(QueryEvent::LeaveFragmentSpread(_node), visitor_context)
    }

    fn enter_inline_fragment(&self, _node: &InlineFragment, visitor_context: &mut T)
        ensures
            *final(visitor_context) == self.after_query_event(*old(visitor_context), QueryEvent::EnterInlineFragment(_node)),
    {
        self.on_query_event(QueryEvent::EnterInlineFragment(_node), visitor_context)
    }

    fn leave_inline_fragment(&self, _node: &InlineFragment, visitor_context: &mut T)
        ensures
            *final(visitor_context) == self.after_query_event(*old(visitor_context), QueryEvent::LeaveInlineFragment(_node)),
    {
        self.on_query_event(QueryEvent::LeaveInlineFragment(_node), visitor_context)
    }
}

} // verus!
