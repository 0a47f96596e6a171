//! The fields that a selection set selects on a given type, through inline
//! fragments and fragment spreads whose conditions the type meets.
use vstd::prelude::*;

use crate::ast::ext::{contains_name, interfaces_of, names_contain, type_def_name, type_named, SchemaDocumentExtension, TypeDefinitionExtension, ImplementingInterfaceExtension};
use crate::ast::operation_visitor::{condition_name, known_fragment, OperationVisitorContext};
use crate::static_graphql::query::{Document, Field, Selection, SelectionSet, TypeCondition};
use crate::static_graphql::schema::{self, TypeDefinition};
use crate::text::str_eq;
use crate::validation::rules::names::texts;
use crate::validation::rules::scopes::{contains_name as contains_text, count_reach_rounds, fragment_count};

verus! {

/// Whether a fragment with type condition `cond` (none: always) applies to
/// the type `current`: the condition names `current`, an interface that it
/// implements, or a union that has it as a member.
pub open spec fn condition_matches(schema: &schema::Document, cond: Option<Seq<char>>, current: &TypeDefinition) -> bool {
    match cond {
        None => true,
        Some(name) => match type_named(schema, name) {
            Some(c) => if type_def_name(c) == type_def_name(current) {
                true
            } else {
                match c {
                    TypeDefinition::Interface(i) => names_contain(interfaces_of(current), i.name@),
                    TypeDefinition::Union(u) => names_contain(u.types@, type_def_name(current)),
                    _ => false,
                }
            },
            None => false,
        },
    }
}

/// The name of an optional type condition.
pub open spec fn optional_condition_name(tc: &Option<TypeCondition>) -> Option<Seq<char>> {
    match tc {
        Some(TypeCondition::On(n)) => Some(n@),
        None => None,
    }
}

/// The fields that the first `n` items of `ss` select on `parent`, in order,
/// and the fragment names visited after them, given those visited before.
/// A fragment is entered at most once, and at most `fuel` fragments deep.
pub open spec fn collect_items<'a>(
    schema: &'a schema::Document,
    doc: &'a Document,
    ss: &'a SelectionSet,
    n: int,
    parent: &TypeDefinition,
    visited: Seq<Seq<char>>,
    fuel: nat,
) -> (Seq<&'a Field>, Seq<Seq<char>>)
    decreases fuel, ss, n,
{
    if n <= 0 || n > ss.items@.len() {
        (Seq::empty(), visited)
    } else {
        let (prev, vis) = collect_items(schema, doc, ss, n - 1, parent, visited, fuel);
        match &ss.items@[n - 1] {
            Selection::Field(f) => (prev.push(f), vis),
            Selection::InlineFragment(i) => if condition_matches(schema, optional_condition_name(&i.type_condition), parent) {
                let (more, vis2) = collect_items(
                    schema,
                    doc,
                    &i.selection_set,
                    i.selection_set.items@.len() as int,
                    parent,
                    vis,
                    fuel,
                );
                (prev + more, vis2)
            } else {
                (prev, vis)
            },
            Selection::FragmentSpread(sp) => if vis.contains(sp.fragment_name@) {
                (prev, vis)
            } else {
                let vis1 = vis.push(sp.fragment_name@);
                match known_fragment(doc, sp.fragment_name@) {
                    Some(fr) => if fuel > 0 && condition_matches(
                        schema,
                        Some(condition_name(&fr.type_condition)),
                        parent,
                    ) {
                        let (more, vis2) = collect_items(
                            schema,
                            doc,
                            &fr.selection_set,
                            fr.selection_set.items@.len() as int,
                            parent,
                            vis1,
                            (fuel - 1) as nat,
                        );
                        (prev + more, vis2)
                    } else {
                        (prev, vis1)
                    },
                    None => (prev, vis1),
                }
            },
        }
    }
}

/// The fields that a selection set selects on `parent`, in order.
pub open spec fn collected_fields<'a>(
    schema: &'a schema::Document,
    doc: &'a Document,
    ss: &'a SelectionSet,
    parent: &TypeDefinition,
) -> Seq<&'a Field> {
    collect_items(
        schema,
        doc,
        ss,
        ss.items@.len() as int,
        parent,
        Seq::empty(),
        fragment_count(doc, doc.definitions@.len() as int),
    ).0
}

/// Whether every item of the first `n` of a selection set is a field.
pub open spec fn only_fields(ss: &SelectionSet, n: int) -> bool {
    forall|k: int| 0 <= k < n ==> #[trigger] ss.items@[k] is Field
}

/// Collecting never forgets a fragment already visited: the names visited
/// before are a prefix of those visited after.
pub proof fn collect_items_keeps_visited<'a>(
    schema: &'a schema::Document,
    doc: &'a Document,
    ss: &'a SelectionSet,
    n: int,
    parent: &TypeDefinition,
    visited: Seq<Seq<char>>,
    fuel: nat,
)
    ensures
        visited.len() <= collect_items(schema, doc, ss, n, parent, visited, fuel).1.len(),
        collect_items(schema, doc, ss, n, parent, visited, fuel).1.subrange(0, visited.len() as int) == visited,
    decreases fuel, ss, n,
{
    if n <= 0 || n > ss.items@.len() {
        assert(visited.subrange(0, visited.len() as int) =~= visited);
    } else {
        let (prev, vis) = collect_items(schema, doc, ss, n - 1, parent, visited, fuel);
        collect_items_keeps_visited(schema, doc, ss, n - 1, parent, visited, fuel);
        match &ss.items@[n - 1] {
            Selection::Field(f) => {},
            Selection::InlineFragment(i) => if condition_matches(schema, optional_condition_name(&i.type_condition), parent) {
                collect_items_keeps_visited(schema, doc, &i.selection_set, i.selection_set.items@.len() as int, parent, vis, fuel);
                let vis2 = collect_items(schema, doc, &i.selection_set, i.selection_set.items@.len() as int, parent, vis, fuel).1;
                assert(vis2.subrange(0, visited.len() as int) =~= vis2.subrange(0, vis.len() as int).subrange(0, visited.len() as int));
            },
            Selection::FragmentSpread(sp) => if vis.contains(sp.fragment_name@) {
            } else {
                let vis1 = vis.push(sp.fragment_name@);
                assert(vis1.subrange(0, visited.len() as int) =~= vis.subrange(0, visited.len() as int));
                match known_fragment(doc, sp.fragment_name@) {
                    Some(fr) => if fuel > 0 && condition_matches(schema, Some(condition_name(&fr.type_condition)), parent) {
                        collect_items_keeps_visited(
                            schema,
                            doc,
                            &fr.selection_set,
                            fr.selection_set.items@.len() as int,
                            parent,
                            vis1,
                            (fuel - 1) as nat,
                        );
                        let vis2 = collect_items(
                            schema,
                            doc,
                            &fr.selection_set,
                            fr.selection_set.items@.len() as int,
                            parent,
                            vis1,
                            (fuel - 1) as nat,
                        ).1;
                        assert(vis2.subrange(0, visited.len() as int) =~= vis2.subrange(0, vis1.len() as int).subrange(
                            0,
                            visited.len() as int,
                        ));
                    } else {
                    },
                    None => {},
                }
            },
        }
    }
}

/// A selection set that holds only fields selects exactly those fields, in
/// order, and visits no fragment.
pub proof fn collect_items_of_fields<'a>(
    schema: &'a schema::Document,
    doc: &'a Document,
    ss: &'a SelectionSet,
    n: int,
    parent: &TypeDefinition,
    visited: Seq<Seq<char>>,
    fuel: nat,
)
    requires
        0 <= n <= ss.items@.len(),
        only_fields(ss, n),
    ensures
        collect_items(schema, doc, ss, n, parent, visited, fuel).1 == visited,
        collect_items(schema, doc, ss, n, parent, visited, fuel).0.len() == n,
        forall|k: int|
            0 <= k < n ==> Selection::Field(*#[trigger] collect_items(schema, doc, ss, n, parent, visited, fuel).0[k])
                == ss.items@[k],
    decreases n,
{
    if n > 0 {
        assert(only_fields(ss, n - 1));
        collect_items_of_fields(schema, doc, ss, n - 1, parent, visited, fuel);
        assert(ss.items@[n - 1] is Field);
    }
}

/// Whether a fragment with the type condition `fragment_condition` applies
/// to the type `current_selection_set_type`.
pub fn does_fragment_condition_match(
    fragment_condition: Option<&String>,
    current_selection_set_type: &TypeDefinition,
    schema: &schema::Document,
) -> (r: bool)
    ensures
        r == condition_matches(
            schema,
            match fragment_condition {
                Some(n) => Some(n@),
                None => None,
            },
            current_selection_set_type,
        ),
{
    match fragment_condition {
        Some(cond_name) => match schema.type_by_name(cond_name.as_str()) {
            Some(conditional_type) => {
                if str_eq(conditional_type.name(), current_selection_set_type.name()) {
                    return true;
                }
                match conditional_type {
                    TypeDefinition::Interface(interface_type) => {
                        let interfaces = current_selection_set_type.interfaces();
                        let found = contains_name(&interfaces, interface_type.name.as_str());
                        assert(names_contain(interfaces@, interface_type.name@) == names_contain(
                            interfaces_of(current_selection_set_type),
                            interface_type.name@,
                        )) by {
                            if names_contain(interfaces@, interface_type.name@) {
                                let j = choose|j: int| 0 <= j < interfaces@.len() && #[trigger] interfaces@[j]@ == interface_type.name@;
                                assert(interfaces_of(current_selection_set_type)[j]@ == interface_type.name@);
                            }
                            if names_contain(interfaces_of(current_selection_set_type), interface_type.name@) {
                                let j = choose|j: int| 0 <= j < interfaces_of(current_selection_set_type).len() && #[trigger] interfaces_of(current_selection_set_type)[j]@ == interface_type.name@;
                                assert(interfaces@[j]@ == interface_type.name@);
                            }
                        }
                        found
                    },
                    TypeDefinition::Union(union_type) => contains_name(
                        &union_type.types,
                        current_selection_set_type.name(),
                    ),
                    _ => false,
                }
            },
            None => false,
        },
        None => true,
    }
}

/// Appends the fields that `selection_set` selects on `parent_type`, and the
/// fragment names it visits.
pub fn collect_fields_inner<'a>(
    selection_set: &'a SelectionSet,
    parent_type: &TypeDefinition,
    context: &OperationVisitorContext<'a>,
    result_arr: &mut Vec<&'a Field>,
    visited_fragments_names: &mut Vec<&'a String>,
    fuel: usize,
)
    ensures
        ({
            let (fields, visited) = collect_items(
                context.schema,
                context.operation,
                selection_set,
                selection_set.items@.len() as int,
                parent_type,
                texts(old(visited_fragments_names)@),
                fuel as nat,
            );
            &&& final(result_arr)@ == old(result_arr)@ + fields
            &&& texts(final(visited_fragments_names)@) == visited
        }),
    decreases fuel, selection_set,
{
    let ghost start = result_arr@;
    let ghost visited0 = texts(visited_fragments_names@);
    let mut i: usize = 0;
    while i < selection_set.items.len()
        invariant
            i <= selection_set.items@.len(),
            ({
                let (fields, visited) = collect_items(
                    context.schema,
                    context.operation,
                    selection_set,
                    i as int,
                    parent_type,
                    visited0,
                    fuel as nat,
                );
                &&& result_arr@ == start + fields
                &&& texts(visited_fragments_names@) == visited
            }),
        decreases selection_set.items@.len() - i,
    {
        let ghost before = result_arr@;
        match &selection_set.items[i] {
            Selection::Field(f) => {
                result_arr.push(f);
                assert(result_arr@ =~= before.push(f));
            },
            Selection::InlineFragment(inline) => {
                let cond = match &inline.type_condition {
                    Some(TypeCondition::On(n)) => Some(n),
                    None => None,
                };
                if does_fragment_condition_match(cond, parent_type, context.schema) {
                    collect_fields_inner(
                        &inline.selection_set,
                        parent_type,
                        context,
                        result_arr,
                        visited_fragments_names,
                        fuel,
                    );
                }
            },
            Selection::FragmentSpread(spread) => {
                if !contains_text(visited_fragments_names, spread.fragment_name.as_str()) {
                    let ghost vis = texts(visited_fragments_names@);
                    visited_fragments_names.push(&spread.fragment_name);
                    assert(texts(visited_fragments_names@) =~= vis.push(spread.fragment_name@));
                    if let Some(fragment) = context.fragment_by_name(spread.fragment_name.as_str()) {
                        let TypeCondition::On(cond) = &fragment.type_condition;
                        if fuel > 0 && does_fragment_condition_match(Some(cond), parent_type, context.schema) {
                            collect_fields_inner(
                                &fragment.selection_set,
                                parent_type,
                                context,
                                result_arr,
                                visited_fragments_names,
                                fuel - 1,
                            );
                        }
                    }
                }
            },
        }
        i = i + 1;
    }
}

/// The fields that a selection set selects on `parent_type`, in order,
/// through inline fragments and fragment spreads whose conditions
/// `parent_type` meets; each fragment is entered at most once.
pub fn collect_fields<'a>(
    selection_set: &'a SelectionSet,
    parent_type: &TypeDefinition,
    context: &OperationVisitorContext<'a>,
) -> (r: Vec<&'a Field>)
    ensures
        r@ == collected_fields(context.schema, context.operation, selection_set, parent_type),
{
    let mut map: Vec<&'a Field> = Vec::new();
    let mut visited_fragments_names: Vec<&'a String> = Vec::new();
    let fuel = count_reach_rounds(context.operation);
    assert(texts(visited_fragments_names@) =~= Seq::<Seq<char>>::empty());
    collect_fields_inner(selection_set, parent_type, context, &mut map, &mut visited_fragments_names, fuel);
    assert(map@ =~= Seq::<&Field>::empty() + collected_fields(context.schema, context.operation, selection_set, parent_type));
    map
}

} // verus!
