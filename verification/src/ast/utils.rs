//! Helpers over schemas and type references: the schema definition of a
//! schema, the named type at the core of a type reference, and whether two
//! composite types can share a value.
use vstd::prelude::*;

use crate::ast::ext::{
    contains_name, has_sub_type_spec, inner_name, interface_possible_upto, interfaces_of, is_abstract,
    names_contain, no_type_named_from, object_named, possible_types_spec, schema_definition_from,
    type_by_name_from, type_def_name, type_def_named_at, union_possible_upto, PossibleTypesExtension,
    TypeDefinitionExtension, ImplementingInterfaceExtension,
};
use crate::static_graphql::schema::{self, ObjectType, TypeDefinition, UnionType};
use crate::static_graphql::common::Type;
use crate::text::str_eq;

verus! {

/// The context of a visitor that needs none of its own.
pub struct DefaultVisitorContext;

/// The state after `step` is applied to `start` for each event of `events`,
/// in order.
pub open spec fn fold_events<S, E>(step: spec_fn(S, E) -> S, events: Seq<E>, start: S) -> S
    decreases events.len(),
{
    if events.len() == 0 {
        start
    } else {
        step(fold_events(step, events.drop_last(), start), events.last())
    }
}

/// Folding over `events` and then one more event is one more step.
pub proof fn fold_events_push<S, E>(step: spec_fn(S, E) -> S, events: Seq<E>, e: E, start: S)
    ensures
        fold_events(step, events.push(e), start) == step(fold_events(step, events, start), e),
{
    assert(events.push(e).drop_last() =~= events);
}

/// The events still awaited after `events`, starting with `stack` awaited:
/// an event that `closer` maps to its closing event opens, and awaits that
/// event; any other event must be the innermost one awaited, and closes it
/// (else `None`).
pub open spec fn nesting_by<E>(closer: spec_fn(E) -> Option<E>, stack: Seq<E>, events: Seq<E>) -> Option<Seq<E>>
    decreases events.len(),
{
    if events.len() == 0 {
        Some(stack)
    } else {
        match nesting_by(closer, stack, events.drop_last()) {
            None => None,
            Some(k) => match closer(events.last()) {
                Some(c) => Some(k.push(c)),
                None => if k.len() > 0 && k.last() == events.last() {
                    Some(k.drop_last())
                } else {
                    None
                },
            },
        }
    }
}

/// Whether every event of `events` that opens is closed again by its closing
/// event, innermost first, and nothing else is closed.
pub open spec fn nested_by<E>(closer: spec_fn(E) -> Option<E>, events: Seq<E>) -> bool {
    forall|k: Seq<E>| #[trigger] nesting_by(closer, k, events) == Some(k)
}

proof fn nesting_by_append<E>(closer: spec_fn(E) -> Option<E>, k: Seq<E>, a: Seq<E>, b: Seq<E>)
    ensures
        nesting_by(closer, k, a + b) == match nesting_by(closer, k, a) {
            Some(x) => nesting_by(closer, x, b),
            None => None,
        },
    decreases b.len(),
{
    if b.len() == 0 {
        assert(a + b =~= a);
    } else {
        nesting_by_append(closer, k, a, b.drop_last());
        assert((a + b).drop_last() =~= a + b.drop_last());
        assert((a + b).last() == b.last());
    }
}

/// Nested events one after the other are nested.
pub proof fn nested_by_append<E>(closer: spec_fn(E) -> Option<E>, a: Seq<E>, b: Seq<E>)
    requires
        nested_by(closer, a),
        nested_by(closer, b),
    ensures
        nested_by(closer, a + b),
{
    assert forall|k: Seq<E>| #[trigger] nesting_by(closer, k, a + b) == Some(k) by {
        nesting_by_append(closer, k, a, b);
        assert(nesting_by(closer, k, a) == Some(k));
        assert(nesting_by(closer, k, b) == Some(k));
    }
}

/// No events are nested.
pub proof fn nested_by_empty<E>(closer: spec_fn(E) -> Option<E>, e: Seq<E>)
    requires
        e.len() == 0,
    ensures
        nested_by(closer, e),
{
    assert forall|k: Seq<E>| #[trigger] nesting_by(closer, k, e) == Some(k) by {}
}

/// An opening event, nested events, and its closing event are nested.
pub proof fn nested_by_pair<E>(closer: spec_fn(E) -> Option<E>, open: E, inner: Seq<E>, close: E)
    requires
        closer(open) == Some(close),
        closer(close) is None,
        nested_by(closer, inner),
    ensures
        nested_by(closer, seq![open] + inner + seq![close]),
{
    let head = seq![open];
    let tail = seq![close];
    assert forall|k: Seq<E>| #[trigger] nesting_by(closer, k, head + inner + tail) == Some(k) by {
        nesting_by_append(closer, k, head + inner, tail);
        nesting_by_append(closer, k, head, inner);
        assert(head.drop_last() =~= Seq::<E>::empty());
        assert(nesting_by(closer, k, head.drop_last()) == Some(k));
        assert(nesting_by(closer, k, head) == Some(k.push(close)));
        assert(nesting_by(closer, k.push(close), inner) == Some(k.push(close)));
        assert(tail.drop_last() =~= Seq::<E>::empty());
        assert(nesting_by(closer, k.push(close), tail.drop_last()) == Some(k.push(close)));
        assert(k.push(close).drop_last() =~= k);
    }
}

/// Folding over two sequences one after the other is folding over both.
pub proof fn fold_events_append<S, E>(step: spec_fn(S, E) -> S, a: Seq<E>, b: Seq<E>, start: S)
    ensures
        fold_events(step, a + b, start) == fold_events(step, b, fold_events(step, a, start)),
    decreases b.len(),
{
    if b.len() == 0 {
        assert(a + b =~= a);
    } else {
        fold_events_append(step, a, b.drop_last(), start);
        assert((a + b).drop_last() =~= a + b.drop_last());
    }
}

/// The first schema definition of a schema document, if it has one.
pub fn find_schema_definition(schema: &schema::Document) -> (r: Option<&schema::SchemaDefinition>)
    ensures
        r == schema_definition_from(schema, 0),
{
    let mut i: usize = 0;
    while i < schema.definitions.len()
        invariant
            i <= schema.definitions@.len(),
            schema_definition_from(schema, 0) == schema_definition_from(schema, i as int),
        decreases schema.definitions@.len() - i,
    {
        if let schema::Definition::SchemaDefinition(d) = &schema.definitions[i] {
            return Some(d);
        }
        i = i + 1;
    }
    None
}

/// Extracts the named type at the core of a type reference: `String` from
/// `[String]` or `String!`.
pub fn get_named_type(t: &Type) -> (r: String)
    ensures
        r@ == inner_name(*t),
    decreases t,
{
    match t {
        Type::NamedType(name) => name.clone(),
        Type::ListType(inner_type) => get_named_type(inner_type),
        Type::NonNullType(inner_type) => get_named_type(inner_type),
    }
}

/// Whether two composite types overlap: they have the same name, or one is
/// abstract and the other among its possible types, or both are abstract and
/// share a possible type.
pub open spec fn types_overlap(schema: &schema::Document, t1: &TypeDefinition, t2: &TypeDefinition) -> bool {
    if type_def_name(t1) == type_def_name(t2) {
        true
    } else if is_abstract(t1) {
        if is_abstract(t2) {
            exists|i: int|
                0 <= i < possible_types_spec(schema, t1).len() && has_sub_type_spec(
                    t2,
                    #[trigger] possible_types_spec(schema, t1)[i].name@,
                    possible_types_spec(schema, t1)[i].implements_interfaces@,
                )
        } else {
            has_sub_type_spec(t1, type_def_name(t2), interfaces_of(t2))
        }
    } else if is_abstract(t2) {
        has_sub_type_spec(t2, type_def_name(t1), interfaces_of(t1))
    } else {
        false
    }
}

/// Whether a type named `name` that implements `interfaces` is a sub type of `t`.
pub fn has_sub_type_named(t: &TypeDefinition, name: &str, interfaces: &Vec<String>) -> (r: bool)
    ensures
        r == has_sub_type_spec(t, name@, interfaces@),
{
    match t {
        TypeDefinition::Interface(i) => contains_name(interfaces, i.name.as_str()),
        TypeDefinition::Union(u) => contains_name(&u.types, name),
        _ => false,
    }
}

/// Provided two composite types, determine if they "overlap". Two composite
/// types overlap when the sets of possible concrete types for each intersect.
///
/// This is often used to determine if a fragment of a given type could possibly
/// be visited in a context of another type.
pub fn do_types_overlap(schema: &schema::Document, t1: &TypeDefinition, t2: &TypeDefinition) -> (r: bool)
    ensures
        r == types_overlap(schema, t1, t2),
{
    if str_eq(t1.name(), t2.name()) {
        return true;
    }
    if t1.is_abstract_type() {
        if t2.is_abstract_type() {
            let possible_types = t1.possible_types(schema);
            let mut i: usize = 0;
            while i < possible_types.len()
                invariant
                    i <= possible_types@.len(),
                    possible_types@ == possible_types_spec(schema, t1),
                    forall|j: int|
                        0 <= j < i ==> !has_sub_type_spec(
                            t2,
                            #[trigger] possible_types@[j].name@,
                            possible_types@[j].implements_interfaces@,
                        ),
                decreases possible_types@.len() - i,
            {
                let pt = possible_types[i];
                if has_sub_type_named(t2, pt.name.as_str(), &pt.implements_interfaces) {
                    return true;
                }
                i = i + 1;
            }
            return false;
        }
        return t1.has_sub_type(t2);
    }
    if t2.is_abstract_type() {
        return t2.has_sub_type(t1);
    }
    false
}

// ---------------------------------------------------------------------------
// Overlap is symmetric in a schema whose type names are unique
// ---------------------------------------------------------------------------

/// Whether no two type definitions of a schema share a name.
pub open spec fn unique_type_names(schema: &schema::Document) -> bool {
    forall|i: int, j: int, name: Seq<char>|
        #![trigger type_def_named_at(schema, i, name), type_def_named_at(schema, j, name)]
        type_def_named_at(schema, i, name) && type_def_named_at(schema, j, name) ==> i == j
}

/// The type definition at index `k`, if that definition is one.
pub open spec fn type_def_at<'a>(schema: &'a schema::Document, k: int) -> Option<&'a TypeDefinition> {
    if 0 <= k < schema.definitions@.len() {
        match &schema.definitions@[k] {
            schema::Definition::TypeDefinition(t) => Some(t),
            _ => None,
        }
    } else {
        None
    }
}

/// The object type defined at index `k`, if that definition is one.
pub open spec fn object_at<'a>(schema: &'a schema::Document, k: int) -> Option<&'a ObjectType> {
    match type_def_at(schema, k) {
        Some(TypeDefinition::Object(o)) => Some(o),
        _ => None,
    }
}

/// A lookup by name from index `i` finds a type definition at or after `i` of that name.
proof fn lemma_found_at<'a>(schema: &'a schema::Document, name: Seq<char>, i: int)
    requires
        type_by_name_from(schema, name, i) is Some,
    ensures
        exists|k: int|
            i <= k && type_def_at(schema, k) == type_by_name_from(schema, name, i) && #[trigger] type_def_named_at(
                schema,
                k,
                name,
            ),
    decreases schema.definitions@.len() - i,
{
    match &schema.definitions@[i] {
        schema::Definition::TypeDefinition(t) => if type_def_name(t) == name {
            assert(type_def_named_at(schema, i, name));
        } else {
            lemma_found_at(schema, name, i + 1);
        },
        _ => lemma_found_at(schema, name, i + 1),
    }
}

/// In a schema with unique type names, the lookup by a type's name from any
/// index up to its own finds that type.
proof fn lemma_lookup_own_name<'a>(schema: &'a schema::Document, k: int, i: int, name: Seq<char>)
    requires
        unique_type_names(schema),
        0 <= i <= k,
        type_def_named_at(schema, k, name),
    ensures
        type_by_name_from(schema, name, i) == type_def_at(schema, k),
    decreases k - i,
{
    if i < k {
        if type_def_named_at(schema, i, name) {
            assert(i == k);
        }
        lemma_lookup_own_name(schema, k, i + 1, name);
    }
}

/// In a schema with unique type names, an object type defined at index `k`
/// is the object type of its name, and no later definition shares the name.
proof fn lemma_object_at_is_named<'a>(schema: &'a schema::Document, k: int, o: &'a ObjectType)
    requires
        unique_type_names(schema),
        object_at(schema, k) == Some(o),
    ensures
        object_named(schema, o.name@) == Some(o),
        no_type_named_from(schema, o.name@, k + 1),
{
    assert(type_def_named_at(schema, k, o.name@));
    lemma_lookup_own_name(schema, k, 0, o.name@);
    assert forall|j: int| k + 1 <= j < schema.definitions@.len() implies !type_def_named_at(schema, j, o.name@) by {
        if type_def_named_at(schema, j, o.name@) {
            assert(j == k);
        }
    }
}

/// The object type of a name is an object type defined at some index with that name.
proof fn lemma_named_object_at<'a>(schema: &'a schema::Document, name: Seq<char>, o: &'a ObjectType)
    requires
        object_named(schema, name) == Some(o),
    ensures
        o.name@ == name,
        exists|k: int| #[trigger] object_at(schema, k) == Some(o),
{
    lemma_found_at(schema, name, 0);
    let k = choose|k: int|
        0 <= k && type_def_at(schema, k) == type_by_name_from(schema, name, 0) && #[trigger] type_def_named_at(
            schema,
            k,
            name,
        );
    assert(object_at(schema, k) == Some(o));
}

/// The object types among the first `n` definitions that implement `iname`
/// and that no later definition shadows.
proof fn lemma_interface_member<'a>(schema: &'a schema::Document, iname: Seq<char>, n: int, o: &'a ObjectType)
    requires
        0 <= n <= schema.definitions@.len(),
    ensures
        interface_possible_upto(schema, iname, n).contains(o) <==> exists|k: int|
            0 <= k < n && #[trigger] object_at(schema, k) == Some(o) && no_type_named_from(
                schema,
                o.name@,
                k + 1,
            ) && names_contain(o.implements_interfaces@, iname),
    decreases n,
{
    if n > 0 {
        lemma_interface_member(schema, iname, n - 1, o);
        let prev = interface_possible_upto(schema, iname, n - 1);
        let cur = interface_possible_upto(schema, iname, n);
        if cur.contains(o) && !prev.contains(o) {
            assert(cur == prev.push(o)) by {
                let w = choose|w: int| 0 <= w < cur.len() && cur[w] == o;
                assert(cur.len() == prev.len() + 1);
            }
            assert(object_at(schema, n - 1) == Some(o));
        }
        if exists|k: int|
            0 <= k < n && #[trigger] object_at(schema, k) == Some(o) && no_type_named_from(schema, o.name@, k + 1)
                && names_contain(o.implements_interfaces@, iname) {
            let k = choose|k: int|
                0 <= k < n && #[trigger] object_at(schema, k) == Some(o) && no_type_named_from(
                    schema,
                    o.name@,
                    k + 1,
                ) && names_contain(o.implements_interfaces@, iname);
            if k == n - 1 {
                assert(cur == prev.push(o));
                assert(cur[cur.len() - 1] == o);
            } else {
                let w = choose|w: int| 0 <= w < prev.len() && prev[w] == o;
                assert(cur[w] == o);
            }
        }
    }
}

/// The object types that the first `n` member names of a union resolve to.
proof fn lemma_union_member<'a>(schema: &'a schema::Document, u: &UnionType, n: int, o: &'a ObjectType)
    requires
        0 <= n <= u.types@.len(),
    ensures
        union_possible_upto(schema, u, n).contains(o) <==> exists|j: int|
            0 <= j < n && #[trigger] object_named(schema, u.types@[j]@) == Some(o),
    decreases n,
{
    if n > 0 {
        lemma_union_member(schema, u, n - 1, o);
        let prev = union_possible_upto(schema, u, n - 1);
        let cur = union_possible_upto(schema, u, n);
        if cur.contains(o) && !prev.contains(o) {
            let w = choose|w: int| 0 <= w < cur.len() && cur[w] == o;
            assert(object_named(schema, u.types@[n - 1]@) == Some(o));
        }
        if exists|j: int| 0 <= j < n && #[trigger] object_named(schema, u.types@[j]@) == Some(o) {
            let j = choose|j: int| 0 <= j < n && #[trigger] object_named(schema, u.types@[j]@) == Some(o);
            if j == n - 1 {
                assert(cur[cur.len() - 1] == o);
            } else {
                let w = choose|w: int| 0 <= w < prev.len() && prev[w] == o;
                assert(cur[w] == o);
            }
        }
    }
}

/// What a possible type of an abstract type is, in a schema with unique
/// type names: an object type defined at some index, the object type of its
/// name, shadowed by no later definition, and a sub type of the abstract type.
proof fn lemma_possible_facts<'a>(schema: &'a schema::Document, t: &'a TypeDefinition, o: &'a ObjectType)
    requires
        unique_type_names(schema),
        is_abstract(t),
        possible_types_spec(schema, t).contains(o),
    ensures
        object_named(schema, o.name@) == Some(o),
        exists|k: int| #[trigger] object_at(schema, k) == Some(o) && no_type_named_from(schema, o.name@, k + 1),
        has_sub_type_spec(t, o.name@, o.implements_interfaces@),
{
    match t {
        TypeDefinition::Interface(i) => {
            lemma_interface_member(schema, i.name@, schema.definitions@.len() as int, o);
            let k = choose|k: int|
                0 <= k < schema.definitions@.len() && #[trigger] object_at(schema, k) == Some(o)
                    && no_type_named_from(schema, o.name@, k + 1) && names_contain(o.implements_interfaces@, i.name@);
            lemma_object_at_is_named(schema, k, o);
        },
        TypeDefinition::Union(u) => {
            lemma_union_member(schema, u, u.types@.len() as int, o);
            let j = choose|j: int| 0 <= j < u.types@.len() && #[trigger] object_named(schema, u.types@[j]@) == Some(o);
            lemma_named_object_at(schema, u.types@[j]@, o);
            let k = choose|k: int| #[trigger] object_at(schema, k) == Some(o);
            lemma_object_at_is_named(schema, k, o);
            assert(u.types@[j]@ == o.name@);
        },
        _ => {},
    }
}

/// In a schema with unique type names, an object type that is the object
/// type of its name and a sub type of an abstract type is among its possible types.
proof fn lemma_possible_of_sub<'a>(schema: &'a schema::Document, t: &'a TypeDefinition, o: &'a ObjectType, k: int)
    requires
        unique_type_names(schema),
        is_abstract(t),
        object_at(schema, k) == Some(o),
        no_type_named_from(schema, o.name@, k + 1),
        object_named(schema, o.name@) == Some(o),
        has_sub_type_spec(t, o.name@, o.implements_interfaces@),
    ensures
        possible_types_spec(schema, t).contains(o),
{
    match t {
        TypeDefinition::Interface(i) => {
            lemma_interface_member(schema, i.name@, schema.definitions@.len() as int, o);
        },
        TypeDefinition::Union(u) => {
            let j = choose|j: int| 0 <= j < u.types@.len() && #[trigger] u.types@[j]@ == o.name@;
            lemma_union_member(schema, u, u.types@.len() as int, o);
            assert(object_named(schema, u.types@[j]@) == Some(o));
        },
        _ => {},
    }
}

/// One direction of the symmetry of overlap for two abstract types.
proof fn lemma_overlap_one_way<'a>(schema: &'a schema::Document, t1: &'a TypeDefinition, t2: &'a TypeDefinition)
    requires
        unique_type_names(schema),
        is_abstract(t1),
        is_abstract(t2),
        types_overlap(schema, t1, t2),
    ensures
        types_overlap(schema, t2, t1),
{
    if type_def_name(t1) != type_def_name(t2) {
        let p1 = possible_types_spec(schema, t1);
        let i = choose|i: int|
            0 <= i < p1.len() && has_sub_type_spec(t2, #[trigger] p1[i].name@, p1[i].implements_interfaces@);
        let o = p1[i];
        assert(p1.contains(o));
        lemma_possible_facts(schema, t1, o);
        let k = choose|k: int| #[trigger] object_at(schema, k) == Some(o) && no_type_named_from(schema, o.name@, k + 1);
        lemma_possible_of_sub(schema, t2, o, k);
        let p2 = possible_types_spec(schema, t2);
        let w = choose|w: int| 0 <= w < p2.len() && p2[w] == o;
        assert(has_sub_type_spec(t1, p2[w].name@, p2[w].implements_interfaces@));
    }
}

/// In a schema whose type names are unique, whether two composite types
/// overlap does not depend on their order.
pub proof fn types_overlap_symmetric<'a>(schema: &'a schema::Document, t1: &'a TypeDefinition, t2: &'a TypeDefinition)
    requires
        unique_type_names(schema),
    ensures
        types_overlap(schema, t1, t2) == types_overlap(schema, t2, t1),
{
    if is_abstract(t1) && is_abstract(t2) {
        if types_overlap(schema, t1, t2) {
            lemma_overlap_one_way(schema, t1, t2);
        }
        if types_overlap(schema, t2, t1) {
            lemma_overlap_one_way(schema, t2, t1);
        }
    }
}

} // verus!
