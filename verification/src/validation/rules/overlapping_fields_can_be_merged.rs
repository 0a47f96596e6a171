//! Overlapping fields can be merged.
//!
//! A selection set is only valid if all fields (including spreading any
//! fragments) either correspond to distinct response names or can be merged
//! without ambiguity.
//!
//! Each selection set of the document is compared "within" its own fields,
//! and "between" its fields and the fragments it spreads; fields that share a
//! response name are compared pairwise, and so are their sub-selections.
//! Comparisons of two fragments are remembered across the whole document so
//! that no two fragments are compared twice in the same way.
use vstd::prelude::*;

use crate::ast::ext::{
    field_of, inner_name, is_leaf, type_def_name, type_named, type_text, type_to_string, values_compare,
    FieldByNameExtension, SchemaDocumentExtension, TypeDefinitionExtension, TypeExtension, ValueExtension,
};
use crate::ast::operation_visitor::{
    condition_name, document_steps, document_visit_steps, find_fragment, known_fragment, OperationVisitorContext, VisitNode,
    VisitStep,
};
use crate::static_graphql::common::{Pos, Type, Value};
use crate::static_graphql::query::{Document, Field, FragmentDefinition, InlineFragment, Selection, SelectionSet, TypeCondition};
use crate::static_graphql::schema::{self, TypeDefinition};
use crate::text::{concat5, owned, str_eq};
use crate::validation::rules::names::texts;
use crate::validation::rules::rule::{RuleKind, ValidationRule};
use crate::validation::rules::scopes::contains_name as contains_text;
use crate::validation::utils::{error_spec, ErrorView, ValidationError, ValidationErrorContext};

verus! {

/// A schema of boxes and connections used to exercise this rule.
pub const OVERLAPPING_RULE_TEST_SCHEMA: &'static str = "
interface SomeBox {
  deepBox: SomeBox
  unrelatedField: String
}
type StringBox implements SomeBox {
  scalar: String
  deepBox: StringBox
  unrelatedField: String
  listStringBox: [StringBox]
  stringBox: StringBox
  intBox: IntBox
}
type IntBox implements SomeBox {
  scalar: Int
  deepBox: IntBox
  unrelatedField: String
  listStringBox: [StringBox]
  stringBox: StringBox
  intBox: IntBox
}
interface NonNullStringBox1 {
  scalar: String!
}
type NonNullStringBox1Impl implements SomeBox & NonNullStringBox1 {
  scalar: String!
  unrelatedField: String
  deepBox: SomeBox
}
interface NonNullStringBox2 {
  scalar: String!
}
type NonNullStringBox2Impl implements SomeBox & NonNullStringBox2 {
  scalar: String!
  unrelatedField: String
  deepBox: SomeBox
}
type Connection {
  edges: [Edge]
}
type Edge {
  node: Node
}
type Node {
  id: ID
  name: String
}
type Query {
  someBox: SomeBox
  connection: Connection
}";

// ---------------------------------------------------------------------------
// Pairs of compared fragments
// ---------------------------------------------------------------------------

/// The pairs of fragment names that were compared, each with whether the
/// comparison was made under mutually exclusive parents. A pair is recorded
/// in both orders; a later record of a pair replaces an earlier one.
pub struct PairSet<'a> {
    data: Vec<(&'a String, &'a String, bool)>,
}

/// The map that the first `n` records make, later records replacing earlier ones.
pub open spec fn pairs_map<'a>(s: Seq<(&'a String, &'a String, bool)>, n: int) -> Map<
    (Seq<char>, Seq<char>),
    bool,
>
    decreases n,
{
    if n <= 0 || n > s.len() {
        Map::empty()
    } else {
        pairs_map(s, n - 1).insert((s[n - 1].0@, s[n - 1].1@), s[n - 1].2)
    }
}

/// Whether the pair `(a, b)` counts as compared for a comparison whose
/// parents are (`mutex`) or are not mutually exclusive: a pair compared under
/// exclusive parents only covers comparisons under exclusive parents.
pub open spec fn pair_seen(memo: Map<(Seq<char>, Seq<char>), bool>, a: Seq<char>, b: Seq<char>, mutex: bool) -> bool {
    memo.contains_key((a, b)) && (mutex || !memo[(a, b)])
}

/// The record of a comparison of `a` and `b`, in both orders.
pub open spec fn pair_insert(memo: Map<(Seq<char>, Seq<char>), bool>, a: Seq<char>, b: Seq<char>, mutex: bool) -> Map<
    (Seq<char>, Seq<char>),
    bool,
> {
    memo.insert((a, b), mutex).insert((b, a), mutex)
}

impl<'a> View for PairSet<'a> {
    type V = Map<(Seq<char>, Seq<char>), bool>;

    closed spec fn view(&self) -> Map<(Seq<char>, Seq<char>), bool> {
        pairs_map(self.data@, self.data@.len() as int)
    }
}

impl<'a> PairSet<'a> {
    /// An empty set of pairs.
    pub fn new() -> (r: Self)
        ensures
            r@ == Map::<(Seq<char>, Seq<char>), bool>::empty(),
    {
        PairSet { data: Vec::new() }
    }

    /// Whether the pair `(a, b)` was compared in a way that covers a
    /// comparison under parents that are (`mutex`) or are not mutually exclusive.
    pub fn contains(&self, a: &str, b: &str, mutex: bool) -> (r: bool)
        ensures
            r == pair_seen(self@, a@, b@, mutex),
    {
        let ghost key = (a@, b@);
        let mut found: Option<bool> = None;
        let mut i: usize = 0;
        while i < self.data.len()
            invariant
                i <= self.data@.len(),
                key == (a@, b@),
                found == (if pairs_map(self.data@, i as int).contains_key(key) {
                    Some(pairs_map(self.data@, i as int)[key])
                } else {
                    None::<bool>
                }),
            decreases self.data@.len() - i,
        {
            let (x, y, m) = self.data[i];
            if str_eq(x.as_str(), a) && str_eq(y.as_str(), b) {
                found = Some(m);
            }
            i = i + 1;
        }
        match found {
            Some(result) => if !mutex {
                !result
            } else {
                true
            },
            None => false,
        }
    }

    /// Records that `a` and `b` were compared, in both orders.
    pub fn insert(&mut self, a: &'a String, b: &'a String, mutex: bool)
        ensures
            final(self)@ == pair_insert(old(self)@, a@, b@, mutex),
    {
        let ghost n = self.data@.len();
        self.data.push((a, b, mutex));
        self.data.push((b, a, mutex));
        assert(pairs_map(self.data@, n as int) == pairs_map(old(self).data@, n as int)) by {
            lemma_pairs_map_prefix(old(self).data@, self.data@, n as int);
        }
        assert(pairs_map(self.data@, n as int + 1) == pairs_map(self.data@, n as int).insert((a@, b@), mutex));
        assert(pairs_map(self.data@, n as int + 2) == pairs_map(self.data@, n as int + 1).insert((b@, a@), mutex));
    }
}

/// The map made by a prefix depends only on that prefix.
proof fn lemma_pairs_map_prefix<'a>(s: Seq<(&'a String, &'a String, bool)>, t: Seq<(&'a String, &'a String, bool)>, n: int)
    requires
        0 <= n <= s.len(),
        n <= t.len(),
        forall|j: int| 0 <= j < n ==> s[j] == t[j],
    ensures
        pairs_map(s, n) == pairs_map(t, n),
    decreases n,
{
    if n > 0 {
        lemma_pairs_map_prefix(s, t, n - 1);
    }
}

/// Once two fragments are recorded as compared, a comparison of them in
/// either order under the same kind of parents counts as done; a record
/// made under mutually exclusive parents does not cover a comparison whose
/// parents are not exclusive.
pub proof fn pair_set_remembers(memo: Map<(Seq<char>, Seq<char>), bool>, a: Seq<char>, b: Seq<char>, mutex: bool)
    ensures
        pair_seen(pair_insert(memo, a, b, mutex), a, b, mutex),
        pair_seen(pair_insert(memo, a, b, mutex), b, a, mutex),
        pair_seen(pair_insert(memo, a, b, true), a, b, false) == false,
        pair_seen(pair_insert(memo, a, b, false), a, b, true),
{
}

/// The record that a history of inserts into an empty set leaves, each
/// insert a pair of names and whether their parents were mutually exclusive.
pub open spec fn pairs_after(history: Seq<(Seq<char>, Seq<char>, bool)>) -> Map<(Seq<char>, Seq<char>), bool>
    decreases history.len(),
{
    if history.len() == 0 {
        Map::empty()
    } else {
        let (x, y, m) = history.last();
        pair_insert(pairs_after(history.drop_last()), x, y, m)
    }
}

/// The flag of the last insert of the pair {a, b}, in either order, if any.
pub open spec fn last_insert_of(history: Seq<(Seq<char>, Seq<char>, bool)>, a: Seq<char>, b: Seq<char>) -> Option<
    bool,
>
    decreases history.len(),
{
    if history.len() == 0 {
        None
    } else {
        let (x, y, m) = history.last();
        if (x == a && y == b) || (x == b && y == a) {
            Some(m)
        } else {
            last_insert_of(history.drop_last(), a, b)
        }
    }
}

/// After any history of inserts into a new set, `contains(a, b, mutex)`
/// holds exactly when {a, b} was inserted and, at its last insert, either
/// the query's parents are mutually exclusive or the recorded ones were not:
/// a pair recorded under exclusive parents only covers exclusive queries.
pub proof fn pair_set_history(history: Seq<(Seq<char>, Seq<char>, bool)>, a: Seq<char>, b: Seq<char>, mutex: bool)
    ensures
        pair_seen(pairs_after(history), a, b, mutex) == match last_insert_of(history, a, b) {
            Some(m) => mutex || !m,
            None => false,
        },
    decreases history.len(),
{
    if history.len() > 0 {
        let (x, y, m) = history.last();
        pair_set_history(history.drop_last(), a, b, mutex);
        if !((x == a && y == b) || (x == b && y == a)) {
            pair_set_keeps_other_pairs(pairs_after(history.drop_last()), x, y, m, a, b, mutex);
        }
    }
}

/// Recording a comparison of `a` and `b` changes nothing about any other
/// pair: what was known of it stays known, and what was not stays unknown.
pub proof fn pair_set_keeps_other_pairs(
    memo: Map<(Seq<char>, Seq<char>), bool>,
    a: Seq<char>,
    b: Seq<char>,
    mutex: bool,
    c: Seq<char>,
    d: Seq<char>,
    mutex_cd: bool,
)
    requires
        (c, d) != (a, b),
        (c, d) != (b, a),
    ensures
        pair_seen(pair_insert(memo, a, b, mutex), c, d, mutex_cd) == pair_seen(memo, c, d, mutex_cd),
{
}

// ---------------------------------------------------------------------------
// Fields grouped by response name
// ---------------------------------------------------------------------------

/// A field of a selection set, with the type it was selected on and its
/// definition in that type.
#[derive(Clone, Copy)]
pub struct AstAndDef<'a> {
    pub parent_type: Option<&'a TypeDefinition>,
    pub field: &'a Field,
    pub field_def: Option<&'a schema::Field>,
}

/// The fields of a selection set grouped by response name, the names in the
/// order they first occur.
pub open spec fn fm_view<'a>(m: Seq<(&'a String, Vec<AstAndDef<'a>>)>) -> Seq<(Seq<char>, Seq<AstAndDef<'a>>)> {
    m.map_values(|e: (&'a String, Vec<AstAndDef<'a>>)| (e.0@, e.1@))
}

/// The position of the first group of the first `n` whose name is `k`, or -1.
pub open spec fn key_pos<'a>(m: Seq<(Seq<char>, Seq<AstAndDef<'a>>)>, k: Seq<char>, n: int) -> int
    decreases n,
{
    if n <= 0 || n > m.len() {
        -1
    } else {
        let p = key_pos(m, k, n - 1);
        if p >= 0 {
            p
        } else if m[n - 1].0 == k {
            n - 1
        } else {
            -1
        }
    }
}

/// The group of `k`, empty where there is none.
pub open spec fn group_of<'a>(m: Seq<(Seq<char>, Seq<AstAndDef<'a>>)>, k: Seq<char>) -> Option<Seq<AstAndDef<'a>>> {
    let p = key_pos(m, k, m.len() as int);
    if p >= 0 {
        Some(m[p].1)
    } else {
        None
    }
}

/// The grouped fields with `a` added to the group of `k`, which is made last
/// where there is none yet.
pub open spec fn group_add<'a>(m: Seq<(Seq<char>, Seq<AstAndDef<'a>>)>, k: Seq<char>, a: AstAndDef<'a>) -> Seq<
    (Seq<char>, Seq<AstAndDef<'a>>),
> {
    let p = key_pos(m, k, m.len() as int);
    if p >= 0 {
        m.update(p, (k, m[p].1.push(a)))
    } else {
        m.push((k, seq![a]))
    }
}

/// The names with `n` added last, unless it is there already.
pub open spec fn name_add(names: Seq<Seq<char>>, n: Seq<char>) -> Seq<Seq<char>> {
    if names.contains(n) {
        names
    } else {
        names.push(n)
    }
}

/// The name under which a field's value is returned: its alias, or its name.
pub open spec fn response_name(f: &Field) -> Seq<char> {
    match &f.alias {
        Some(a) => a@,
        None => f.name@,
    }
}

/// The definition of the field `name` in an optional parent type.
pub open spec fn def_in<'a>(parent: Option<&'a TypeDefinition>, name: Seq<char>) -> Option<&'a schema::Field> {
    match parent {
        Some(t) => field_of(t, name),
        None => None,
    }
}

/// The type that the fields of an inline fragment are selected on: its
/// condition where the schema defines that type, else the enclosing type.
pub open spec fn inline_type<'a>(
    schema: &'a schema::Document,
    i: &InlineFragment,
    parent: Option<&'a TypeDefinition>,
) -> Option<&'a TypeDefinition> {
    match &i.type_condition {
        Some(TypeCondition::On(n)) => match type_named(schema, n@) {
            Some(t) => Some(t),
            None => parent,
        },
        None => parent,
    }
}

/// The grouped fields and spread fragment names after the first `n` items
/// of `ss` (selected on `parent`) are added to `acc`; inline fragments are
/// entered, fragment spreads only named.
pub open spec fn collect_fm<'a>(
    schema: &'a schema::Document,
    parent: Option<&'a TypeDefinition>,
    ss: &'a SelectionSet,
    n: int,
    acc: (Seq<(Seq<char>, Seq<AstAndDef<'a>>)>, Seq<Seq<char>>),
) -> (Seq<(Seq<char>, Seq<AstAndDef<'a>>)>, Seq<Seq<char>>)
    decreases ss, n,
{
    if n <= 0 || n > ss.items@.len() {
        acc
    } else {
        let prev = collect_fm(schema, parent, ss, n - 1, acc);
        match &ss.items@[n - 1] {
            Selection::Field(f) => (
                group_add(
                    prev.0,
                    response_name(f),
                    AstAndDef { parent_type: parent, field: f, field_def: def_in(parent, f.name@) },
                ),
                prev.1,
            ),
            Selection::FragmentSpread(sp) => (prev.0, name_add(prev.1, sp.fragment_name@)),
            Selection::InlineFragment(i) => collect_fm(
                schema,
                inline_type(schema, i, parent),
                &i.selection_set,
                i.selection_set.items@.len() as int,
                prev,
            ),
        }
    }
}

/// The fields of a selection set selected on `parent`, grouped by response
/// name, and the names of the fragments it spreads, each once, in order.
pub open spec fn fields_and_names<'a>(
    schema: &'a schema::Document,
    parent: Option<&'a TypeDefinition>,
    ss: &'a SelectionSet,
) -> (Seq<(Seq<char>, Seq<AstAndDef<'a>>)>, Seq<Seq<char>>) {
    collect_fm(schema, parent, ss, ss.items@.len() as int, (Seq::empty(), Seq::empty()))
}

/// The position of the group named `key`.
fn find_group<'a>(map: &Vec<(&'a String, Vec<AstAndDef<'a>>)>, key: &str) -> (r: Option<usize>)
    ensures
        match r {
            Some(i) => i as int == key_pos(fm_view(map@), key@, map@.len() as int) && i < map@.len(),
            None => key_pos(fm_view(map@), key@, map@.len() as int) == -1,
        },
{
    let ghost m = fm_view(map@);
    let mut i: usize = 0;
    while i < map.len()
        invariant
            i <= map@.len(),
            m == fm_view(map@),
            key_pos(m, key@, i as int) == -1,
        decreases map@.len() - i,
    {
        if str_eq(map[i].0.as_str(), key) {
            assert(key_pos(m, key@, i as int + 1) == i);
            proof { lemma_key_pos_stable(m, key@, i as int + 1, map@.len() as int); }
            return Some(i);
        }
        i = i + 1;
    }
    None
}

/// Once a group is found among the first `n`, later groups do not change it.
proof fn lemma_key_pos_stable<'a>(m: Seq<(Seq<char>, Seq<AstAndDef<'a>>)>, k: Seq<char>, n: int, n2: int)
    requires
        0 <= n <= n2 <= m.len(),
        key_pos(m, k, n) >= 0,
    ensures
        key_pos(m, k, n2) == key_pos(m, k, n),
    decreases n2 - n,
{
    if n2 > n {
        lemma_key_pos_stable(m, k, n, n2 - 1);
    }
}

/// A group found by name has that name.
proof fn lemma_key_pos_found<'a>(m: Seq<(Seq<char>, Seq<AstAndDef<'a>>)>, k: Seq<char>, n: int)
    requires
        key_pos(m, k, n) >= 0,
    ensures
        0 <= key_pos(m, k, n) < n <= m.len(),
        m[key_pos(m, k, n)].0 == k,
    decreases n,
{
    if key_pos(m, k, n - 1) >= 0 {
        lemma_key_pos_found(m, k, n - 1);
    }
}

/// Adds `a` to the group of `key`.
fn add_to_group<'a>(map: &mut Vec<(&'a String, Vec<AstAndDef<'a>>)>, key: &'a String, a: AstAndDef<'a>)
    ensures
        fm_view(final(map)@) == group_add(fm_view(old(map)@), key@, a),
{
    match find_group(map, key.as_str()) {
        Some(i) => {
            let ghost before = map@;
            let (k, mut g) = map.remove(i);
            g.push(a);
            map.insert(i, (k, g));
            assert(map@ =~= before.update(i as int, (k, g)));
            proof { lemma_key_pos_found(fm_view(before), key@, before.len() as int); }
            assert(fm_view(map@) =~= fm_view(before).update(i as int, (key@, fm_view(before)[i as int].1.push(a))));
        },
        None => {
            let mut g: Vec<AstAndDef<'a>> = Vec::new();
            g.push(a);
            let ghost before = map@;
            map.push((key, g));
            assert(g@ =~= seq![a]);
            assert(fm_view(map@) =~= fm_view(before).push((key@, seq![a])));
        },
    }
}

/// Adds the fields and spread fragment names of `selection_set`, selected on `parent_type`.
fn collect_fields_and_fragment_names<'a>(
    schema: &'a schema::Document,
    parent_type: Option<&'a TypeDefinition>,
    selection_set: &'a SelectionSet,
    ast_and_defs: &mut Vec<(&'a String, Vec<AstAndDef<'a>>)>,
    fragment_names: &mut Vec<&'a String>,
)
    ensures
        (fm_view(final(ast_and_defs)@), texts(final(fragment_names)@)) == collect_fm(
            schema,
            parent_type,
            selection_set,
            selection_set.items@.len() as int,
            (fm_view(old(ast_and_defs)@), texts(old(fragment_names)@)),
        ),
    decreases selection_set,
{
    let ghost acc = (fm_view(ast_and_defs@), texts(fragment_names@));
    let mut i: usize = 0;
    while i < selection_set.items.len()
        invariant
            i <= selection_set.items@.len(),
            (fm_view(ast_and_defs@), texts(fragment_names@)) == collect_fm(
                schema,
                parent_type,
                selection_set,
                i as int,
                acc,
            ),
        decreases selection_set.items@.len() - i,
    {
        match &selection_set.items[i] {
            Selection::Field(field) => {
                let field_def = match parent_type {
                    Some(t) => t.field_by_name(&field.name),
                    None => None,
                };
                let out_field_name: &'a String = match &field.alias {
                    Some(a) => a,
                    None => &field.name,
                };
                add_to_group(
                    ast_and_defs,
                    out_field_name,
                    AstAndDef { parent_type, field, field_def },
                );
            },
            Selection::FragmentSpread(fragment_spread) => {
                if !contains_text(fragment_names, fragment_spread.fragment_name.as_str()) {
                    let ghost before = texts(fragment_names@);
                    fragment_names.push(&fragment_spread.fragment_name);
                    assert(texts(fragment_names@) =~= before.push(fragment_spread.fragment_name@));
                }
            },
            Selection::InlineFragment(inline_fragment) => {
                let fragment_type = match &inline_fragment.type_condition {
                    Some(TypeCondition::On(type_condition)) => match schema.type_by_name(type_condition.as_str()) {
                        Some(t) => Some(t),
                        None => parent_type,
                    },
                    None => parent_type,
                };
                collect_fields_and_fragment_names(
                    schema,
                    fragment_type,
                    &inline_fragment.selection_set,
                    ast_and_defs,
                    fragment_names,
                );
            },
        }
        i = i + 1;
    }
}

/// The fields of `selection_set` selected on `parent_type`, grouped by
/// response name, and the fragment names that it spreads.
fn get_fields_and_fragment_names<'a>(
    schema: &'a schema::Document,
    parent_type: Option<&'a TypeDefinition>,
    selection_set: &'a SelectionSet,
) -> (r: (Vec<(&'a String, Vec<AstAndDef<'a>>)>, Vec<&'a String>))
    ensures
        (fm_view(r.0@), texts(r.1@)) == fields_and_names(schema, parent_type, selection_set),
{
    let mut ast_and_defs: Vec<(&'a String, Vec<AstAndDef<'a>>)> = Vec::new();
    let mut fragment_names: Vec<&'a String> = Vec::new();
    assert(fm_view(ast_and_defs@) =~= Seq::<(Seq<char>, Seq<AstAndDef<'a>>)>::empty());
    assert(texts(fragment_names@) =~= Seq::<Seq<char>>::empty());
    collect_fields_and_fragment_names(schema, parent_type, selection_set, &mut ast_and_defs, &mut fragment_names);
    (ast_and_defs, fragment_names)
}

// ---------------------------------------------------------------------------
// Comparing two fields
// ---------------------------------------------------------------------------

/// The value of the first argument named `name`, from the `i`-th on.
pub open spec fn first_arg<'a>(args: &'a Vec<(String, Value)>, name: Seq<char>, i: int) -> Option<&'a Value>
    decreases args@.len() - i,
{
    if i < 0 || i >= args@.len() {
        None
    } else if args@[i].0@ == name {
        Some(&args@[i].1)
    } else {
        first_arg(args, name, i + 1)
    }
}

/// Whether the other arguments have one of the same name, whose value compares
/// as equal to this one's.
pub open spec fn arg_matches(arg: (String, Value), others: &Vec<(String, Value)>) -> bool {
    match first_arg(others, arg.0@, 0) {
        Some(v) => values_compare(arg.1, *v),
        None => false,
    }
}

/// Whether two argument lists have the same length and each argument of the
/// first matches an argument of the second.
pub open spec fn same_arguments(a1: &Vec<(String, Value)>, a2: &Vec<(String, Value)>) -> bool {
    a1@.len() == a2@.len() && forall|i: int| 0 <= i < a1@.len() ==> #[trigger] arg_matches(a1@[i], a2)
}

/// Whether the schema defines `name` as a leaf type.
pub open spec fn leaf_named(schema: &schema::Document, name: Seq<char>) -> bool {
    match type_named(schema, name) {
        Some(t) => is_leaf(t),
        None => false,
    }
}

/// Whether two types could not apply to one value: list and non-null
/// wrappers must match, and named types must be the same where either is a
/// leaf type. Composite types are compared later, field by field.
pub open spec fn type_conflict(schema: &schema::Document, t1: Type, t2: Type) -> bool
    decreases t1,
{
    match t1 {
        Type::ListType(a) => match t2 {
            Type::ListType(b) => type_conflict(schema, *a, *b),
            _ => true,
        },
        Type::NonNullType(a) => match t2 {
            Type::ListType(_) => true,
            Type::NonNullType(b) => type_conflict(schema, *a, *b),
            _ => true,
        },
        Type::NamedType(n1) => match t2 {
            Type::NamedType(n2) => (leaf_named(schema, n1@) || leaf_named(schema, n2@)) && n1@ != n2@,
            _ => true,
        },
    }
}

/// The first argument named `name`.
fn find_argument<'a>(args: &'a Vec<(String, Value)>, name: &str) -> (r: Option<&'a Value>)
    ensures
        r == first_arg(args, name@, 0),
{
    let mut i: usize = 0;
    while i < args.len()
        invariant
            i <= args@.len(),
            first_arg(args, name@, 0) == first_arg(args, name@, i as int),
        decreases args@.len() - i,
    {
        if str_eq(args[i].0.as_str(), name) {
            return Some(&args[i].1);
        }
        i = i + 1;
    }
    None
}

/// Whether two argument lists are the same.
fn is_same_arguments(f1_args: &Vec<(String, Value)>, f2_args: &Vec<(String, Value)>) -> (r: bool)
    ensures
        r == same_arguments(f1_args, f2_args),
{
    if f1_args.len() != f2_args.len() {
        return false;
    }
    let mut i: usize = 0;
    while i < f1_args.len()
        invariant
            i <= f1_args@.len(),
            f1_args@.len() == f2_args@.len(),
            forall|j: int| 0 <= j < i ==> #[trigger] arg_matches(f1_args@[j], f2_args),
        decreases f1_args@.len() - i,
    {
        let matched = match find_argument(f2_args, f1_args[i].0.as_str()) {
            Some(v2) => f1_args[i].1.compare(v2),
            None => false,
        };
        if !matched {
            assert(!arg_matches(f1_args@[i as int], f2_args));
            return false;
        }
        i = i + 1;
    }
    true
}

/// Whether the schema defines `name` as a leaf type.
fn is_leaf_named(schema: &schema::Document, name: &str) -> (r: bool)
    ensures
        r == leaf_named(schema, name@),
{
    match schema.type_by_name(name) {
        Some(t) => t.is_leaf_type(),
        None => false,
    }
}

/// Whether two types conflict.
fn is_type_conflict(schema: &schema::Document, t1: &Type, t2: &Type) -> (r: bool)
    ensures
        r == type_conflict(schema, *t1, *t2),
    decreases t1,
{
    match t1 {
        Type::ListType(a) => match t2 {
            Type::ListType(b) => is_type_conflict(schema, a, b),
            _ => true,
        },
        Type::NonNullType(a) => match t2 {
            Type::ListType(_) => true,
            Type::NonNullType(b) => is_type_conflict(schema, a, b),
            _ => true,
        },
        Type::NamedType(n1) => match t2 {
            Type::NamedType(n2) => (is_leaf_named(schema, n1.as_str()) || is_leaf_named(schema, n2.as_str()))
                && !str_eq(n1.as_str(), n2.as_str()),
            _ => true,
        },
    }
}

// ---------------------------------------------------------------------------
// Conflicts
// ---------------------------------------------------------------------------

/// Two fields that cannot be merged: their response name, why they conflict,
/// and the positions reported for each side.
pub struct Conflict {
    pub name: String,
    pub reason: String,
    pub p1: Vec<Pos>,
    pub p2: Vec<Pos>,
}

/// The mathematical form of a conflict.
pub struct ConflictView {
    pub name: Seq<char>,
    pub reason: Seq<char>,
    pub p1: Seq<Pos>,
    pub p2: Seq<Pos>,
}

impl View for Conflict {
    type V = ConflictView;

    open spec fn view(&self) -> ConflictView {
        ConflictView { name: self.name@, reason: self.reason@, p1: self.p1@, p2: self.p2@ }
    }
}

/// The mathematical form of a list of conflicts.
pub open spec fn conflicts_view(v: Seq<Conflict>) -> Seq<ConflictView> {
    v.map_values(|c: Conflict| c@)
}

/// The mathematical form of an optional conflict.
pub open spec fn opt_conflict_view(c: Option<Conflict>) -> Option<ConflictView> {
    match c {
        Some(c) => Some(c@),
        None => None,
    }
}

/// A conflict with one position on each side.
pub open spec fn simple_conflict(name: Seq<char>, reason: Seq<char>, p1: Pos, p2: Pos) -> ConflictView {
    ConflictView { name, reason, p1: seq![p1], p2: seq![p2] }
}

/// How a conflict of sub-fields is told inside the conflict of their parents.
pub open spec fn subfield_text(c: ConflictView) -> Seq<char> {
    "subfields \""@ + c.name + "\" conflict because "@ + c.reason
}

/// The reasons of the first `n` sub-field conflicts, joined by " and ".
pub open spec fn nested_reason(cs: Seq<ConflictView>, n: int) -> Seq<char>
    decreases n,
{
    if n <= 0 || n > cs.len() {
        Seq::empty()
    } else if n == 1 {
        subfield_text(cs[0])
    } else {
        nested_reason(cs, n - 1) + " and "@ + subfield_text(cs[n - 1])
    }
}

/// The first-side positions of the first `n` conflicts, in order.
pub open spec fn first_positions(cs: Seq<ConflictView>, n: int) -> Seq<Pos>
    decreases n,
{
    if n <= 0 || n > cs.len() {
        Seq::empty()
    } else {
        first_positions(cs, n - 1) + cs[n - 1].p1
    }
}

/// The conflict of two fields named `name` whose sub-fields conflict as
/// `cs`, none where they do not. Both sides report the position `pos`
/// followed by the first-side positions of the sub-field conflicts.
pub open spec fn subfield_conflict(cs: Seq<ConflictView>, name: Seq<char>, pos: Pos) -> Option<ConflictView> {
    if cs.len() == 0 {
        None
    } else {
        let ps = seq![pos] + first_positions(cs, cs.len() as int);
        Some(ConflictView { name, reason: nested_reason(cs, cs.len() as int), p1: ps, p2: ps })
    }
}

/// The conflict made of sub-field conflicts.
fn subfield_conflicts(conflicts: &Vec<Conflict>, out_field_name: &str, pos: Pos) -> (r: Option<Conflict>)
    ensures
        opt_conflict_view(r) == subfield_conflict(conflicts_view(conflicts@), out_field_name@, pos),
{
    let ghost cs = conflicts_view(conflicts@);
    if conflicts.len() == 0 {
        return None;
    }
    let mut reason = String::new();
    let mut p1: Vec<Pos> = Vec::new();
    let mut p2: Vec<Pos> = Vec::new();
    p1.push(pos);
    p2.push(pos);
    let mut i: usize = 0;
    while i < conflicts.len()
        invariant
            i <= conflicts@.len(),
            cs == conflicts_view(conflicts@),
            reason@ == nested_reason(cs, i as int),
            p1@ == seq![pos] + first_positions(cs, i as int),
            p2@ == p1@,
        decreases conflicts@.len() - i,
    {
        let c = &conflicts[i];
        if i > 0 {
            reason.append(" and ");
        }
        reason.append("subfields \"");
        reason.append(c.name.as_str());
        reason.append("\" conflict because ");
        reason.append(c.reason.as_str());
        proof {
            reveal_strlit("subfields \"");
            reveal_strlit("\" conflict because ");
            reveal_strlit(" and ");
            if i == 0 {
                assert(nested_reason(cs, 0) =~= Seq::<char>::empty());
            }
        }
        assert(reason@ =~= nested_reason(cs, i as int + 1));
        let ghost before = p1@;
        let mut j: usize = 0;
        while j < c.p1.len()
            invariant
                j <= c.p1@.len(),
                p1@ == before + c.p1@.take(j as int),
                p2@ == p1@,
            decreases c.p1@.len() - j,
        {
            p1.push(c.p1[j]);
            p2.push(c.p1[j]);
            assert(c.p1@.take(j as int + 1) =~= c.p1@.take(j as int).push(c.p1@[j as int]));
            j = j + 1;
        }
        assert(c.p1@.take(j as int) =~= c.p1@);
        assert(p1@ =~= seq![pos] + first_positions(cs, i as int + 1));
        i = i + 1;
    }
    Some(Conflict { name: owned(out_field_name), reason, p1, p2 })
}

// ---------------------------------------------------------------------------
// The comparison walk
// ---------------------------------------------------------------------------

/// The state of a walk of comparisons: the pairs of fragments compared so
/// far, the fragment names visited while comparing one selection set, and
/// the conflicts found so far, in order.
pub struct Walk {
    pub memo: Map<(Seq<char>, Seq<char>), bool>,
    pub visited: Seq<Seq<char>>,
    pub found: Seq<ConflictView>,
}

/// The walk with a conflict added to those found, if there is one.
pub open spec fn push_found(w: Walk, c: Option<ConflictView>) -> Walk {
    match c {
        Some(c) => Walk { found: w.found.push(c), ..w },
        None => w,
    }
}

/// The name of an optional type; empty for none.
pub open spec fn opt_type_name(t: Option<&TypeDefinition>) -> Seq<char> {
    match t {
        Some(t) => type_def_name(t),
        None => Seq::empty(),
    }
}

/// Whether an optional type is an object type.
pub open spec fn opt_is_object(t: Option<&TypeDefinition>) -> bool {
    match t {
        Some(TypeDefinition::Object(_)) => true,
        _ => false,
    }
}

/// The name at the core of an optional field definition's type.
pub open spec fn def_type_name(d: Option<&schema::Field>) -> Option<Seq<char>> {
    match d {
        Some(d) => Some(inner_name(d.field_type)),
        None => None,
    }
}

/// The type that an optional name names.
pub open spec fn opt_type_named<'a>(schema: &'a schema::Document, n: Option<Seq<char>>) -> Option<&'a TypeDefinition> {
    match n {
        Some(n) => type_named(schema, n),
        None => None,
    }
}

/// The grouped fields and spread names of a fragment, selected on its type condition.
pub open spec fn fragment_fields<'a>(
    schema: &'a schema::Document,
    fr: &'a FragmentDefinition,
) -> (Seq<(Seq<char>, Seq<AstAndDef<'a>>)>, Seq<Seq<char>>) {
    fields_and_names(schema, type_named(schema, condition_name(&fr.type_condition)), &fr.selection_set)
}

/// Whether the parents of two fields could never both apply: two different
/// object types, or parents already known to be exclusive.
pub open spec fn exclusive(mutex: bool, a1: AstAndDef, a2: AstAndDef) -> bool {
    mutex || (opt_type_name(a1.parent_type) != opt_type_name(a2.parent_type) && opt_is_object(a1.parent_type)
        && opt_is_object(a2.parent_type))
}

/// The conflict between two fields of the response name `name`, if any,
/// and the walk after comparing their sub-selections. At most `fuel` nested
/// comparisons of sub-selections are made.
pub open spec fn find_conflict<'a>(
    schema: &'a schema::Document,
    doc: &'a Document,
    fuel: nat,
    w: Walk,
    name: Seq<char>,
    a1: AstAndDef<'a>,
    a2: AstAndDef<'a>,
    mutex: bool,
) -> (Walk, Option<ConflictView>)
    decreases fuel, 0int, 0int,
{
    let me = exclusive(mutex, a1, a2);
    let f1 = a1.field;
    let f2 = a2.field;
    if !me && f1.name@ != f2.name@ {
        (
            w,
            Some(
                simple_conflict(
                    name,
                    "\""@ + f1.name@ + "\" and \""@ + f2.name@ + "\" are different fields"@,
                    f1.position,
                    f2.position,
                ),
            ),
        )
    } else if !me && !same_arguments(&f1.arguments, &f2.arguments) {
        (w, Some(simple_conflict(name, "they have differing arguments"@, f1.position, f2.position)))
    } else if a1.field_def.is_some() && a2.field_def.is_some() && type_conflict(
        schema,
        a1.field_def.unwrap().field_type,
        a2.field_def.unwrap().field_type,
    ) {
        (
            w,
            Some(
                simple_conflict(
                    name,
                    "they return conflicting types \""@ + type_text(a1.field_def.unwrap().field_type)
                        + "\" and \""@ + type_text(a2.field_def.unwrap().field_type) + "\""@,
                    f1.position,
                    f2.position,
                ),
            ),
        )
    } else if f1.selection_set.items@.len() > 0 && f2.selection_set.items@.len() > 0 {
        if fuel == 0 {
            (w, None)
        } else {
            let r = sub_selections(
                schema,
                doc,
                (fuel - 1) as nat,
                Walk { found: Seq::empty(), ..w },
                me,
                def_type_name(a1.field_def),
                &f1.selection_set,
                def_type_name(a2.field_def),
                &f2.selection_set,
            );
            (Walk { found: w.found, ..r }, subfield_conflict(r.found, name, f1.position))
        }
    } else {
        (w, None)
    }
}

/// Compares the field `a1` with the first `n` fields of `g2`.
pub open spec fn pairs_inner<'a>(
    schema: &'a schema::Document,
    doc: &'a Document,
    fuel: nat,
    w: Walk,
    mutex: bool,
    name: Seq<char>,
    a1: AstAndDef<'a>,
    g2: Seq<AstAndDef<'a>>,
    n: int,
) -> Walk
    decreases fuel, 1int, n,
{
    if n <= 0 || n > g2.len() {
        w
    } else {
        let w1 = pairs_inner(schema, doc, fuel, w, mutex, name, a1, g2, n - 1);
        let r = find_conflict(schema, doc, fuel, w1, name, a1, g2[n - 1], mutex);
        push_found(r.0, r.1)
    }
}

/// Compares each of the first `n` fields of `g1` with each field of `g2`.
pub open spec fn pairs_outer<'a>(
    schema: &'a schema::Document,
    doc: &'a Document,
    fuel: nat,
    w: Walk,
    mutex: bool,
    name: Seq<char>,
    g1: Seq<AstAndDef<'a>>,
    g2: Seq<AstAndDef<'a>>,
    n: int,
) -> Walk
    decreases fuel, 2int, n,
{
    if n <= 0 || n > g1.len() {
        w
    } else {
        let w1 = pairs_outer(schema, doc, fuel, w, mutex, name, g1, g2, n - 1);
        pairs_inner(schema, doc, fuel, w1, mutex, name, g1[n - 1], g2, g2.len() as int)
    }
}

/// Compares the fields of the first `n` groups of `m1` with the fields of
/// the same response name in `m2`.
pub open spec fn between<'a>(
    schema: &'a schema::Document,
    doc: &'a Document,
    fuel: nat,
    w: Walk,
    mutex: bool,
    m1: Seq<(Seq<char>, Seq<AstAndDef<'a>>)>,
    m2: Seq<(Seq<char>, Seq<AstAndDef<'a>>)>,
    n: int,
) -> Walk
    decreases fuel, 3int, n,
{
    if n <= 0 || n > m1.len() {
        w
    } else {
        let w1 = between(schema, doc, fuel, w, mutex, m1, m2, n - 1);
        match group_of(m2, m1[n - 1].0) {
            Some(g2) => pairs_outer(schema, doc, fuel, w1, mutex, m1[n - 1].0, m1[n - 1].1, g2, m1[n - 1].1.len() as int),
            None => w1,
        }
    }
}

/// Compares the fields `m` with the fragments spread in another fragment,
/// the first `n` of `names`: each is marked visited and compared in turn,
/// and the comparisons stop at the first one visited before. The flag
/// tells whether they stopped.
pub open spec fn ff_nested<'a>(
    schema: &'a schema::Document,
    doc: &'a Document,
    fuel: nat,
    w: Walk,
    m: Seq<(Seq<char>, Seq<AstAndDef<'a>>)>,
    names: Seq<Seq<char>>,
    mutex: bool,
    n: int,
) -> (Walk, bool)
    decreases fuel, 4int, n,
{
    if n <= 0 || n > names.len() {
        (w, false)
    } else {
        let prev = ff_nested(schema, doc, fuel, w, m, names, mutex, n - 1);
        if prev.1 {
            prev
        } else if prev.0.visited.contains(names[n - 1]) {
            (prev.0, true)
        } else {
            let w1 = Walk { visited: prev.0.visited.push(names[n - 1]), ..prev.0 };
            if fuel == 0 {
                (w1, false)
            } else {
                (fields_and_fragment(schema, doc, (fuel - 1) as nat, w1, m, names[n - 1], mutex), false)
            }
        }
    }
}

/// Compares the fields `m` with those of the fragment `name` and of the
/// fragments it spreads; nothing where there is no such fragment or it
/// spreads itself.
pub open spec fn fields_and_fragment<'a>(
    schema: &'a schema::Document,
    doc: &'a Document,
    fuel: nat,
    w: Walk,
    m: Seq<(Seq<char>, Seq<AstAndDef<'a>>)>,
    name: Seq<char>,
    mutex: bool,
) -> Walk
    decreases fuel, 5int, 0int,
{
    match known_fragment(doc, name) {
        None => w,
        Some(fr) => {
            let f2 = fragment_fields(schema, fr);
            if f2.1.contains(name) {
                w
            } else {
                let w1 = between(schema, doc, fuel, w, mutex, m, f2.0, m.len() as int);
                ff_nested(schema, doc, fuel, w1, m, f2.1, mutex, f2.1.len() as int).0
            }
        }
    }
}

/// Compares the fragment `fixed` with the first `n` of `names`, `fixed`
/// first or second in each pair.
pub open spec fn bf_nested<'a>(
    schema: &'a schema::Document,
    doc: &'a Document,
    fuel: nat,
    w: Walk,
    fixed: Seq<char>,
    names: Seq<Seq<char>>,
    mutex: bool,
    fixed_first: bool,
    n: int,
) -> Walk
    decreases fuel, 6int, n,
{
    if n <= 0 || n > names.len() {
        w
    } else {
        let w1 = bf_nested(schema, doc, fuel, w, fixed, names, mutex, fixed_first, n - 1);
        if fuel == 0 {
            w1
        } else if fixed_first {
            between_fragments(schema, doc, (fuel - 1) as nat, w1, fixed, names[n - 1], mutex)
        } else {
            between_fragments(schema, doc, (fuel - 1) as nat, w1, names[n - 1], fixed, mutex)
        }
    }
}

/// Compares two fragments and the fragments they spread, unless they are
/// the same fragment or were compared before in a way that covers this
/// comparison; the comparison is recorded before it is made.
pub open spec fn between_fragments<'a>(
    schema: &'a schema::Document,
    doc: &'a Document,
    fuel: nat,
    w: Walk,
    n1: Seq<char>,
    n2: Seq<char>,
    mutex: bool,
) -> Walk
    decreases fuel, 7int, 0int,
{
    if n1 == n2 || pair_seen(w.memo, n1, n2, mutex) {
        w
    } else {
        let w0 = Walk { memo: pair_insert(w.memo, n1, n2, mutex), ..w };
        match (known_fragment(doc, n1), known_fragment(doc, n2)) {
            (Some(fr1), Some(fr2)) => {
                let fa = fragment_fields(schema, fr1);
                let fb = fragment_fields(schema, fr2);
                let w1 = between(schema, doc, fuel, w0, mutex, fa.0, fb.0, fa.0.len() as int);
                let w2 = bf_nested(schema, doc, fuel, w1, n1, fb.1, mutex, true, fb.1.len() as int);
                bf_nested(schema, doc, fuel, w2, n2, fa.1, mutex, false, fa.1.len() as int)
            },
            _ => w0,
        }
    }
}

/// Compares the fields `m` with each of the first `n` fragments of `names`.
pub open spec fn ff_list<'a>(
    schema: &'a schema::Document,
    doc: &'a Document,
    fuel: nat,
    w: Walk,
    m: Seq<(Seq<char>, Seq<AstAndDef<'a>>)>,
    names: Seq<Seq<char>>,
    mutex: bool,
    n: int,
) -> Walk
    decreases fuel, 8int, n,
{
    if n <= 0 || n > names.len() {
        w
    } else {
        let w1 = ff_list(schema, doc, fuel, w, m, names, mutex, n - 1);
        fields_and_fragment(schema, doc, fuel, w1, m, names[n - 1], mutex)
    }
}

/// Compares the fragment `n1` with each of the first `n` fragments of `names2`.
pub open spec fn cross_inner<'a>(
    schema: &'a schema::Document,
    doc: &'a Document,
    fuel: nat,
    w: Walk,
    n1: Seq<char>,
    names2: Seq<Seq<char>>,
    mutex: bool,
    n: int,
) -> Walk
    decreases fuel, 9int, n,
{
    if n <= 0 || n > names2.len() {
        w
    } else {
        let w1 = cross_inner(schema, doc, fuel, w, n1, names2, mutex, n - 1);
        between_fragments(schema, doc, fuel, w1, n1, names2[n - 1], mutex)
    }
}

/// Compares each of the first `n` fragments of `names1` with each fragment of `names2`.
pub open spec fn cross_outer<'a>(
    schema: &'a schema::Document,
    doc: &'a Document,
    fuel: nat,
    w: Walk,
    names1: Seq<Seq<char>>,
    names2: Seq<Seq<char>>,
    mutex: bool,
    n: int,
) -> Walk
    decreases fuel, 10int, n,
{
    if n <= 0 || n > names1.len() {
        w
    } else {
        let w1 = cross_outer(schema, doc, fuel, w, names1, names2, mutex, n - 1);
        cross_inner(schema, doc, fuel, w1, names1[n - 1], names2, mutex, names2.len() as int)
    }
}

/// Compares two sub-selections, selected on the types named `pn1` and
/// `pn2`: their fields, each one's fields with the other's fragments, and
/// their fragments with each other.
pub open spec fn sub_selections<'a>(
    schema: &'a schema::Document,
    doc: &'a Document,
    fuel: nat,
    w: Walk,
    mutex: bool,
    pn1: Option<Seq<char>>,
    ss1: &'a SelectionSet,
    pn2: Option<Seq<char>>,
    ss2: &'a SelectionSet,
) -> Walk
    decreases fuel, 11int, 0int,
{
    let fa = fields_and_names(schema, opt_type_named(schema, pn1), ss1);
    let fb = fields_and_names(schema, opt_type_named(schema, pn2), ss2);
    let w1 = between(schema, doc, fuel, w, mutex, fa.0, fb.0, fa.0.len() as int);
    let w2 = ff_list(schema, doc, fuel, w1, fa.0, fb.1, mutex, fb.1.len() as int);
    let w3 = ff_list(schema, doc, fuel, w2, fb.0, fa.1, mutex, fa.1.len() as int);
    cross_outer(schema, doc, fuel, w3, fa.1, fb.1, mutex, fa.1.len() as int)
}

// ---------------------------------------------------------------------------
// The comparisons
// ---------------------------------------------------------------------------

/// The walk state held by the comparisons.
pub open spec fn walk_of<'a>(memo: Map<(Seq<char>, Seq<char>), bool>, visited: Seq<&'a String>, found: Seq<Conflict>) -> Walk {
    Walk { memo, visited: texts(visited), found: conflicts_view(found) }
}

/// The mathematical form of an optional name.
pub open spec fn opt_text(n: Option<String>) -> Option<Seq<char>> {
    match n {
        Some(n) => Some(n@),
        None => None,
    }
}

/// A field comparison passes the conflicts found before through unchanged.
proof fn lemma_find_conflict_found<'a>(
    schema: &'a schema::Document,
    doc: &'a Document,
    fuel: nat,
    w: Walk,
    name: Seq<char>,
    a1: AstAndDef<'a>,
    a2: AstAndDef<'a>,
    mutex: bool,
)
    ensures
        ({
            let r = find_conflict(schema, doc, fuel, Walk { found: Seq::empty(), ..w }, name, a1, a2, mutex);
            find_conflict(schema, doc, fuel, w, name, a1, a2, mutex) == (Walk { found: w.found, ..r.0 }, r.1)
        }),
{
}

/// The name of an optional type; empty for none.
fn type_name_of<'a>(t: Option<&'a TypeDefinition>) -> (r: &'a str)
    ensures
        r@ == opt_type_name(t),
{
    match t {
        Some(t) => t.name(),
        None => {
            proof { reveal_strlit(""); }
            ""
        },
    }
}

/// Whether an optional type is an object type.
fn is_object(t: Option<&TypeDefinition>) -> (r: bool)
    ensures
        r == opt_is_object(t),
{
    match t {
        Some(TypeDefinition::Object(_)) => true,
        _ => false,
    }
}

/// A conflict with one position on each side.
fn simple_conflict_of(name: &str, reason: String, p1: Pos, p2: Pos) -> (r: Conflict)
    ensures
        r@ == simple_conflict(name@, reason@, p1, p2),
{
    let mut v1: Vec<Pos> = Vec::new();
    v1.push(p1);
    let mut v2: Vec<Pos> = Vec::new();
    v2.push(p2);
    assert(v1@ =~= seq![p1]);
    assert(v2@ =~= seq![p2]);
    Conflict { name: owned(name), reason, p1: v1, p2: v2 }
}

/// The fields and spread fragment names of a fragment, selected on its type condition.
fn get_referenced_fields_and_fragment_names<'a>(
    schema: &'a schema::Document,
    fragment: &'a FragmentDefinition,
) -> (r: (Vec<(&'a String, Vec<AstAndDef<'a>>)>, Vec<&'a String>))
    ensures
        (fm_view(r.0@), texts(r.1@)) == fragment_fields(schema, fragment),
{
    let TypeCondition::On(type_condition) = &fragment.type_condition;
    let fragment_type = schema.type_by_name(type_condition.as_str());
    get_fields_and_fragment_names(schema, fragment_type, &fragment.selection_set)
}

/// The conflict between two fields of the response name `out_field_name`, if any.
fn find_conflict_in<'a>(
    schema: &'a schema::Document,
    doc: &'a Document,
    pairs: &mut PairSet<'a>,
    visited: &mut Vec<&'a String>,
    out_field_name: &str,
    first: &AstAndDef<'a>,
    second: &AstAndDef<'a>,
    parents_mutually_exclusive: bool,
    fuel: u64,
) -> (r: Option<Conflict>)
    ensures
        ({
            let s = find_conflict(
                schema,
                doc,
                fuel as nat,
                walk_of(old(pairs)@, old(visited)@, Seq::empty()),
                out_field_name@,
                *first,
                *second,
                parents_mutually_exclusive,
            );
            &&& final(pairs)@ == s.0.memo
            &&& texts(final(visited)@) == s.0.visited
            &&& s.0.found == Seq::<ConflictView>::empty()
            &&& opt_conflict_view(r) == s.1
        }),
    decreases fuel, 0int,
{
    let a1 = *first;
    let a2 = *second;
    let mutually_exclusive = parents_mutually_exclusive || (!str_eq(
        type_name_of(a1.parent_type),
        type_name_of(a2.parent_type),
    ) && is_object(a1.parent_type) && is_object(a2.parent_type));
    let field1 = a1.field;
    let field2 = a2.field;
    proof {
        assert(conflicts_view(Seq::<Conflict>::empty()) =~= Seq::<ConflictView>::empty());
    }
    if !mutually_exclusive {
        if !str_eq(field1.name.as_str(), field2.name.as_str()) {
            let reason = concat5("\"", field1.name.as_str(), "\" and \"", field2.name.as_str(), "\" are different fields");
            return Some(simple_conflict_of(out_field_name, reason, field1.position, field2.position));
        }
        if !is_same_arguments(&field1.arguments, &field2.arguments) {
            let reason = owned("they have differing arguments");
            return Some(simple_conflict_of(out_field_name, reason, field1.position, field2.position));
        }
    }
    if let (Some(d1), Some(d2)) = (a1.field_def, a2.field_def) {
        if is_type_conflict(schema, &d1.field_type, &d2.field_type) {
            let t1 = type_to_string(&d1.field_type);
            let t2 = type_to_string(&d2.field_type);
            let reason = concat5("they return conflicting types \"", t1.as_str(), "\" and \"", t2.as_str(), "\"");
            return Some(simple_conflict_of(out_field_name, reason, field1.position, field2.position));
        }
    }
    if field1.selection_set.items.len() > 0 && field2.selection_set.items.len() > 0 {
        if fuel == 0 {
            return None;
        }
        let parent_type_name1: Option<String> = match a1.field_def {
            Some(d) => Some(d.field_type.inner_type()),
            None => None,
        };
        let parent_type_name2: Option<String> = match a2.field_def {
            Some(d) => Some(d.field_type.inner_type()),
            None => None,
        };
        let conflicts = find_conflicts_between_sub_selection_sets(
            schema,
            doc,
            pairs,
            visited,
            mutually_exclusive,
            parent_type_name1,
            &field1.selection_set,
            parent_type_name2,
            &field2.selection_set,
            fuel - 1,
        );
        return subfield_conflicts(&conflicts, out_field_name, field1.position);
    }
    None
}

/// Compares the fields of `field_map1` with the fields of the same response
/// name in `field_map2`.
fn collect_conflicts_between<'a>(
    schema: &'a schema::Document,
    doc: &'a Document,
    pairs: &mut PairSet<'a>,
    visited: &mut Vec<&'a String>,
    conflicts: &mut Vec<Conflict>,
    mutually_exclusive: bool,
    field_map1: &Vec<(&'a String, Vec<AstAndDef<'a>>)>,
    field_map2: &Vec<(&'a String, Vec<AstAndDef<'a>>)>,
    fuel: u64,
)
    ensures
        walk_of(final(pairs)@, final(visited)@, final(conflicts)@) == between(
            schema,
            doc,
            fuel as nat,
            walk_of(old(pairs)@, old(visited)@, old(conflicts)@),
            mutually_exclusive,
            fm_view(field_map1@),
            fm_view(field_map2@),
            field_map1@.len() as int,
        ),
    decreases fuel, 3int,
{
    let ghost w0 = walk_of(pairs@, visited@, conflicts@);
    let ghost m1 = fm_view(field_map1@);
    let ghost m2 = fm_view(field_map2@);
    let mut i: usize = 0;
    while i < field_map1.len()
        invariant
            i <= field_map1@.len(),
            m1 == fm_view(field_map1@),
            m2 == fm_view(field_map2@),
            walk_of(pairs@, visited@, conflicts@) == between(schema, doc, fuel as nat, w0, mutually_exclusive, m1, m2, i as int),
        decreases field_map1@.len() - i,
    {
        let entry = &field_map1[i];
        let response_name: &'a String = entry.0;
        let fields1 = &entry.1;
        match find_group(field_map2, response_name.as_str()) {
            Some(p) => {
                let fields2 = &field_map2[p].1;
                let ghost wa = walk_of(pairs@, visited@, conflicts@);
                let mut j: usize = 0;
                while j < fields1.len()
                    invariant
                        j <= fields1@.len(),
                        m1 == fm_view(field_map1@),
                        m2 == fm_view(field_map2@),
                        fields1@ == m1[i as int].1,
                        fields2@ == m2[p as int].1,
                        response_name@ == m1[i as int].0,
                        walk_of(pairs@, visited@, conflicts@) == pairs_outer(
                            schema,
                            doc,
                            fuel as nat,
                            wa,
                            mutually_exclusive,
                            response_name@,
                            fields1@,
                            fields2@,
                            j as int,
                        ),
                    decreases fields1@.len() - j,
                {
                    let ghost wb = walk_of(pairs@, visited@, conflicts@);
                    let mut k: usize = 0;
                    while k < fields2.len()
                        invariant
                            k <= fields2@.len(),
                            j < fields1@.len(),
                            walk_of(pairs@, visited@, conflicts@) == pairs_inner(
                                schema,
                                doc,
                                fuel as nat,
                                wb,
                                mutually_exclusive,
                                response_name@,
                                fields1@[j as int],
                                fields2@,
                                k as int,
                            ),
                        decreases fields2@.len() - k,
                    {
                        let ghost wc = walk_of(pairs@, visited@, conflicts@);
                        let ghost found_before = conflicts@;
                        proof {
                            lemma_find_conflict_found(
                                schema,
                                doc,
                                fuel as nat,
                                wc,
                                response_name@,
                                fields1@[j as int],
                                fields2@[k as int],
                                mutually_exclusive,
                            );
                            assert(conflicts_view(Seq::<Conflict>::empty()) =~= Seq::<ConflictView>::empty());
                        }
                        let c = find_conflict_in(
                            schema,
                            doc,
                            pairs,
                            visited,
                            response_name.as_str(),
                            &fields1[j],
                            &fields2[k],
                            mutually_exclusive,
                            fuel,
                        );
                        match c {
                            Some(c) => {
                                conflicts.push(c);
                                assert(conflicts_view(conflicts@) =~= conflicts_view(found_before).push(c@));
                            },
                            None => {},
                        }
                        k = k + 1;
                    }
                    j = j + 1;
                }
            },
            None => {},
        }
        i = i + 1;
    }
}

/// Compares the fields `field_map` with those of the fragment `fragment_name`
/// and of the fragments it spreads.
fn collect_conflicts_between_fields_and_fragment<'a>(
    schema: &'a schema::Document,
    doc: &'a Document,
    pairs: &mut PairSet<'a>,
    visited: &mut Vec<&'a String>,
    conflicts: &mut Vec<Conflict>,
    field_map: &Vec<(&'a String, Vec<AstAndDef<'a>>)>,
    fragment_name: &str,
    mutually_exclusive: bool,
    fuel: u64,
)
    ensures
        walk_of(final(pairs)@, final(visited)@, final(conflicts)@) == fields_and_fragment(
            schema,
            doc,
            fuel as nat,
            walk_of(old(pairs)@, old(visited)@, old(conflicts)@),
            fm_view(field_map@),
            fragment_name@,
            mutually_exclusive,
        ),
    decreases fuel, 5int,
{
    let fragment = match find_fragment(doc, fragment_name) {
        Some(f) => f,
        None => return ,
    };
    let (field_map2, fragment_names2) = get_referenced_fields_and_fragment_names(schema, fragment);
    if contains_text(&fragment_names2, fragment_name) {
        return ;
    }
    collect_conflicts_between(
        schema,
        doc,
        pairs,
        visited,
        conflicts,
        mutually_exclusive,
        field_map,
        &field_map2,
        fuel,
    );
    let ghost w1 = walk_of(pairs@, visited@, conflicts@);
    let ghost names2 = texts(fragment_names2@);
    let mut stopped = false;
    let mut i: usize = 0;
    while i < fragment_names2.len()
        invariant
            i <= fragment_names2@.len(),
            names2 == texts(fragment_names2@),
            (walk_of(pairs@, visited@, conflicts@), stopped) == ff_nested(
                schema,
                doc,
                fuel as nat,
                w1,
                fm_view(field_map@),
                names2,
                mutually_exclusive,
                i as int,
            ),
        decreases fragment_names2@.len() - i,
    {
        if !stopped {
            let fragment_name2: &'a String = fragment_names2[i];
            if contains_text(visited, fragment_name2.as_str()) {
                stopped = true;
            } else {
                let ghost before = visited@;
                visited.push(fragment_name2);
                assert(texts(visited@) =~= texts(before).push(fragment_name2@));
                if fuel > 0 {
                    collect_conflicts_between_fields_and_fragment(
                        schema,
                        doc,
                        pairs,
                        visited,
                        conflicts,
                        field_map,
                        fragment_name2.as_str(),
                        mutually_exclusive,
                        fuel - 1,
                    );
                }
            }
        }
        i = i + 1;
    }
}

/// Compares two fragments and the fragments they spread.
fn collect_conflicts_between_fragments<'a>(
    schema: &'a schema::Document,
    doc: &'a Document,
    pairs: &mut PairSet<'a>,
    visited: &mut Vec<&'a String>,
    conflicts: &mut Vec<Conflict>,
    fragment_name1: &'a String,
    fragment_name2: &'a String,
    mutually_exclusive: bool,
    fuel: u64,
)
    ensures
        walk_of(final(pairs)@, final(visited)@, final(conflicts)@) == between_fragments(
            schema,
            doc,
            fuel as nat,
            walk_of(old(pairs)@, old(visited)@, old(conflicts)@),
            fragment_name1@,
            fragment_name2@,
            mutually_exclusive,
        ),
    decreases fuel, 7int,
{
    if str_eq(fragment_name1.as_str(), fragment_name2.as_str()) {
        return ;
    }
    if pairs.contains(fragment_name1.as_str(), fragment_name2.as_str(), mutually_exclusive) {
        return ;
    }
    pairs.insert(fragment_name1, fragment_name2, mutually_exclusive);
    let fragment1 = match find_fragment(doc, fragment_name1.as_str()) {
        Some(f) => f,
        None => return ,
    };
    let fragment2 = match find_fragment(doc, fragment_name2.as_str()) {
        Some(f) => f,
        None => return ,
    };
    let (field_map1, fragment_names1) = get_referenced_fields_and_fragment_names(schema, fragment1);
    let (field_map2, fragment_names2) = get_referenced_fields_and_fragment_names(schema, fragment2);
    collect_conflicts_between(
        schema,
        doc,
        pairs,
        visited,
        conflicts,
        mutually_exclusive,
        &field_map1,
        &field_map2,
        fuel,
    );
    let ghost w1 = walk_of(pairs@, visited@, conflicts@);
    let mut k: usize = 0;
    while k < fragment_names2.len()
        invariant
            k <= fragment_names2@.len(),
            walk_of(pairs@, visited@, conflicts@) == bf_nested(
                schema,
                doc,
                fuel as nat,
                w1,
                fragment_name1@,
                texts(fragment_names2@),
                mutually_exclusive,
                true,
                k as int,
            ),
        decreases fragment_names2@.len() - k,
    {
        if fuel > 0 {
            collect_conflicts_between_fragments(
                schema,
                doc,
                pairs,
                visited,
                conflicts,
                fragment_name1,
                fragment_names2[k],
                mutually_exclusive,
                fuel - 1,
            );
        }
        k = k + 1;
    }
    let ghost w2 = walk_of(pairs@, visited@, conflicts@);
    let mut k: usize = 0;
    while k < fragment_names1.len()
        invariant
            k <= fragment_names1@.len(),
            walk_of(pairs@, visited@, conflicts@) == bf_nested(
                schema,
                doc,
                fuel as nat,
                w2,
                fragment_name2@,
                texts(fragment_names1@),
                mutually_exclusive,
                false,
                k as int,
            ),
        decreases fragment_names1@.len() - k,
    {
        if fuel > 0 {
            collect_conflicts_between_fragments(
                schema,
                doc,
                pairs,
                visited,
                conflicts,
                fragment_names1[k],
                fragment_name2,
                mutually_exclusive,
                fuel - 1,
            );
        }
        k = k + 1;
    }
}

/// Compares two sub-selections, selected on the types named
/// `parent_type_name1` and `parent_type_name2`, and returns the conflicts found.
fn find_conflicts_between_sub_selection_sets<'a>(
    schema: &'a schema::Document,
    doc: &'a Document,
    pairs: &mut PairSet<'a>,
    visited: &mut Vec<&'a String>,
    mutually_exclusive: bool,
    parent_type_name1: Option<String>,
    selection_set1: &'a SelectionSet,
    parent_type_name2: Option<String>,
    selection_set2: &'a SelectionSet,
    fuel: u64,
) -> (r: Vec<Conflict>)
    ensures
        walk_of(final(pairs)@, final(visited)@, r@) == sub_selections(
            schema,
            doc,
            fuel as nat,
            walk_of(old(pairs)@, old(visited)@, Seq::empty()),
            mutually_exclusive,
            opt_text(parent_type_name1),
            selection_set1,
            opt_text(parent_type_name2),
            selection_set2,
        ),
    decreases fuel, 11int,
{
    let mut conflicts: Vec<Conflict> = Vec::new();
    let parent_type1 = match &parent_type_name1 {
        Some(t) => schema.type_by_name(t.as_str()),
        None => None,
    };
    let parent_type2 = match &parent_type_name2 {
        Some(t) => schema.type_by_name(t.as_str()),
        None => None,
    };
    let (field_map1, fragment_names1) = get_fields_and_fragment_names(schema, parent_type1, selection_set1);
    let (field_map2, fragment_names2) = get_fields_and_fragment_names(schema, parent_type2, selection_set2);
    collect_conflicts_between(
        schema,
        doc,
        pairs,
        visited,
        &mut conflicts,
        mutually_exclusive,
        &field_map1,
        &field_map2,
        fuel,
    );
    let ghost w1 = walk_of(pairs@, visited@, conflicts@);
    let mut i: usize = 0;
    while i < fragment_names2.len()
        invariant
            i <= fragment_names2@.len(),
            walk_of(pairs@, visited@, conflicts@) == ff_list(
                schema,
                doc,
                fuel as nat,
                w1,
                fm_view(field_map1@),
                texts(fragment_names2@),
                mutually_exclusive,
                i as int,
            ),
        decreases fragment_names2@.len() - i,
    {
        collect_conflicts_between_fields_and_fragment(
            schema,
            doc,
            pairs,
            visited,
            &mut conflicts,
            &field_map1,
            fragment_names2[i].as_str(),
            mutually_exclusive,
            fuel,
        );
        i = i + 1;
    }
    let ghost w2 = walk_of(pairs@, visited@, conflicts@);
    let mut i: usize = 0;
    while i < fragment_names1.len()
        invariant
            i <= fragment_names1@.len(),
            walk_of(pairs@, visited@, conflicts@) == ff_list(
                schema,
                doc,
                fuel as nat,
                w2,
                fm_view(field_map2@),
                texts(fragment_names1@),
                mutually_exclusive,
                i as int,
            ),
        decreases fragment_names1@.len() - i,
    {
        collect_conflicts_between_fields_and_fragment(
            schema,
            doc,
            pairs,
            visited,
            &mut conflicts,
            &field_map2,
            fragment_names1[i].as_str(),
            mutually_exclusive,
            fuel,
        );
        i = i + 1;
    }
    let ghost w3 = walk_of(pairs@, visited@, conflicts@);
    let mut i: usize = 0;
    while i < fragment_names1.len()
        invariant
            i <= fragment_names1@.len(),
            walk_of(pairs@, visited@, conflicts@) == cross_outer(
                schema,
                doc,
                fuel as nat,
                w3,
                texts(fragment_names1@),
                texts(fragment_names2@),
                mutually_exclusive,
                i as int,
            ),
        decreases fragment_names1@.len() - i,
    {
        let ghost wi = walk_of(pairs@, visited@, conflicts@);
        let mut j: usize = 0;
        while j < fragment_names2.len()
            invariant
                j <= fragment_names2@.len(),
                i < fragment_names1@.len(),
                walk_of(pairs@, visited@, conflicts@) == cross_inner(
                    schema,
                    doc,
                    fuel as nat,
                    wi,
                    texts(fragment_names1@)[i as int],
                    texts(fragment_names2@),
                    mutually_exclusive,
                    j as int,
                ),
            decreases fragment_names2@.len() - j,
        {
            collect_conflicts_between_fragments(
                schema,
                doc,
                pairs,
                visited,
                &mut conflicts,
                fragment_names1[i],
                fragment_names2[j],
                mutually_exclusive,
                fuel,
            );
            j = j + 1;
        }
        i = i + 1;
    }
    proof {
        assert(conflicts_view(Seq::<Conflict>::empty()) =~= Seq::<ConflictView>::empty());
    }
    conflicts
}

// ---------------------------------------------------------------------------
// Comparing within a selection set
// ---------------------------------------------------------------------------

/// Compares the field `g[i]` with the fields after it, up to the `k`-th.
pub open spec fn within_after<'a>(
    schema: &'a schema::Document,
    doc: &'a Document,
    fuel: nat,
    w: Walk,
    name: Seq<char>,
    g: Seq<AstAndDef<'a>>,
    i: int,
    k: int,
) -> Walk
    decreases k,
{
    if i < 0 || k <= i + 1 || k > g.len() {
        w
    } else {
        let w1 = within_after(schema, doc, fuel, w, name, g, i, k - 1);
        let r = find_conflict(schema, doc, fuel, w1, name, g[i], g[k - 1], false);
        push_found(r.0, r.1)
    }
}

/// Compares each of the first `n` fields of a group with every later field of it.
pub open spec fn within_group<'a>(
    schema: &'a schema::Document,
    doc: &'a Document,
    fuel: nat,
    w: Walk,
    name: Seq<char>,
    g: Seq<AstAndDef<'a>>,
    n: int,
) -> Walk
    decreases n,
{
    if n <= 0 || n > g.len() {
        w
    } else {
        let w1 = within_group(schema, doc, fuel, w, name, g, n - 1);
        within_after(schema, doc, fuel, w1, name, g, n - 1, g.len() as int)
    }
}

/// Compares the fields within each of the first `n` groups.
pub open spec fn within_groups<'a>(
    schema: &'a schema::Document,
    doc: &'a Document,
    fuel: nat,
    w: Walk,
    m: Seq<(Seq<char>, Seq<AstAndDef<'a>>)>,
    n: int,
) -> Walk
    decreases n,
{
    if n <= 0 || n > m.len() {
        w
    } else {
        let w1 = within_groups(schema, doc, fuel, w, m, n - 1);
        within_group(schema, doc, fuel, w1, m[n - 1].0, m[n - 1].1, m[n - 1].1.len() as int)
    }
}

/// Compares the fragment `names[i]` with the fragments after it, up to the `k`-th.
pub open spec fn cross_after<'a>(
    schema: &'a schema::Document,
    doc: &'a Document,
    fuel: nat,
    w: Walk,
    names: Seq<Seq<char>>,
    i: int,
    k: int,
) -> Walk
    decreases k,
{
    if i < 0 || k <= i + 1 || k > names.len() {
        w
    } else {
        let w1 = cross_after(schema, doc, fuel, w, names, i, k - 1);
        between_fragments(schema, doc, fuel, w1, names[i], names[k - 1], false)
    }
}

/// Compares the fields `m` with each of the first `n` spread fragments, and
/// each of those fragments with every later one.
pub open spec fn within_names<'a>(
    schema: &'a schema::Document,
    doc: &'a Document,
    fuel: nat,
    w: Walk,
    m: Seq<(Seq<char>, Seq<AstAndDef<'a>>)>,
    names: Seq<Seq<char>>,
    n: int,
) -> Walk
    decreases n,
{
    if n <= 0 || n > names.len() {
        w
    } else {
        let w1 = within_names(schema, doc, fuel, w, m, names, n - 1);
        let w2 = fields_and_fragment(schema, doc, fuel, w1, m, names[n - 1], false);
        cross_after(schema, doc, fuel, w2, names, n - 1, names.len() as int)
    }
}

/// The comparisons made for one selection set selected on `parent`: its
/// fields with each other, its fields with the fragments it spreads, and
/// those fragments with each other.
pub open spec fn within<'a>(
    schema: &'a schema::Document,
    doc: &'a Document,
    fuel: nat,
    w: Walk,
    parent: Option<&'a TypeDefinition>,
    ss: &'a SelectionSet,
) -> Walk {
    let f = fields_and_names(schema, parent, ss);
    let w1 = within_groups(schema, doc, fuel, w, f.0, f.0.len() as int);
    within_names(schema, doc, fuel, w1, f.0, f.1, f.1.len() as int)
}

/// Compares the fields within each group of `field_map`.
fn collect_conflicts_within<'a>(
    schema: &'a schema::Document,
    doc: &'a Document,
    pairs: &mut PairSet<'a>,
    visited: &mut Vec<&'a String>,
    conflicts: &mut Vec<Conflict>,
    field_map: &Vec<(&'a String, Vec<AstAndDef<'a>>)>,
    fuel: u64,
)
    ensures
        walk_of(final(pairs)@, final(visited)@, final(conflicts)@) == within_groups(
            schema,
            doc,
            fuel as nat,
            walk_of(old(pairs)@, old(visited)@, old(conflicts)@),
            fm_view(field_map@),
            field_map@.len() as int,
        ),
{
    let ghost w0 = walk_of(pairs@, visited@, conflicts@);
    let ghost m = fm_view(field_map@);
    let mut i: usize = 0;
    while i < field_map.len()
        invariant
            i <= field_map@.len(),
            m == fm_view(field_map@),
            walk_of(pairs@, visited@, conflicts@) == within_groups(schema, doc, fuel as nat, w0, m, i as int),
        decreases field_map@.len() - i,
    {
        let out_field_name: &'a String = field_map[i].0;
        let fields = &field_map[i].1;
        let ghost wg = walk_of(pairs@, visited@, conflicts@);
        let mut index: usize = 0;
        while index < fields.len()
            invariant
                index <= fields@.len(),
                i < field_map@.len(),
                m == fm_view(field_map@),
                fields@ == m[i as int].1,
                out_field_name@ == m[i as int].0,
                walk_of(pairs@, visited@, conflicts@) == within_group(
                    schema,
                    doc,
                    fuel as nat,
                    wg,
                    out_field_name@,
                    fields@,
                    index as int,
                ),
            decreases fields@.len() - index,
        {
            let ghost wa = walk_of(pairs@, visited@, conflicts@);
            let mut k: usize = index + 1;
            while k < fields.len()
                invariant
                    index < k <= fields@.len(),
                    walk_of(pairs@, visited@, conflicts@) == within_after(
                        schema,
                        doc,
                        fuel as nat,
                        wa,
                        out_field_name@,
                        fields@,
                        index as int,
                        k as int,
                    ),
                decreases fields@.len() - k,
            {
                let ghost wc = walk_of(pairs@, visited@, conflicts@);
                let ghost found_before = conflicts@;
                proof {
                    lemma_find_conflict_found(
                        schema,
                        doc,
                        fuel as nat,
                        wc,
                        out_field_name@,
                        fields@[index as int],
                        fields@[k as int],
                        false,
                    );
                    assert(conflicts_view(Seq::<Conflict>::empty()) =~= Seq::<ConflictView>::empty());
                }
                let c = find_conflict_in(
                    schema,
                    doc,
                    pairs,
                    visited,
                    out_field_name.as_str(),
                    &fields[index],
                    &fields[k],
                    false,
                    fuel,
                );
                match c {
                    Some(c) => {
                        conflicts.push(c);
                        assert(conflicts_view(conflicts@) =~= conflicts_view(found_before).push(c@));
                    },
                    None => {},
                }
                k = k + 1;
            }
            index = index + 1;
        }
        i = i + 1;
    }
}

/// The conflicts found for one selection set selected on `parent_type`.
fn find_conflicts_within_selection_set<'a>(
    schema: &'a schema::Document,
    doc: &'a Document,
    pairs: &mut PairSet<'a>,
    parent_type: Option<&'a TypeDefinition>,
    selection_set: &'a SelectionSet,
    fuel: u64,
) -> (r: Vec<Conflict>)
    ensures
        ({
            let s = within(
                schema,
                doc,
                fuel as nat,
                Walk { memo: old(pairs)@, visited: Seq::empty(), found: Seq::empty() },
                parent_type,
                selection_set,
            );
            &&& final(pairs)@ == s.memo
            &&& conflicts_view(r@) == s.found
        }),
{
    let mut visited: Vec<&'a String> = Vec::new();
    let mut conflicts: Vec<Conflict> = Vec::new();
    proof {
        assert(conflicts_view(conflicts@) =~= Seq::<ConflictView>::empty());
        assert(texts(visited@) =~= Seq::<Seq<char>>::empty());
    }
    let (field_map, fragment_names) = get_fields_and_fragment_names(schema, parent_type, selection_set);
    collect_conflicts_within(schema, doc, pairs, &mut visited, &mut conflicts, &field_map, fuel);
    let ghost w1 = walk_of(pairs@, visited@, conflicts@);
    let mut i: usize = 0;
    while i < fragment_names.len()
        invariant
            i <= fragment_names@.len(),
            walk_of(pairs@, visited@, conflicts@) == within_names(
                schema,
                doc,
                fuel as nat,
                w1,
                fm_view(field_map@),
                texts(fragment_names@),
                i as int,
            ),
        decreases fragment_names@.len() - i,
    {
        let frag_name1: &'a String = fragment_names[i];
        collect_conflicts_between_fields_and_fragment(
            schema,
            doc,
            pairs,
            &mut visited,
            &mut conflicts,
            &field_map,
            frag_name1.as_str(),
            false,
            fuel,
        );
        let ghost w2 = walk_of(pairs@, visited@, conflicts@);
        let mut j: usize = i + 1;
        while j < fragment_names.len()
            invariant
                i < j <= fragment_names@.len(),
                frag_name1 == fragment_names@[i as int],
                walk_of(pairs@, visited@, conflicts@) == cross_after(
                    schema,
                    doc,
                    fuel as nat,
                    w2,
                    texts(fragment_names@),
                    i as int,
                    j as int,
                ),
            decreases fragment_names@.len() - j,
        {
            collect_conflicts_between_fragments(
                schema,
                doc,
                pairs,
                &mut visited,
                &mut conflicts,
                frag_name1,
                fragment_names[j],
                false,
                fuel,
            );
            j = j + 1;
        }
        i = i + 1;
    }
    conflicts
}

// ---------------------------------------------------------------------------
// The rule
// ---------------------------------------------------------------------------

/// Overlapping fields can be merged
///
/// A selection set is only valid if all fields (including spreading any
/// fragments) either correspond to distinct response names or can be merged
/// without ambiguity.
///
/// See https://spec.graphql.org/draft/#sec-Field-Selection-Merging
pub struct OverlappingFieldsCanBeMerged;

pub open spec fn overlapping_fields_code() -> Seq<char> {
    "OverlappingFieldsCanBeMerged"@
}

/// How deep comparisons of sub-selections may nest.
pub open spec fn comparison_depth() -> nat {
    u64::MAX as nat
}

/// The message for a conflict.
pub open spec fn conflict_message(c: ConflictView) -> Seq<char> {
    "Fields \""@ + c.name + "\" conflict because "@ + c.reason
        + ". Use different aliases on the fields to fetch both if this was intentional."@
}

/// The error for a conflict, at the positions of both sides.
pub open spec fn conflict_error(c: ConflictView) -> ErrorView {
    error_spec(overlapping_fields_code(), conflict_message(c), c.p1 + c.p2)
}

/// The compared fragment pairs and the errors after the first `n` steps of
/// a traversal: each selection set is compared within itself, with fresh
/// visited fragment names, on the type of its parent.
pub open spec fn overlap_upto<'a>(
    schema: &'a schema::Document,
    doc: &'a Document,
    steps: Seq<VisitStep<'a>>,
    n: int,
) -> (Map<(Seq<char>, Seq<char>), bool>, Seq<ErrorView>)
    decreases n,
{
    if n <= 0 || n > steps.len() {
        (Map::empty(), Seq::empty())
    } else {
        let prev = overlap_upto(schema, doc, steps, n - 1);
        match steps[n - 1].node {
            VisitNode::SelectionSet(ss) => {
                let w = within(
                    schema,
                    doc,
                    comparison_depth(),
                    Walk { memo: prev.0, visited: Seq::empty(), found: Seq::empty() },
                    steps[n - 1].state.parent_type,
                    ss,
                );
                (w.memo, prev.1 + w.found.map_values(|c: ConflictView| conflict_error(c)))
            },
            _ => prev,
        }
    }
}

/// The errors of the rule over a document.
pub open spec fn overlapping_fields_errors<'a>(schema: &'a schema::Document, doc: &'a Document) -> Seq<ErrorView> {
    let steps = document_steps(schema, doc);
    overlap_upto(schema, doc, steps, steps.len() as int).1
}

/// The error for a conflict.
fn conflict_to_error(c: &Conflict) -> (r: ValidationError)
    ensures
        r@ == conflict_error(c@),
{
    let message = concat5(
        "Fields \"",
        c.name.as_str(),
        "\" conflict because ",
        c.reason.as_str(),
        ". Use different aliases on the fields to fetch both if this was intentional.",
    );
    let mut locations: Vec<Pos> = Vec::new();
    let mut i: usize = 0;
    while i < c.p1.len()
        invariant
            i <= c.p1@.len(),
            locations@ == c.p1@.take(i as int),
        decreases c.p1@.len() - i,
    {
        locations.push(c.p1[i]);
        assert(c.p1@.take(i as int + 1) =~= c.p1@.take(i as int).push(c.p1@[i as int]));
        i = i + 1;
    }
    let mut j: usize = 0;
    while j < c.p2.len()
        invariant
            j <= c.p2@.len(),
            locations@ == c.p1@ + c.p2@.take(j as int),
        decreases c.p2@.len() - j,
    {
        locations.push(c.p2[j]);
        assert(c.p2@.take(j as int + 1) =~= c.p2@.take(j as int).push(c.p2@[j as int]));
        j = j + 1;
    }
    assert(c.p1@.take(c.p1@.len() as int) =~= c.p1@);
    assert(c.p2@.take(c.p2@.len() as int) =~= c.p2@);
    ValidationError { locations, message, error_code: "OverlappingFieldsCanBeMerged" }
}

impl OverlappingFieldsCanBeMerged {
    pub fn new() -> (r: Self) {
        OverlappingFieldsCanBeMerged
    }
}

impl ValidationRule for OverlappingFieldsCanBeMerged {
    open spec fn spec_kind(&self) -> RuleKind {
        RuleKind::OverlappingFieldsCanBeMerged
    }

    open spec fn spec_errors<'a>(&self, schema: &'a schema::Document, doc: &'a Document) -> Seq<ErrorView> {
        overlapping_fields_errors(schema, doc)
    }

    fn kind(&self) -> (k: RuleKind) {
        RuleKind::OverlappingFieldsCanBeMerged
    }

    fn error_code(&self) -> (r: &'static str)
        ensures
            r@ == overlapping_fields_code(),
    {
        "OverlappingFieldsCanBeMerged"
    }

    fn validate<'a>(&self, ctx: &OperationVisitorContext<'a>, error_collector: &mut ValidationErrorContext) {
        let schema = ctx.schema;
        let doc = ctx.operation;
        let steps = document_visit_steps(schema, doc);
        let ghost start = error_collector.reported();
        let mut pairs = PairSet::new();
        let mut i: usize = 0;
        while i < steps.len()
            invariant
                i <= steps@.len(),
                schema == ctx.schema,
                doc == ctx.operation,
                steps@ == document_steps(schema, doc),
                pairs@ == overlap_upto(schema, doc, steps@, i as int).0,
                error_collector.reported() == start + overlap_upto(schema, doc, steps@, i as int).1,
            decreases steps@.len() - i,
        {
            match steps[i].node {
                VisitNode::SelectionSet(selection_set) => {
                    let found = find_conflicts_within_selection_set(
                        schema,
                        doc,
                        &mut pairs,
                        steps[i].state.parent_type,
                        selection_set,
                        u64::MAX,
                    );
                    let ghost before = error_collector.reported();
                    let ghost errs = conflicts_view(found@).map_values(|c: ConflictView| conflict_error(c));
                    let mut j: usize = 0;
                    while j < found.len()
                        invariant
                            j <= found@.len(),
                            errs == conflicts_view(found@).map_values(|c: ConflictView| conflict_error(c)),
                            error_collector.reported() == before + errs.take(j as int),
                        decreases found@.len() - j,
                    {
                        let e = conflict_to_error(&found[j]);
                        error_collector.report_error(e);
                        assert(errs.take(j as int + 1) =~= errs.take(j as int).push(errs[j as int]));
                        j = j + 1;
                    }
                    assert(errs.take(found@.len() as int) =~= errs);
                    assert(error_collector.reported() =~= start + overlap_upto(schema, doc, steps@, i as int + 1).1);
                },
                _ => {},
            }
            i = i + 1;
        }
    }
}

/// Groups of one field each are never compared within.
proof fn lemma_single_groups<'a>(
    schema: &'a schema::Document,
    doc: &'a Document,
    fuel: nat,
    w: Walk,
    m: Seq<(Seq<char>, Seq<AstAndDef<'a>>)>,
    n: int,
)
    requires
        0 <= n <= m.len(),
        forall|i: int| 0 <= i < m.len() ==> #[trigger] m[i].1.len() == 1,
    ensures
        within_groups(schema, doc, fuel, w, m, n) == w,
    decreases n,
{
    if n > 0 {
        lemma_single_groups(schema, doc, fuel, w, m, n - 1);
        let g = m[n - 1].1;
        assert(g.len() == 1);
        assert(within_group(schema, doc, fuel, w, m[n - 1].0, g, 0) == w);
        assert(within_after(schema, doc, fuel, w, m[n - 1].0, g, 0, 1) == w);
    }
}

/// A selection set in which each response name is given by one field and
/// which spreads no fragment has nothing to merge: comparing it finds no
/// conflict and leaves the walk as it was.
pub proof fn distinct_response_names_merge<'a>(
    schema: &'a schema::Document,
    doc: &'a Document,
    fuel: nat,
    w: Walk,
    parent: Option<&'a TypeDefinition>,
    ss: &'a SelectionSet,
)
    requires
        fields_and_names(schema, parent, ss).1.len() == 0,
        forall|i: int|
            0 <= i < fields_and_names(schema, parent, ss).0.len() ==> #[trigger] fields_and_names(
                schema,
                parent,
                ss,
            ).0[i].1.len() == 1,
    ensures
        within(schema, doc, fuel, w, parent, ss) == w,
{
    let f = fields_and_names(schema, parent, ss);
    lemma_single_groups(schema, doc, fuel, w, f.0, f.0.len() as int);
}

} // verus!
