//! The scopes of an operation document (its operations and fragments), the
//! fragment spreads made in each, and which fragments an operation reaches
//! through them.
use vstd::prelude::*;

use crate::ast::ext::op_name;
use crate::ast::operation_visitor::{VisitNode, VisitStep};
use crate::static_graphql::query::{Definition, Document};
use crate::text::str_eq;

use super::names::texts;
use super::unique_operation_names::operation_name;

verus! {

/// The mathematical form of a scope: an operation, by its name if it has
/// one, or a fragment, by its name.
pub enum ScopeView {
    Operation(Option<Seq<char>>),
    Fragment(Seq<char>),
}

/// A scope: an operation, by its name if it has one, or a fragment, by its name.
#[derive(Clone, Copy)]
pub enum Scope<'a> {
    Operation(Option<&'a String>),
    Fragment(&'a String),
}

impl<'a> View for Scope<'a> {
    type V = ScopeView;

    open spec fn view(&self) -> ScopeView {
        match self {
            Scope::Operation(Some(n)) => ScopeView::Operation(Some(n@)),
            Scope::Operation(None) => ScopeView::Operation(None),
            Scope::Fragment(n) => ScopeView::Fragment(n@),
        }
    }
}

/// The view of an optional name.
pub open spec fn name_view(n: Option<&String>) -> Option<Seq<char>> {
    match n {
        Some(s) => Some(s@),
        None => None,
    }
}

/// Whether two optional names are the same.
pub fn same_name(a: Option<&String>, b: Option<&String>) -> (r: bool)
    ensures
        r == (name_view(a) == name_view(b)),
{
    match (a, b) {
        (Some(x), Some(y)) => str_eq(x.as_str(), y.as_str()),
        (None, None) => true,
        _ => false,
    }
}

/// Whether two scopes are the same.
pub fn same_scope(a: &Scope, b: &Scope) -> (r: bool)
    ensures
        r == (a@ == b@),
{
    match (a, b) {
        (Scope::Operation(x), Scope::Operation(y)) => same_name(*x, *y),
        (Scope::Fragment(x), Scope::Fragment(y)) => str_eq(x.as_str(), y.as_str()),
        _ => false,
    }
}

/// The scope that a step opens: an operation or a fragment definition.
pub open spec fn step_scope(s: VisitStep) -> Option<ScopeView> {
    match s.node {
        VisitNode::OperationDefinition(op) => Some(ScopeView::Operation(op_name(op))),
        VisitNode::FragmentDefinition(f) => Some(ScopeView::Fragment(f.name@)),
        _ => None,
    }
}

/// The scope after the first `n` steps.
pub open spec fn scope_upto(steps: Seq<VisitStep>, n: int) -> Option<ScopeView>
    decreases n,
{
    if n <= 0 || n > steps.len() {
        None
    } else {
        match step_scope(steps[n - 1]) {
            Some(s) => Some(s),
            None => scope_upto(steps, n - 1),
        }
    }
}

/// The view of an optional scope.
pub open spec fn scope_view(s: Option<Scope>) -> Option<ScopeView> {
    match s {
        Some(x) => Some(x@),
        None => None,
    }
}

/// The scope that a step opens.
pub fn opened_scope<'a>(s: &VisitStep<'a>) -> (r: Option<Scope<'a>>)
    ensures
        scope_view(r) == step_scope(*s),
{
    match s.node {
        VisitNode::OperationDefinition(op) => Some(Scope::Operation(operation_name(op))),
        VisitNode::FragmentDefinition(f) => Some(Scope::Fragment(&f.name)),
        _ => None,
    }
}

/// The fragment spreads made at the first `n` steps, each with the scope it is made in.
pub open spec fn spreads_upto(steps: Seq<VisitStep>, n: int) -> Seq<(ScopeView, Seq<char>)>
    decreases n,
{
    if n <= 0 || n > steps.len() {
        Seq::empty()
    } else {
        let prev = spreads_upto(steps, n - 1);
        match (steps[n - 1].node, scope_upto(steps, n - 1)) {
            (VisitNode::FragmentSpread(sp), Some(sc)) => prev.push((sc, sp.fragment_name@)),
            _ => prev,
        }
    }
}

/// The views of a list of spreads.
pub open spec fn spread_views<'a>(v: Seq<(Scope<'a>, &'a String)>) -> Seq<(ScopeView, Seq<char>)> {
    v.map_values(|p: (Scope<'a>, &'a String)| (p.0@, p.1@))
}

/// Whether the fragment `name` is reached from `start` within `k` spreads:
/// some spread names it, made in `start` or in a fragment reached within
/// fewer spreads.
pub open spec fn reaches(spreads: Seq<(ScopeView, Seq<char>)>, start: ScopeView, k: nat, name: Seq<char>) -> bool
    decreases k,
{
    k > 0 && exists|j: int|
        0 <= j < spreads.len() && #[trigger] spreads[j].1 == name && (spreads[j].0 == start || (
        spreads[j].0 is Fragment && reaches(spreads, start, (k - 1) as nat, spreads[j].0->Fragment_0)))
}

/// Whether a scope is `start` or a fragment reached from it within `k` spreads.
pub open spec fn covered(spreads: Seq<(ScopeView, Seq<char>)>, start: ScopeView, k: nat, sc: ScopeView) -> bool {
    sc == start || (sc is Fragment && reaches(spreads, start, k, sc->Fragment_0))
}

/// The fragment names that a traversal's spreads reach from `start` within `rounds` spreads.
pub fn reached_fragments<'a>(spreads: &Vec<(Scope<'a>, &'a String)>, start: &Scope<'a>, rounds: usize) -> (r:
    Vec<&'a String>)
    ensures
        forall|name: Seq<char>|
            #![trigger texts(r@).contains(name)]
            texts(r@).contains(name) <==> reaches(spread_views(spreads@), start@, rounds as nat, name),
{
    let ghost sv = spread_views(spreads@);
    let mut cur: Vec<&'a String> = Vec::new();
    let mut k: usize = 0;
    assert forall|name: Seq<char>| #![trigger texts(cur@).contains(name)]
        texts(cur@).contains(name) <==> reaches(sv, start@, 0, name) by {
        assert(texts(cur@) =~= Seq::<Seq<char>>::empty());
    }
    while k < rounds
        invariant
            k <= rounds,
            sv == spread_views(spreads@),
            forall|name: Seq<char>|
                #![trigger texts(cur@).contains(name)]
                texts(cur@).contains(name) <==> reaches(sv, start@, k as nat, name),
        decreases rounds - k,
    {
        let mut next: Vec<&'a String> = Vec::new();
        let mut j: usize = 0;
        assert(texts(next@) =~= Seq::<Seq<char>>::empty());
        while j < spreads.len()
            invariant
                j <= spreads@.len(),
                sv == spread_views(spreads@),
                forall|name: Seq<char>|
                    #![trigger texts(cur@).contains(name)]
                    texts(cur@).contains(name) <==> reaches(sv, start@, k as nat, name),
                forall|name: Seq<char>|
                    #![trigger texts(next@).contains(name)]
                    texts(next@).contains(name) <==> exists|i: int|
                        0 <= i < j && #[trigger] sv[i].1 == name && (sv[i].0 == start@ || (sv[i].0 is Fragment
                            && reaches(sv, start@, k as nat, sv[i].0->Fragment_0))),
            decreases spreads@.len() - j,
        {
            let (sc, target) = spreads[j];
            assert(sv[j as int] == (sc@, target@));
            let take = match sc {
                Scope::Fragment(f) => {
                    let found = contains_name(&cur, f.as_str());
                    assert(found == texts(cur@).contains(f@));
                    found || same_scope(&sc, start)
                },
                _ => same_scope(&sc, start),
            };
            let ghost before = texts(next@);
            if take {
                next.push(target);
                assert(texts(next@) =~= before.push(target@));
            }
            assert forall|name: Seq<char>| #![trigger texts(next@).contains(name)]
                texts(next@).contains(name) <==> exists|i: int|
                    0 <= i < j + 1 && #[trigger] sv[i].1 == name && (sv[i].0 == start@ || (sv[i].0 is Fragment
                        && reaches(sv, start@, k as nat, sv[i].0->Fragment_0))) by {
                if texts(next@).contains(name) {
                    if before.contains(name) {
                    } else {
                        assert(take && name == target@);
                        assert(sv[j as int].1 == name);
                    }
                }
                if exists|i: int|
                    0 <= i < j + 1 && #[trigger] sv[i].1 == name && (sv[i].0 == start@ || (sv[i].0 is Fragment
                        && reaches(sv, start@, k as nat, sv[i].0->Fragment_0))) {
                    let i = choose|i: int|
                        0 <= i < j + 1 && #[trigger] sv[i].1 == name && (sv[i].0 == start@ || (sv[i].0 is Fragment
                            && reaches(sv, start@, k as nat, sv[i].0->Fragment_0)));
                    if i < j {
                        assert(before.contains(name));
                        if take {
                            assert(texts(next@)[before.len() as int] == target@);
                            let w = choose|w: int| 0 <= w < before.len() && before[w] == name;
                            assert(texts(next@)[w] == name);
                        }
                    } else {
                        assert(take);
                        assert(texts(next@)[before.len() as int] == name);
                    }
                }
            }
            j = j + 1;
        }
        cur = next;
        k = k + 1;
    }
    cur
}

/// Whether `name` is among `names`.
pub fn contains_name(names: &Vec<&String>, name: &str) -> (r: bool)
    ensures
        r == texts(names@).contains(name@),
{
    let mut i: usize = 0;
    while i < names.len()
        invariant
            i <= names@.len(),
            forall|j: int| 0 <= j < i ==> names@[j]@ != name@,
        decreases names@.len() - i,
    {
        if str_eq(names[i].as_str(), name) {
            assert(texts(names@)[i as int] == name@);
            return true;
        }
        i = i + 1;
    }
    assert(!texts(names@).contains(name@)) by {
        if texts(names@).contains(name@) {
            let j = choose|j: int| 0 <= j < texts(names@).len() && texts(names@)[j] == name@;
            assert(names@[j]@ == name@);
        }
    }
    false
}

/// Whether a scope is `start` or one of the `reached` fragments.
pub fn is_covered(start: &Scope, reached: &Vec<&String>, sc: &Scope) -> (r: bool)
    ensures
        r == (sc@ == start@ || (sc@ is Fragment && texts(reached@).contains(sc@->Fragment_0))),
{
    if same_scope(sc, start) {
        return true;
    }
    match sc {
        Scope::Fragment(f) => contains_name(reached, f.as_str()),
        _ => false,
    }
}

/// How many of the first `n` definitions are fragments.
pub open spec fn fragment_count(doc: &Document, n: int) -> nat
    decreases n,
{
    if n <= 0 || n > doc.definitions@.len() {
        0
    } else {
        fragment_count(doc, n - 1) + match doc.definitions@[n - 1] {
            Definition::Fragment(_) => 1nat,
            _ => 0nat,
        }
    }
}

/// How many spreads a path from an operation through distinct defined
/// fragments can take in `doc`: the number of fragment definitions.
pub open spec fn reach_rounds(doc: &Document) -> nat {
    fragment_count(doc, doc.definitions@.len() as int)
}

/// The number of fragment definitions of a document.
pub fn count_reach_rounds(doc: &Document) -> (r: usize)
    ensures
        r == reach_rounds(doc),
{
    let mut c: usize = 0;
    let mut i: usize = 0;
    while i < doc.definitions.len()
        invariant
            i <= doc.definitions@.len(),
            c == fragment_count(doc, i as int),
            c <= i,
        decreases doc.definitions@.len() - i,
    {
        if let Definition::Fragment(_) = &doc.definitions[i] {
            c = c + 1;
        }
        i = i + 1;
    }
    c
}


/// The fragment spreads of a traversal, each with the scope it is made in.
pub fn collect_spreads<'a>(steps: &Vec<VisitStep<'a>>) -> (r: Vec<(Scope<'a>, &'a String)>)
    ensures
        spread_views(r@) == spreads_upto(steps@, steps@.len() as int),
{
    let mut out: Vec<(Scope<'a>, &'a String)> = Vec::new();
    let mut cur: Option<Scope<'a>> = None;
    let mut i: usize = 0;
    while i < steps.len()
        invariant
            i <= steps@.len(),
            scope_view(cur) == scope_upto(steps@, i as int),
            spread_views(out@) == spreads_upto(steps@, i as int),
        decreases steps@.len() - i,
    {
        let s = &steps[i];
        if let (VisitNode::FragmentSpread(sp), Some(sc)) = (s.node, cur) {
            out.push((sc, &sp.fragment_name));
            assert(spread_views(out@) =~= spreads_upto(steps@, i as int).push((sc@, sp.fragment_name@)));
        }
        if let Some(opened) = opened_scope(s) {
            cur = Some(opened);
        }
        i = i + 1;
    }
    out
}

/// The names of the operations of the first `n` definitions (`None` for an
/// anonymous one), each once, in the order of first appearance.
pub open spec fn operation_keys_upto(doc: &Document, n: int) -> Seq<Option<Seq<char>>>
    decreases n,
{
    if n <= 0 || n > doc.definitions@.len() {
        Seq::empty()
    } else {
        let prev = operation_keys_upto(doc, n - 1);
        match &doc.definitions@[n - 1] {
            Definition::Operation(op) => if prev.contains(op_name(op)) {
                prev
            } else {
                prev.push(op_name(op))
            },
            _ => prev,
        }
    }
}

/// The views of a list of optional names.
pub open spec fn key_views<'a>(v: Seq<Option<&'a String>>) -> Seq<Option<Seq<char>>> {
    v.map_values(|k: Option<&'a String>| name_view(k))
}

/// Whether `key` is among `keys`.
fn contains_key(keys: &Vec<Option<&String>>, key: Option<&String>) -> (r: bool)
    ensures
        r == key_views(keys@).contains(name_view(key)),
{
    let mut i: usize = 0;
    while i < keys.len()
        invariant
            i <= keys@.len(),
            forall|j: int| 0 <= j < i ==> name_view(keys@[j]) != name_view(key),
        decreases keys@.len() - i,
    {
        if same_name(keys[i], key) {
            assert(key_views(keys@)[i as int] == name_view(key));
            return true;
        }
        i = i + 1;
    }
    assert(!key_views(keys@).contains(name_view(key))) by {
        if key_views(keys@).contains(name_view(key)) {
            let j = choose|j: int| 0 <= j < key_views(keys@).len() && key_views(keys@)[j] == name_view(key);
            assert(name_view(keys@[j]) == name_view(key));
        }
    }
    false
}

/// The names of the operations of a document, each once, in the order of first appearance.
pub fn operation_keys(doc: &Document) -> (r: Vec<Option<&String>>)
    ensures
        key_views(r@) == operation_keys_upto(doc, doc.definitions@.len() as int),
{
    let mut keys: Vec<Option<&String>> = Vec::new();
    let mut i: usize = 0;
    while i < doc.definitions.len()
        invariant
            i <= doc.definitions@.len(),
            key_views(keys@) == operation_keys_upto(doc, i as int),
        decreases doc.definitions@.len() - i,
    {
        if let Definition::Operation(op) = &doc.definitions[i] {
            let key = operation_name(op);
            if !contains_key(&keys, key) {
                keys.push(key);
                assert(key_views(keys@) =~= operation_keys_upto(doc, i as int).push(op_name(op)));
            }
        }
        i = i + 1;
    }
    keys
}

} // verus!
