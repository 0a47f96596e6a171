use vstd::prelude::*;

use crate::ast::ext::{two_level_spreads_upto, FragmentSpreadExtraction};
use crate::ast::operation_visitor::{known_fragment, OperationVisitorContext};
use crate::static_graphql::common::Pos;
use crate::static_graphql::query::{Definition, Document, FragmentDefinition, FragmentSpread};
use crate::static_graphql::schema;
use crate::text::{concat3, str_eq};
use crate::validation::utils::{error_spec, ErrorView, ValidationError, ValidationErrorContext};

use super::names::texts;
use super::rule::{RuleKind, ValidationRule};
use super::scopes::{contains_name, count_reach_rounds, fragment_count};

verus! {

/// No fragment cycles
///
/// The graph of fragment spreads must not form any cycles including spreading itself.
/// Otherwise an operation could infinitely spread or infinitely execute on cycles in the underlying data.
///
/// https://spec.graphql.org/draft/#sec-Fragment-spreads-must-not-form-cycles
pub struct NoFragmentsCycle;

pub open spec fn no_fragments_cycle_code() -> Seq<char> {
    "NoFragmentsCycle"@
}

/// Where the spreads of the fragment named `name` start on the path, if it is on it.
pub open spec fn index_lookup(index: Seq<(Seq<char>, int)>, name: Seq<char>, i: int) -> Option<int>
    decreases index.len() - i,
{
    if i < 0 || i >= index.len() {
        None
    } else if index[i].0 == name {
        Some(index[i].1)
    } else {
        index_lookup(index, name, i + 1)
    }
}

/// The first `n` spread names of a path, each quoted, separated by commas.
pub open spec fn quoted_names(path: Seq<&FragmentSpread>, n: int) -> Seq<char>
    decreases n,
{
    if n <= 0 {
        Seq::empty()
    } else if n == 1 {
        "\""@ + path[0].fragment_name@ + "\""@
    } else {
        quoted_names(path, n - 1) + ", \""@ + path[n - 1].fragment_name@ + "\""@
    }
}

/// The positions of the spreads of a path.
pub open spec fn spread_positions<'a>(path: Seq<&'a FragmentSpread>) -> Seq<Pos> {
    path.map_values(|s: &'a FragmentSpread| s.position)
}

/// The error for a cycle: the spreads from the fragment named `name` back to
/// it, located at each of them.
pub open spec fn cycle_error(cycle: Seq<&FragmentSpread>, name: Seq<char>) -> ErrorView {
    let via = if cycle.len() == 0 {
        0
    } else {
        cycle.len() - 1
    };
    error_spec(
        no_fragments_cycle_code(),
        if via == 0 {
            "Cannot spread fragment \""@ + name + "\" within itself."@
        } else {
            "Cannot spread fragment \""@ + name + "\" within itself via "@ + quoted_names(cycle, via)
                + "."@
        },
        spread_positions(cycle),
    )
}

/// The depth-first search from `frag`, reached along `path`, with `index`
/// recording where each fragment on the path starts: the fragments visited
/// after it and the errors reported after it. A fragment is searched once;
/// each spread back to a fragment on the path is a cycle.
pub open spec fn detect_spec<'a>(
    doc: &'a Document,
    frag: &'a FragmentDefinition,
    path: Seq<&'a FragmentSpread>,
    index: Seq<(Seq<char>, int)>,
    visited: Seq<Seq<char>>,
    errs: Seq<ErrorView>,
    fuel: nat,
) -> (Seq<Seq<char>>, Seq<ErrorView>)
    decreases fuel, 1int, 0int,
{
    if visited.contains(frag.name@) || fuel == 0 {
        (visited, errs)
    } else {
        let vis1 = visited.push(frag.name@);
        let spreads = two_level_spreads_upto(&frag.selection_set, frag.selection_set.items@.len() as int);
        if spreads.len() == 0 {
            (vis1, errs)
        } else {
            spread_loop(
                doc,
                spreads,
                spreads.len() as int,
                path,
                index.push((frag.name@, path.len() as int)),
                vis1,
                errs,
                fuel,
            )
        }
    }
}

/// The search through the first `n` of the spreads of a fragment.
pub open spec fn spread_loop<'a>(
    doc: &'a Document,
    spreads: Seq<&'a FragmentSpread>,
    n: int,
    path: Seq<&'a FragmentSpread>,
    index: Seq<(Seq<char>, int)>,
    visited: Seq<Seq<char>>,
    errs: Seq<ErrorView>,
    fuel: nat,
) -> (Seq<Seq<char>>, Seq<ErrorView>)
    decreases fuel, 0int, n,
{
    if n <= 0 || n > spreads.len() {
        (visited, errs)
    } else {
        let (vis, e) = spread_loop(doc, spreads, n - 1, path, index, visited, errs, fuel);
        let sp = spreads[n - 1];
        let path1 = path.push(sp);
        match index_lookup(index, sp.fragment_name@, 0) {
            Some(ci) => (vis, e.push(cycle_error(path1.subrange(ci, path1.len() as int), sp.fragment_name@))),
            None => match known_fragment(doc, sp.fragment_name@) {
                Some(d) => if fuel > 0 {
                    detect_spec(doc, d, path1, index, vis, e, (fuel - 1) as nat)
                } else {
                    (vis, e)
                },
                None => (vis, e),
            },
        }
    }
}

/// The search from each fragment definition among the first `n`, in order.
pub open spec fn cycles_upto(doc: &Document, n: int) -> (Seq<Seq<char>>, Seq<ErrorView>)
    decreases n,
{
    if n <= 0 || n > doc.definitions@.len() {
        (Seq::empty(), Seq::empty())
    } else {
        let (vis, e) = cycles_upto(doc, n - 1);
        match &doc.definitions@[n - 1] {
            Definition::Fragment(f) => detect_spec(
                doc,
                f,
                Seq::empty(),
                Seq::empty(),
                vis,
                e,
                fragment_count(doc, doc.definitions@.len() as int),
            ),
            _ => (vis, e),
        }
    }
}

/// The errors of the rule on a document.
pub open spec fn no_fragments_cycle_errors(doc: &Document) -> Seq<ErrorView> {
    cycles_upto(doc, doc.definitions@.len() as int).1
}

/// Whether no fragment definition among the first `n` of a document spreads
/// a fragment (directly or in an inline fragment).
pub open spec fn spreads_nothing(doc: &Document, n: int) -> bool {
    forall|k: int|
        0 <= k < n && #[trigger] doc.definitions@[k] is Fragment ==> two_level_spreads_upto(
            &doc.definitions@[k]->Fragment_0.selection_set,
            doc.definitions@[k]->Fragment_0.selection_set.items@.len() as int,
        ).len() == 0
}

proof fn cycles_upto_without_spreads(doc: &Document, n: int)
    requires
        0 <= n <= doc.definitions@.len(),
        spreads_nothing(doc, n),
    ensures
        cycles_upto(doc, n).1 == Seq::<ErrorView>::empty(),
    decreases n,
{
    if n > 0 {
        assert(spreads_nothing(doc, n - 1));
        cycles_upto_without_spreads(doc, n - 1);
        if doc.definitions@[n - 1] is Fragment {
            assert(doc.definitions@[n - 1] is Fragment);
        }
    }
}

/// A document whose fragments spread no fragment holds no cycle of
/// fragments: the rule reports nothing.
pub proof fn no_spreads_no_cycles(doc: &Document)
    requires
        spreads_nothing(doc, doc.definitions@.len() as int),
    ensures
        no_fragments_cycle_errors(doc) == Seq::<ErrorView>::empty(),
{
    cycles_upto_without_spreads(doc, doc.definitions@.len() as int);
}

/// The views of an index.
pub open spec fn index_views<'a>(v: Seq<(&'a String, usize)>) -> Seq<(Seq<char>, int)> {
    v.map_values(|p: (&'a String, usize)| (p.0@, p.1 as int))
}

/// Where the spreads of the fragment named `name` start on the path.
fn lookup_index(index: &Vec<(&String, usize)>, name: &str) -> (r: Option<usize>)
    ensures
        match r {
            Some(c) => index_lookup(index_views(index@), name@, 0) == Some(c as int) && exists|i: int|
                0 <= i < index@.len() && index@[i].1 == c,
            None => index_lookup(index_views(index@), name@, 0) is None,
        },
{
    let ghost iv = index_views(index@);
    let mut i: usize = 0;
    while i < index.len()
        invariant
            i <= index@.len(),
            iv == index_views(index@),
            index_lookup(iv, name@, 0) == index_lookup(iv, name@, i as int),
        decreases index@.len() - i,
    {
        if str_eq(index[i].0.as_str(), name) {
            return Some(index[i].1);
        }
        i = i + 1;
    }
    None
}

/// The quoted, comma-separated names of the first `n` spreads of a path.
fn quote_names(path: &Vec<&FragmentSpread>, n: usize) -> (r: String)
    requires
        n <= path@.len(),
    ensures
        r@ == quoted_names(path@, n as int),
{
    let mut out = String::from_str("");
    let mut i: usize = 0;
    proof {
        reveal_strlit("");
    }
    assert(out@ =~= quoted_names(path@, 0));
    while i < n
        invariant
            i <= n,
            n <= path@.len(),
            out@ == quoted_names(path@, i as int),
        decreases n - i,
    {
        proof {
            reveal_strlit(", ");
            reveal_strlit("\"");
            reveal_strlit(", \"");
        }
        let ghost before = out@;
        if i > 0 {
            out.append(", ");
        }
        out.append("\"");
        out.append(path[i].fragment_name.as_str());
        out.append("\"");
        assert(out@ =~= quoted_names(path@, i + 1));
        i = i + 1;
    }
    out
}

impl NoFragmentsCycle {
    pub fn new() -> (r: Self) {
        NoFragmentsCycle
    }

    /// Reports the cycle that the spread path from `start` closes.
    fn report_cycle<'a>(
        &self,
        spread_paths: &Vec<&'a FragmentSpread>,
        start: usize,
        name: &String,
        errors: &mut ValidationErrorContext,
    )
        requires
            start <= spread_paths@.len(),
        ensures
            final(errors).reported() == old(errors).reported().push(
                cycle_error(spread_paths@.subrange(start as int, spread_paths@.len() as int), name@),
            ),
    {
        let ghost cyc = spread_paths@.subrange(start as int, spread_paths@.len() as int);
        let mut cycle: Vec<&'a FragmentSpread> = Vec::new();
        let mut k: usize = start;
        while k < spread_paths.len()
            invariant
                start <= k <= spread_paths@.len(),
                cycle@ == spread_paths@.subrange(start as int, k as int),
            decreases spread_paths@.len() - k,
        {
            cycle.push(spread_paths[k]);
            assert(cycle@ =~= spread_paths@.subrange(start as int, k + 1));
            k = k + 1;
        }
        let mut locations: Vec<Pos> = Vec::new();
        let mut i: usize = 0;
        while i < cycle.len()
            invariant
                i <= cycle@.len(),
                cycle@ == cyc,
                locations@ == spread_positions(cyc.subrange(0, i as int)),
            decreases cycle@.len() - i,
        {
            locations.push(cycle[i].position);
            assert(cyc.subrange(0, i + 1) =~= cyc.subrange(0, i as int).push(cyc[i as int]));
            assert(locations@ =~= spread_positions(cyc.subrange(0, i + 1)));
            i = i + 1;
        }
        assert(cyc.subrange(0, cyc.len() as int) =~= cyc);
        let via = if cycle.len() == 0 {
            0
        } else {
            cycle.len() - 1
        };
        let message = if via == 0 {
            concat3("Cannot spread fragment \"", name.as_str(), "\" within itself.")
        } else {
            let mut m = concat3("Cannot spread fragment \"", name.as_str(), "\" within itself via ");
            let names = quote_names(&cycle, via);
            m.append(names.as_str());
            m.append(".");
            m
        };
        errors.report_error(ValidationError { locations, message, error_code: "NoFragmentsCycle" });
    }

    /// The depth-first search from `fragment`, reached along `spread_paths`.
    fn detect_cycles<'a>(
        &self,
        ctx: &OperationVisitorContext<'a>,
        fragment: &'a FragmentDefinition,
        spread_paths: &mut Vec<&'a FragmentSpread>,
        index: &mut Vec<(&'a String, usize)>,
        visited: &mut Vec<&'a String>,
        errors: &mut ValidationErrorContext,
        fuel: usize,
    )
        requires
            forall|i: int| 0 <= i < old(index)@.len() ==> old(index)@[i].1 <= old(spread_paths)@.len(),
        ensures
            final(spread_paths)@ == old(spread_paths)@,
            final(index)@ == old(index)@,
            (texts(final(visited)@), final(errors).reported()) == detect_spec(
                ctx.operation,
                fragment,
                old(spread_paths)@,
                index_views(old(index)@),
                texts(old(visited)@),
                old(errors).reported(),
                fuel as nat,
            ),
        decreases fuel,
    {
        if fuel == 0 || contains_name(visited, fragment.name.as_str()) {
            return;
        }
        let ghost vis0 = texts(visited@);
        visited.push(&fragment.name);
        assert(texts(visited@) =~= vis0.push(fragment.name@));
        let spread_nodes = fragment.selection_set.get_recursive_fragment_spreads();
        if spread_nodes.len() == 0 {
            return;
        }
        let ghost p0 = spread_paths@;
        let ghost idx0 = index@;
        index.push((&fragment.name, spread_paths.len()));
        let ghost idx1 = index@;
        assert(index_views(idx1) =~= index_views(idx0).push((fragment.name@, p0.len() as int)));
        let ghost vis1 = texts(visited@);
        let ghost e0 = errors.reported();
        let mut j: usize = 0;
        while j < spread_nodes.len()
            invariant
                j <= spread_nodes@.len(),
                spread_nodes@ == two_level_spreads_upto(
                    &fragment.selection_set,
                    fragment.selection_set.items@.len() as int,
                ),
                spread_paths@ == p0,
                index@ == idx1,
                forall|i: int| 0 <= i < idx1.len() ==> idx1[i].1 <= p0.len(),
                fuel > 0,
                (texts(visited@), errors.reported()) == spread_loop(
                    ctx.operation,
                    spread_nodes@,
                    j as int,
                    p0,
                    index_views(idx1),
                    vis1,
                    e0,
                    fuel as nat,
                ),
            decreases spread_nodes@.len() - j,
        {
            let spread_node = spread_nodes[j];
            spread_paths.push(spread_node);
            match lookup_index(index, spread_node.fragment_name.as_str()) {
                Some(cycle_index) => {
                    self.report_cycle(spread_paths, cycle_index, &spread_node.fragment_name, errors);
                },
                None => {
                    if let Some(spread_def) = ctx.fragment_by_name(spread_node.fragment_name.as_str()) {
                        self.detect_cycles(ctx, spread_def, spread_paths, index, visited, errors, fuel - 1);
                    }
                },
            }
            spread_paths.pop();
            assert(spread_paths@ =~= p0);
            j = j + 1;
        }
        index.pop();
        assert(index@ =~= idx0);
    }
}

impl ValidationRule for NoFragmentsCycle {
    open spec fn spec_kind(&self) -> RuleKind {
        RuleKind::NoFragmentsCycle
    }

    open spec fn spec_errors<'a>(&self, schema: &'a schema::Document, doc: &'a Document) -> Seq<
        ErrorView,
    > {
        no_fragments_cycle_errors(doc)
    }

    fn kind(&self) -> (k: RuleKind) {
        RuleKind::NoFragmentsCycle
    }

    fn error_code(&self) -> (r: &'static str)
        ensures
            r@ == no_fragments_cycle_code(),
    {
        "NoFragmentsCycle"
    }

    fn validate<'a>(&self, ctx: &OperationVisitorContext<'a>, error_collector: &mut ValidationErrorContext) {
        let doc = ctx.operation;
        let fuel = count_reach_rounds(doc);
        let mut collector = ValidationErrorContext::new();
        let mut visited: Vec<&'a String> = Vec::new();
        let mut i: usize = 0;
        assert(texts(visited@) =~= Seq::<Seq<char>>::empty());
        while i < doc.definitions.len()
            invariant
                i <= doc.definitions@.len(),
                doc == ctx.operation,
                fuel == fragment_count(doc, doc.definitions@.len() as int),
                (texts(visited@), collector.reported()) == cycles_upto(doc, i as int),
            decreases doc.definitions@.len() - i,
        {
            if let Definition::Fragment(f) = &doc.definitions[i] {
                let mut spread_paths: Vec<&'a FragmentSpread> = Vec::new();
                let mut index: Vec<(&'a String, usize)> = Vec::new();
                assert(index_views(index@) =~= Seq::<(Seq<char>, int)>::empty());
                self.detect_cycles(ctx, f, &mut spread_paths, &mut index, &mut visited, &mut collector, fuel);
            }
            i = i + 1;
        }
        error_collector.append_errors(collector.errors);
    }
}

} // verus!
