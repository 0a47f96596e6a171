//! Finding the fragment definitions of a document by name.
use vstd::prelude::*;

use crate::ast::operation_visitor::{defined_fragment_is_known, find_fragment, known_fragment};
use crate::static_graphql::query::{self, FragmentDefinition};
use crate::validation::rules::names::{distinct, distinct_contained, distinct_names, texts};
use crate::validation::rules::unique_fragment_names::{defines_fragment, fragment_name_defined, fragment_names, fragment_names_upto};

verus! {

/// Finds the fragment definitions of a document by name.
pub struct LocateFragments;

/// The names of the fragments of a document, each once, in the order of
/// first definition.
pub open spec fn located_names(operation: &query::Document) -> Seq<Seq<char>> {
    let names = fragment_names_upto(operation, operation.definitions@.len() as int);
    distinct(names, names.len() as int)
}

impl LocateFragments {
    pub fn new() -> (r: Self) {
        LocateFragments
    }

    /// Each fragment name of the document with the fragment that it refers
    /// to (the last one so named), in the order of first definition.
    pub fn locate_fragments<'a>(&mut self, operation: &'a query::Document) -> (r: Vec<(&'a String, &'a FragmentDefinition)>)
        ensures
            r@.len() == located_names(operation).len(),
            forall|i: int|
                0 <= i < r@.len() ==> #[trigger] r@[i].0@ == located_names(operation)[i]
                    && known_fragment(operation, r@[i].0@) == Some(r@[i].1),
    {
        let names = fragment_names(operation);
        let unique = distinct_names(&names);
        let mut out: Vec<(&'a String, &'a FragmentDefinition)> = Vec::new();
        let mut i: usize = 0;
        while i < unique.len()
            invariant
                i <= unique@.len(),
                texts(names@) == fragment_names_upto(operation, operation.definitions@.len() as int),
                texts(unique@) == located_names(operation),
                out@.len() == i,
                forall|j: int|
                    0 <= j < i ==> #[trigger] out@[j].0@ == located_names(operation)[j]
                        && known_fragment(operation, out@[j].0@) == Some(out@[j].1),
            decreases unique@.len() - i,
        {
            let name = unique[i];
            assert(texts(unique@)[i as int] == name@);
            proof {
                let all = fragment_names_upto(operation, operation.definitions@.len() as int);
                assert(distinct(all, all.len() as int).contains(name@));
                distinct_contained(all, all.len() as int, name@);
                let j = choose|j: int| 0 <= j < all.len() && all[j] == name@;
                fragment_name_defined(operation, operation.definitions@.len() as int, j);
                let k = choose|k: int|
                    0 <= k < operation.definitions@.len() && #[trigger] defines_fragment(operation, k, all[j]);
                defined_fragment_is_known(operation, name@, operation.definitions@.len() as int, k);
            }
            let f = find_fragment(operation, name.as_str()).unwrap();
            out.push((name, f));
            i = i + 1;
        }
        out
    }
}

} // verus!
