//! Counting the uses of names, for the rules that ask for unique names.
use vstd::prelude::*;

use crate::text::str_eq;

verus! {

/// The texts of a sequence of strings.
pub open spec fn texts<'a>(v: Seq<&'a String>) -> Seq<Seq<char>> {
    v.map_values(|s: &'a String| s@)
}

/// How many of the first `n` names are `name`.
pub open spec fn occurrences(names: Seq<Seq<char>>, name: Seq<char>, n: int) -> nat
    decreases n,
{
    if n <= 0 || n > names.len() {
        0
    } else {
        occurrences(names, name, n - 1) + if names[n - 1] == name {
            1nat
        } else {
            0nat
        }
    }
}

/// The names used more than once, each once, in the order of their first
/// use among the first `n` names.
pub open spec fn repeated(names: Seq<Seq<char>>, n: int) -> Seq<Seq<char>>
    decreases n,
{
    if n <= 0 || n > names.len() {
        Seq::empty()
    } else {
        let name = names[n - 1];
        if occurrences(names, name, n - 1) == 0 && occurrences(names, name, names.len() as int) > 1 {
            repeated(names, n - 1).push(name)
        } else {
            repeated(names, n - 1)
        }
    }
}

/// The names used once or more, each once, in the order of their first use
/// among the first `n` names.
pub open spec fn distinct(names: Seq<Seq<char>>, n: int) -> Seq<Seq<char>>
    decreases n,
{
    if n <= 0 || n > names.len() {
        Seq::empty()
    } else {
        let name = names[n - 1];
        if occurrences(names, name, n - 1) == 0 {
            distinct(names, n - 1).push(name)
        } else {
            distinct(names, n - 1)
        }
    }
}

/// A name kept by `distinct` is among the names.
pub proof fn distinct_contained(names: Seq<Seq<char>>, n: int, name: Seq<char>)
    requires
        0 <= n <= names.len(),
        distinct(names, n).contains(name),
    ensures
        exists|j: int| 0 <= j < n && names[j] == name,
    decreases n,
{
    if n > 0 {
        let last = names[n - 1];
        if occurrences(names, last, n - 1) == 0 {
            if name == last {
                assert(names[n - 1] == name);
            } else {
                let d = distinct(names, n - 1);
                assert(distinct(names, n) == d.push(last));
                let w = choose|w: int| 0 <= w < d.push(last).len() && d.push(last)[w] == name;
                assert(d[w] == name);
                distinct_contained(names, n - 1, name);
            }
        } else {
            distinct_contained(names, n - 1, name);
        }
    }
}

/// A name occurs among the first `n` exactly when it was counted there.
pub proof fn occurrences_positive(names: Seq<Seq<char>>, name: Seq<char>, n: int)
    requires
        0 <= n <= names.len(),
    ensures
        occurrences(names, name, n) > 0 <==> exists|j: int| 0 <= j < n && names[j] == name,
    decreases n,
{
    if n > 0 {
        occurrences_positive(names, name, n - 1);
        if names[n - 1] == name {
            assert(exists|j: int| 0 <= j < n && names[j] == name) by {
                assert(names[n - 1] == name);
            }
        } else {
            if exists|j: int| 0 <= j < n && names[j] == name {
                let j = choose|j: int| 0 <= j < n && names[j] == name;
                assert(0 <= j < n - 1);
            }
        }
    }
}

/// When no name is used twice, no name is reported as repeated.
pub proof fn repeated_empty_when_unique(names: Seq<Seq<char>>, n: int)
    requires
        0 <= n <= names.len(),
        forall|i: int, j: int| 0 <= i < j < names.len() ==> names[i] != names[j],
    ensures
        repeated(names, n) == Seq::<Seq<char>>::empty(),
    decreases n,
{
    if n > 0 {
        repeated_empty_when_unique(names, n - 1);
        let name = names[n - 1];
        occurrences_at_most_one(names, name, names.len() as int);
    }
}

/// When no name is used twice, each name occurs at most once.
pub proof fn occurrences_at_most_one(names: Seq<Seq<char>>, name: Seq<char>, n: int)
    requires
        0 <= n <= names.len(),
        forall|i: int, j: int| 0 <= i < j < names.len() ==> names[i] != names[j],
    ensures
        occurrences(names, name, n) <= 1,
    decreases n,
{
    if n > 0 {
        occurrences_at_most_one(names, name, n - 1);
        if names[n - 1] == name {
            occurrences_positive(names, name, n - 1);
            if occurrences(names, name, n - 1) > 0 {
                let j = choose|j: int| 0 <= j < n - 1 && names[j] == name;
                assert(names[j] == names[n - 1]);
            }
        }
    }
}

/// Two uses of a name among the first `n` make it occur at least twice there.
proof fn occurrences_of_two_uses(names: Seq<Seq<char>>, name: Seq<char>, i: int, j: int, n: int)
    requires
        0 <= i < j < n <= names.len(),
        names[i] == name,
        names[j] == name,
    ensures
        occurrences(names, name, n) >= 2,
    decreases n,
{
    if j < n - 1 {
        occurrences_of_two_uses(names, name, i, j, n - 1);
    } else {
        occurrences_positive(names, name, n - 1);
        assert(names[i] == name && 0 <= i < n - 1);
    }
}

/// A name used among the first `n` has a first use there.
proof fn first_use(names: Seq<Seq<char>>, name: Seq<char>, n: int) -> (f: int)
    requires
        0 <= n <= names.len(),
        exists|j: int| 0 <= j < n && names[j] == name,
    ensures
        0 <= f < n,
        names[f] == name,
        occurrences(names, name, f) == 0,
    decreases n,
{
    if exists|j: int| 0 <= j < n - 1 && names[j] == name {
        first_use(names, name, n - 1)
    } else {
        occurrences_positive(names, name, n - 1);
        let j = choose|j: int| 0 <= j < n && names[j] == name;
        assert(j == n - 1);
        n - 1
    }
}

/// Names reported as repeated among the first `n` stay reported among more.
proof fn repeated_grows(names: Seq<Seq<char>>, n: int, m: int)
    requires
        0 <= n <= m <= names.len(),
    ensures
        repeated(names, n).len() <= repeated(names, m).len(),
    decreases m - n,
{
    if n < m {
        repeated_grows(names, n, m - 1);
    }
}

/// When some name is used twice, some name is reported as repeated.
pub proof fn repeated_nonempty_when_duplicate(names: Seq<Seq<char>>, i: int, j: int)
    requires
        0 <= i < j < names.len(),
        names[i] == names[j],
    ensures
        repeated(names, names.len() as int).len() > 0,
{
    let name = names[i];
    let f = first_use(names, name, names.len() as int);
    occurrences_of_two_uses(names, name, i, j, names.len() as int);
    assert(repeated(names, f + 1) == repeated(names, f).push(name));
    repeated_grows(names, f + 1, names.len() as int);
}

/// No name is reported as repeated exactly when no name is used twice.
pub proof fn repeated_empty_iff_unique(names: Seq<Seq<char>>)
    ensures
        repeated(names, names.len() as int).len() == 0 <==> forall|i: int, j: int|
            0 <= i < j < names.len() ==> names[i] != names[j],
{
    if forall|i: int, j: int| 0 <= i < j < names.len() ==> names[i] != names[j] {
        repeated_empty_when_unique(names, names.len() as int);
    } else {
        let (i, j) = choose|i: int, j: int| 0 <= i < j < names.len() && names[i] == names[j];
        repeated_nonempty_when_duplicate(names, i, j);
    }
}

/// How many of the first `n` names are `name`.
pub fn count_occurrences(names: &Vec<&String>, name: &str, n: usize) -> (r: usize)
    requires
        n <= names@.len(),
    ensures
        r == occurrences(texts(names@), name@, n as int),
        r <= n,
{
    let ghost t = texts(names@);
    let mut c: usize = 0;
    let mut i: usize = 0;
    while i < n
        invariant
            i <= n,
            n <= names@.len(),
            t == texts(names@),
            c == occurrences(t, name@, i as int),
            c <= i,
        decreases n - i,
    {
        if str_eq(names[i].as_str(), name) {
            c = c + 1;
        }
        i = i + 1;
    }
    c
}

/// The names used more than once, each once, in the order of their first use.
pub fn repeated_names<'a>(names: &Vec<&'a String>) -> (r: Vec<&'a String>)
    ensures
        texts(r@) == repeated(texts(names@), names@.len() as int),
{
    let ghost t = texts(names@);
    let mut out: Vec<&'a String> = Vec::new();
    let mut i: usize = 0;
    while i < names.len()
        invariant
            i <= names@.len(),
            t == texts(names@),
            texts(out@) == repeated(t, i as int),
        decreases names@.len() - i,
    {
        let name = names[i];
        let before = count_occurrences(names, name.as_str(), i);
        let total = count_occurrences(names, name.as_str(), names.len());
        if before == 0 && total > 1 {
            out.push(name);
            assert(texts(out@) =~= repeated(t, i as int).push(name@));
        }
        i = i + 1;
    }
    out
}

/// The names used once or more, each once, in the order of their first use.
pub fn distinct_names<'a>(names: &Vec<&'a String>) -> (r: Vec<&'a String>)
    ensures
        texts(r@) == distinct(texts(names@), names@.len() as int),
{
    let ghost t = texts(names@);
    let mut out: Vec<&'a String> = Vec::new();
    let mut i: usize = 0;
    while i < names.len()
        invariant
            i <= names@.len(),
            t == texts(names@),
            texts(out@) == distinct(t, i as int),
        decreases names@.len() - i,
    {
        let name = names[i];
        if count_occurrences(names, name.as_str(), i) == 0 {
            out.push(name);
            assert(texts(out@) =~= distinct(t, i as int).push(name@));
        }
        i = i + 1;
    }
    out
}

} // verus!
