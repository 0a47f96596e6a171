//! Small string helpers used by the rules: equality of `&str`, the `__`
//! prefix test and message assembly.
use vstd::prelude::*;
use vstd::string::*;

verus! {

/// Whether two string slices hold the same characters.
pub fn str_eq(a: &str, b: &str) -> (r: bool)
    ensures
        r == (a@ == b@),
{
    let n = a.unicode_len();
    if n != b.unicode_len() {
        return false;
    }
    let mut i: usize = 0;
    while i < n
        invariant
            n == a@.len(),
            n == b@.len(),
            i <= n,
            forall|j: int| 0 <= j < i ==> a@[j] == b@[j],
        decreases n - i,
    {
        if a.get_char(i) != b.get_char(i) {
            return false;
        }
        i = i + 1;
    }
    assert(a@ =~= b@);
    true
}

/// The names that GraphQL reserves for introspection start with two underscores.
pub open spec fn is_reserved_name(s: Seq<char>) -> bool {
    s.len() >= 2 && s[0] == '_' && s[1] == '_'
}

/// Whether a name starts with `__`.
pub fn starts_with_double_underscore(s: &str) -> (r: bool)
    ensures
        r == is_reserved_name(s@),
{
    let n = s.unicode_len();
    n >= 2 && s.get_char(0) == '_' && s.get_char(1) == '_'
}

/// A copy of a string slice as an owned `String`.
pub fn owned(s: &str) -> (r: String)
    ensures
        r@ == s@,
{
    String::from_str(s)
}

/// `a`, then `b`, then `c` as one string.
pub fn concat3(a: &str, b: &str, c: &str) -> (r: String)
    ensures
        r@ == a@ + b@ + c@,
{
    let mut r = String::from_str(a);
    r.append(b);
    r.append(c);
    r
}

/// `a`, `b`, `c`, `d` and `e` as one string.
pub fn concat5(a: &str, b: &str, c: &str, d: &str, e: &str) -> (r: String)
    ensures
        r@ == a@ + b@ + c@ + d@ + e@,
{
    let mut r = String::from_str(a);
    r.append(b);
    r.append(c);
    r.append(d);
    r.append(e);
    r
}

/// `a` through `g` as one string.
pub fn concat7(a: &str, b: &str, c: &str, d: &str, e: &str, f: &str, g: &str) -> (r: String)
    ensures
        r@ == a@ + b@ + c@ + d@ + e@ + f@ + g@,
{
    let mut r = concat5(a, b, c, d, e);
    r.append(f);
    r.append(g);
    r
}

} // verus!
