//! Lines and columns of character offsets in a source.
use vstd::prelude::*;

use crate::language::source::Source;

verus! {

/// Represents a location in a Source.
#[derive(Clone, Copy, Debug, PartialEq, Eq, Structural)]
pub struct SourceLocation {
    pub line: usize,
    pub column: usize,
}

/// The line and column, counted from one, of the character at offset `n` of
/// `body`: each newline before it starts a new line, and every other
/// character moves one column on.
pub open spec fn location_at(body: Seq<char>, n: int) -> (int, int)
    decreases n,
{
    if n <= 0 {
        (1, 1)
    } else {
        let prev = location_at(body, n - 1);
        if body[n - 1] == '\n' {
            (prev.0 + 1, 1)
        } else {
            (prev.0, prev.1 + 1)
        }
    }
}

/// Lines and columns grow by at most one for each character passed.
proof fn location_bound(body: Seq<char>, n: int)
    requires
        n >= 0,
    ensures
        location_at(body, n).0 >= 1,
        location_at(body, n).1 >= 1,
        location_at(body, n).0 + location_at(body, n).1 <= n + 2,
    decreases n,
{
    if n > 0 {
        location_bound(body, n - 1);
    }
}

/// How many of the first `n` characters of `body` are newlines.
pub open spec fn newlines_before(body: Seq<char>, n: int) -> int
    decreases n,
{
    if n <= 0 {
        0
    } else {
        newlines_before(body, n - 1) + if body[n - 1] == '\n' {
            1int
        } else {
            0int
        }
    }
}

/// The line of an offset is one more than the number of newlines before it,
/// and a newline just before it puts it in the first column.
pub proof fn location_line_counts_newlines(body: Seq<char>, n: int)
    requires
        n >= 0,
    ensures
        location_at(body, n).0 == 1 + newlines_before(body, n),
        n > 0 && body[n - 1] == '\n' ==> location_at(body, n).1 == 1,
    decreases n,
{
    if n > 0 {
        location_line_counts_newlines(body, n - 1);
    }
}

/// The line and column of the character at offset `position` (counted in
/// characters) of the source's body.
pub fn get_location(source: &Source, position: usize) -> (r: SourceLocation)
    requires
        position <= source.spec_body().len(),
        position < usize::MAX,
    ensures
        (r.line as int, r.column as int) == location_at(source.spec_body(), position as int),
{
    let body = source.get_body();
    let mut line: usize = 1;
    let mut column: usize = 1;
    let mut index: usize = 0;
    while index < position
        invariant
            index <= position,
            position <= body@.len(),
            position < usize::MAX,
            body@ == source.spec_body(),
            (line as int, column as int) == location_at(body@, index as int),
        decreases position - index,
    {
        proof {
            location_bound(body@, index as int);
        }
        if body.as_str().get_char(index) == '\n' {
            line = line + 1;
            column = 1;
        } else {
            column = column + 1;
        }
        index = index + 1;
    }
    SourceLocation { line, column }
}

} // verus!
