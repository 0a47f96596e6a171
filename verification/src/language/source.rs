//! A source text of GraphQL, with a name and the position where it starts.
use vstd::prelude::*;

verus! {

/// A line and a column, both counted from one.
#[derive(Clone, Copy, Debug, PartialEq, Eq, Structural)]
pub struct Location {
    pub line: usize,
    pub column: usize,
}

/// A representation of source input to GraphQL. The `name` and the location
/// offset are optional, but they are useful for clients who store GraphQL
/// documents in source files. For example, if the GraphQL input starts at
/// line 40 in a file named `Foo.graphql`, it might be useful for `name` to be
/// `"Foo.graphql"` and the location to be `{ line: 40, column: 1 }`.
pub struct Source {
    name: String,
    body: String,
    location: Location,
}

impl Source {
    pub closed spec fn spec_name(&self) -> Seq<char> {
        self.name@
    }

    pub closed spec fn spec_body(&self) -> Seq<char> {
        self.body@
    }

    pub closed spec fn spec_location(&self) -> Location {
        self.location
    }

    /// A source; where no offset is given it starts at line 1, column 1.
    pub fn new(name: String, body: String, location_offset: Option<Location>) -> (r: Source)
        ensures
            r.spec_name() == name@,
            r.spec_body() == body@,
            r.spec_location() == match location_offset {
                Some(l) => l,
                None => Location { line: 1, column: 1 },
            },
    {
        match location_offset {
            None => Source { name, body, location: Location { line: 1, column: 1 } },
            Some(location) => Source { name, body, location },
        }
    }

    pub fn get_name(&self) -> (r: &String)
        ensures
            r@ == self.spec_name(),
    {
        &self.name
    }

    pub fn get_body(&self) -> (r: &String)
        ensures
            r@ == self.spec_body(),
    {
        &self.body
    }

    pub fn get_location(&self) -> (r: &Location)
        ensures
            *r == self.spec_location(),
    {
        &self.location
    }

    /// Moves the start of the source to another line and column.
    pub fn set_location(&mut self, line: usize, column: usize)
        ensures
            final(self).spec_location() == (Location { line, column }),
            final(self).spec_name() == old(self).spec_name(),
            final(self).spec_body() == old(self).spec_body(),
    {
        self.location.line = line;
        self.location.column = column;
    }
}

} // verus!
