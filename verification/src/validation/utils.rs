//! Validation errors and the collector that the rules report them to.
use vstd::prelude::*;

use crate::static_graphql::common::Pos;

verus! {

/// A validation error: where it was found, what it says, and the rule that reported it.
#[derive(Debug)]
pub struct ValidationError {
    pub locations: Vec<Pos>,
    pub message: String,
    pub error_code: &'static str,
}

/// The mathematical form of a validation error.
pub struct ErrorView {
    pub locations: Seq<Pos>,
    pub message: Seq<char>,
    pub error_code: Seq<char>,
}

impl View for ValidationError {
    type V = ErrorView;

    open spec fn view(&self) -> ErrorView {
        ErrorView { locations: self.locations@, message: self.message@, error_code: self.error_code@ }
    }
}

/// The mathematical forms of a list of errors.
pub open spec fn errors_view(errors: Seq<ValidationError>) -> Seq<ErrorView> {
    errors.map_values(|e: ValidationError| e@)
}

/// An error reported by `code`, saying `message`, found at `locations`.
pub open spec fn error_spec(code: Seq<char>, message: Seq<char>, locations: Seq<Pos>) -> ErrorView {
    ErrorView { locations, message, error_code: code }
}

/// Collects the errors that validation rules report, in the order reported.
#[derive(Debug)]
pub struct ValidationErrorContext {
    pub errors: Vec<ValidationError>,
}

impl ValidationErrorContext {
    pub open spec fn reported(&self) -> Seq<ErrorView> {
        errors_view(self.errors@)
    }

    /// A collector that holds no errors yet.
    pub fn new() -> (r: ValidationErrorContext)
        ensures
            r.reported() == Seq::<ErrorView>::empty(),
    {
        let r = ValidationErrorContext { errors: Vec::new() };
        assert(r.reported() =~= Seq::<ErrorView>::empty());
        r
    }

    /// Records an error after those reported so far.
    pub fn report_error(&mut self, error: ValidationError)
        ensures
            final(self).reported() == old(self).reported().push(error@),
    {
        self.errors.push(error);
        assert(final(self).reported() =~= old(self).reported().push(error@));
    }
}

impl ValidationErrorContext {
    /// Records the errors of `other`, in order, after those reported so far.
    pub fn append_errors(&mut self, other: Vec<ValidationError>)
        ensures
            final(self).reported() == old(self).reported() + errors_view(other@),
    {
        let mut other = other;
        let ghost added = other@;
        self.errors.append(&mut other);
        assert(final(self).reported() =~= old(self).reported() + errors_view(added));
    }
}

/// An error with one location.
pub fn error_at(code: &'static str, message: String, location: Pos) -> (r: ValidationError)
    ensures
        r@ == error_spec(code@, message@, seq![location]),
{
    let mut locations: Vec<Pos> = Vec::new();
    locations.push(location);
    let r = ValidationError { locations, message, error_code: code };
    assert(r.locations@ =~= seq![location]);
    r
}

/// An error with no location.
pub fn error_nowhere(code: &'static str, message: String) -> (r: ValidationError)
    ensures
        r@ == error_spec(code@, message@, Seq::empty()),
{
    let r = ValidationError { locations: Vec::new(), message, error_code: code };
    assert(r.locations@ =~= Seq::<Pos>::empty());
    r
}

} // verus!
