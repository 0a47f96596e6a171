use vstd::prelude::*;

use crate::ast::operation_visitor::{OperationVisitorContext, VisitNode, VisitStep};
use crate::static_graphql::common::Pos;
use crate::static_graphql::query::{Document, Value};
use crate::static_graphql::schema;
use crate::text::{concat3, str_eq};
use crate::validation::utils::{error_spec, ErrorView, ValidationError, ValidationErrorContext};

use super::names::{occurrences, repeated, repeated_empty_iff_unique};
use super::rule::{traversal_errors, visit_with, RuleKind, StepRule, ValidationRule};

verus! {

/// Unique argument names
///
/// A GraphQL field or directive is only valid if all supplied arguments are
/// uniquely named.
///
/// See https://spec.graphql.org/draft/#sec-Argument-Names
pub struct UniqueArgumentNames;

pub open spec fn unique_argument_names_code() -> Seq<char> {
    "UniqueArgumentNames"@
}

/// How many of the first `n` arguments are named `name`.
pub open spec fn name_count(args: Seq<(String, Value)>, name: Seq<char>, n: int) -> nat
    decreases n,
{
    if n <= 0 || n > args.len() {
        0
    } else {
        name_count(args, name, n - 1) + if args[n - 1].0@ == name {
            1nat
        } else {
            0nat
        }
    }
}

/// The errors for the first `n` arguments of a field or directive at `pos`:
/// for each name used more than once, at its first use, one error whose
/// locations repeat `pos` once for each use.
pub open spec fn duplicate_argument_errors(args: Seq<(String, Value)>, pos: Pos, n: int) -> Seq<
    ErrorView,
>
    decreases n,
{
    if n <= 0 || n > args.len() {
        Seq::empty()
    } else {
        let name = args[n - 1].0@;
        let total = name_count(args, name, args.len() as int);
        duplicate_argument_errors(args, pos, n - 1) + if name_count(args, name, n - 1) == 0
            && total > 1 {
            seq![
                error_spec(
                    unique_argument_names_code(),
                    "There can be only one argument named \""@ + name + "\"."@,
                    Seq::new(total, |k: int| pos),
                ),
            ]
        } else {
            Seq::empty()
        }
    }
}

/// The names of a list of arguments.
pub open spec fn argument_names(args: Seq<(String, Value)>) -> Seq<Seq<char>> {
    args.map_values(|a: (String, Value)| a.0@)
}

/// Counting arguments by name is counting their names.
proof fn lemma_name_count(args: Seq<(String, Value)>, name: Seq<char>, n: int)
    requires
        0 <= n <= args.len(),
    ensures
        name_count(args, name, n) == occurrences(argument_names(args), name, n),
    decreases n,
{
    if n > 0 {
        lemma_name_count(args, name, n - 1);
    }
}

/// There is one error for each name that `repeated` reports.
proof fn lemma_duplicate_count(args: Seq<(String, Value)>, pos: Pos, n: int)
    requires
        0 <= n <= args.len(),
    ensures
        duplicate_argument_errors(args, pos, n).len() == repeated(argument_names(args), n).len(),
    decreases n,
{
    if n > 0 {
        lemma_duplicate_count(args, pos, n - 1);
        let name = args[n - 1].0@;
        lemma_name_count(args, name, n - 1);
        lemma_name_count(args, name, args.len() as int);
        assert(argument_names(args)[n - 1] == name);
    }
}

/// The arguments of a field or directive give an error exactly when two of
/// them share a name.
pub proof fn unique_argument_names_law(args: Seq<(String, Value)>, pos: Pos)
    ensures
        duplicate_argument_errors(args, pos, args.len() as int).len() == 0 <==> forall|i: int, j: int|
            0 <= i < j < args.len() ==> args[i].0@ != args[j].0@,
{
    let names = argument_names(args);
    lemma_duplicate_count(args, pos, args.len() as int);
    repeated_empty_iff_unique(names);
    if forall|i: int, j: int| 0 <= i < j < names.len() ==> names[i] != names[j] {
        assert forall|i: int, j: int| 0 <= i < j < args.len() implies args[i].0@ != args[j].0@ by {
            assert(names[i] == args[i].0@ && names[j] == args[j].0@);
        }
    }
    if forall|i: int, j: int| 0 <= i < j < args.len() ==> args[i].0@ != args[j].0@ {
        assert forall|i: int, j: int| 0 <= i < j < names.len() implies names[i] != names[j] by {
            assert(names[i] == args[i].0@ && names[j] == args[j].0@);
        }
    }
}

/// The errors at one step: duplicate argument names of a field or a directive.
pub open spec fn unique_argument_names_step<'a>(s: VisitStep<'a>) -> Seq<ErrorView> {
    match s.node {
        VisitNode::Field(f) => duplicate_argument_errors(
            f.arguments@,
            f.position,
            f.arguments@.len() as int,
        ),
        VisitNode::Directive(d, _) => duplicate_argument_errors(
            d.arguments@,
            d.position,
            d.arguments@.len() as int,
        ),
        _ => Seq::empty(),
    }
}

/// How many of the first `n` arguments are named `name`.
fn count_named(args: &Vec<(String, Value)>, name: &str, n: usize) -> (r: usize)
    requires
        n <= args@.len(),
    ensures
        r == name_count(args@, name@, n as int),
        r <= n,
{
    let mut c: usize = 0;
    let mut i: usize = 0;
    while i < n
        invariant
            i <= n,
            n <= args@.len(),
            c == name_count(args@, name@, i as int),
            c <= i,
        decreases n - i,
    {
        if str_eq(args[i].0.as_str(), name) {
            c = c + 1;
        }
        i = i + 1;
    }
    c
}

impl UniqueArgumentNames {
    pub fn new() -> (r: Self) {
        UniqueArgumentNames
    }

    /// Reports the duplicate argument names among `args`.
    fn check_arguments(&self, args: &Vec<(String, Value)>, pos: Pos, errors: &mut ValidationErrorContext)
        ensures
            final(errors).reported() == old(errors).reported() + duplicate_argument_errors(
                args@,
                pos,
                args@.len() as int,
            ),
    {
        let ghost start = errors.reported();
        let mut i: usize = 0;
        while i < args.len()
            invariant
                i <= args@.len(),
                errors.reported() == start + duplicate_argument_errors(args@, pos, i as int),
            decreases args@.len() - i,
        {
            let name = args[i].0.as_str();
            let before = count_named(args, name, i);
            let total = count_named(args, name, args.len());
            if before == 0 && total > 1 {
                let mut locations: Vec<Pos> = Vec::new();
                let mut k: usize = 0;
                while k < total
                    invariant
                        k <= total,
                        locations@ == Seq::new(k as nat, |j: int| pos),
                    decreases total - k,
                {
                    locations.push(pos);
                    k = k + 1;
                    assert(locations@ =~= Seq::new(k as nat, |j: int| pos));
                }
                let message = concat3("There can be only one argument named \"", name, "\".");
                errors.report_error(
                    ValidationError { locations, message, error_code: "UniqueArgumentNames" },
                );
            }
            i = i + 1;
        }
    }
}

impl StepRule for UniqueArgumentNames {
    open spec fn step_errors<'a>(
        &self,
        schema: &'a schema::Document,
        doc: &'a Document,
        s: VisitStep<'a>,
    ) -> Seq<ErrorView> {
        unique_argument_names_step(s)
    }

    fn check_step<'a>(
        &self,
        ctx: &OperationVisitorContext<'a>,
        s: &VisitStep<'a>,
        errors: &mut ValidationErrorContext,
    ) {
        match s.node {
            VisitNode::Field(f) => self.check_arguments(&f.arguments, f.position, errors),
            VisitNode::Directive(d, _) => self.check_arguments(&d.arguments, d.position, errors),
            _ => {},
        }
    }
}

impl ValidationRule for UniqueArgumentNames {
    open spec fn spec_kind(&self) -> RuleKind {
        RuleKind::UniqueArgumentNames
    }

    open spec fn spec_errors<'a>(&self, schema: &'a schema::Document, doc: &'a Document) -> Seq<
        ErrorView,
    > {
        traversal_errors(self, schema, doc)
    }

    fn kind(&self) -> (k: RuleKind) {
        RuleKind::UniqueArgumentNames
    }

    fn error_code(&self) -> (r: &'static str)
        ensures
            r@ == unique_argument_names_code(),
    {
        "UniqueArgumentNames"
    }

    fn validate<'a>(&self, ctx: &OperationVisitorContext<'a>, error_collector: &mut ValidationErrorContext) {
        visit_with(self, ctx, error_collector);
    }
}

} // verus!
