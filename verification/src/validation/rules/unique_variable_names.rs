use vstd::prelude::*;

use crate::ast::ext::{op_variable_definitions, OperationDefinitionExtension};
use crate::ast::operation_visitor::{OperationVisitorContext, VisitNode, VisitStep};
use crate::static_graphql::common::Pos;
use crate::static_graphql::query::{Document, VariableDefinition};
use crate::static_graphql::schema;
use crate::text::{concat3, str_eq};
use crate::validation::utils::{error_spec, ErrorView, ValidationError, ValidationErrorContext};

use super::rule::{traversal_errors, visit_with, RuleKind, StepRule, ValidationRule};

verus! {

/// Unique variable names
///
/// A GraphQL operation is only valid if all its variables are uniquely named.
///
/// See https://spec.graphql.org/draft/#sec-Variable-Uniqueness
pub struct UniqueVariableNames;

pub open spec fn unique_variable_names_code() -> Seq<char> {
    "UniqueVariableNames"@
}

/// The position of the first of the first `n` variables named `name`.
pub open spec fn first_variable_named(vars: Seq<VariableDefinition>, name: Seq<char>, n: int) -> Option<
    Pos,
>
    decreases n,
{
    if n <= 0 || n > vars.len() {
        None
    } else {
        match first_variable_named(vars, name, n - 1) {
            Some(p) => Some(p),
            None => if vars[n - 1].name@ == name {
                Some(vars[n - 1].position)
            } else {
                None
            },
        }
    }
}

/// The errors for the first `n` variables of an operation: each variable
/// named as an earlier one, located at the first so named and at itself.
pub open spec fn duplicate_variable_errors(vars: Seq<VariableDefinition>, n: int) -> Seq<ErrorView>
    decreases n,
{
    if n <= 0 || n > vars.len() {
        Seq::empty()
    } else {
        let v = vars[n - 1];
        duplicate_variable_errors(vars, n - 1) + match first_variable_named(vars, v.name@, n - 1) {
            Some(first) => seq![
                error_spec(
                    unique_variable_names_code(),
                    "There can only be one variable named \"$"@ + v.name@ + "\"."@,
                    seq![first, v.position],
                ),
            ],
            None => Seq::empty(),
        }
    }
}

/// A variable among the first `n` is found by name exactly when one has that name.
proof fn lemma_first_variable(vars: Seq<VariableDefinition>, name: Seq<char>, n: int)
    requires
        0 <= n <= vars.len(),
    ensures
        first_variable_named(vars, name, n) is Some <==> exists|j: int| 0 <= j < n && vars[j].name@ == name,
    decreases n,
{
    if n > 0 {
        lemma_first_variable(vars, name, n - 1);
        if exists|j: int| 0 <= j < n && vars[j].name@ == name {
            let j = choose|j: int| 0 <= j < n && vars[j].name@ == name;
            if j < n - 1 {
                assert(exists|j: int| 0 <= j < n - 1 && vars[j].name@ == name);
            }
        }
        if first_variable_named(vars, name, n) is Some && first_variable_named(vars, name, n - 1) is None {
            assert(vars[n - 1].name@ == name);
        }
    }
}

/// The first `n` variables give no error exactly when no two of them share a name.
proof fn lemma_duplicates_empty(vars: Seq<VariableDefinition>, n: int)
    requires
        0 <= n <= vars.len(),
    ensures
        duplicate_variable_errors(vars, n).len() == 0 <==> forall|i: int, j: int|
            0 <= i < j < n ==> vars[i].name@ != vars[j].name@,
    decreases n,
{
    if n > 0 {
        lemma_duplicates_empty(vars, n - 1);
        lemma_first_variable(vars, vars[n - 1].name@, n - 1);
        if forall|i: int, j: int| 0 <= i < j < n - 1 ==> vars[i].name@ != vars[j].name@ {
            if first_variable_named(vars, vars[n - 1].name@, n - 1) is None {
                assert forall|i: int, j: int| 0 <= i < j < n implies vars[i].name@ != vars[j].name@ by {
                    if j == n - 1 && vars[i].name@ == vars[j].name@ {
                        assert(0 <= i < n - 1 && vars[i].name@ == vars[n - 1].name@);
                    }
                }
            }
        }
        if exists|i: int, j: int| #![trigger vars[i], vars[j]] 0 <= i < j < n - 1 && vars[i].name@ == vars[j].name@ {
            let (i, j) = choose|i: int, j: int| #![trigger vars[i], vars[j]] 0 <= i < j < n - 1 && vars[i].name@ == vars[j].name@;
            assert(0 <= i < j < n && vars[i].name@ == vars[j].name@);
        }
        if first_variable_named(vars, vars[n - 1].name@, n - 1) is Some {
            let j = choose|j: int| #![trigger vars[j]] 0 <= j < n - 1 && vars[j].name@ == vars[n - 1].name@;
            assert(0 <= j < n - 1 && vars[j].name@ == vars[n - 1].name@);
        }
    }
}

/// The variables of an operation give an error exactly when two of them share a name.
pub proof fn unique_variable_names_law(vars: Seq<VariableDefinition>)
    ensures
        duplicate_variable_errors(vars, vars.len() as int).len() == 0 <==> forall|i: int, j: int|
            0 <= i < j < vars.len() ==> vars[i].name@ != vars[j].name@,
{
    lemma_duplicates_empty(vars, vars.len() as int);
}

/// The errors at one step: the duplicate variables of an operation.
pub open spec fn unique_variable_names_step<'a>(s: VisitStep<'a>) -> Seq<ErrorView> {
    match s.node {
        VisitNode::OperationDefinition(op) => duplicate_variable_errors(
            op_variable_definitions(op),
            op_variable_definitions(op).len() as int,
        ),
        _ => Seq::empty(),
    }
}

/// The position of the first of the first `n` variables named `name`.
fn find_first_variable(vars: &[VariableDefinition], name: &str, n: usize) -> (r: Option<Pos>)
    requires
        n <= vars@.len(),
    ensures
        r == first_variable_named(vars@, name@, n as int),
{
    let mut i: usize = 0;
    while i < n
        invariant
            i <= n,
            n <= vars@.len(),
            first_variable_named(vars@, name@, i as int) is None,
        decreases n - i,
    {
        if str_eq(vars[i].name.as_str(), name) {
            proof {
                first_variable_stable(vars@, name@, i + 1, n as int);
            }
            return Some(vars[i].position);
        }
        i = i + 1;
    }
    None
}

/// Once a variable so named is found, later prefixes find the same one.
proof fn first_variable_stable(vars: Seq<VariableDefinition>, name: Seq<char>, m: int, n: int)
    requires
        0 < m <= n <= vars.len(),
        first_variable_named(vars, name, m) is Some,
    ensures
        first_variable_named(vars, name, n) == first_variable_named(vars, name, m),
    decreases n - m,
{
    if n > m {
        first_variable_stable(vars, name, m, n - 1);
    }
}

impl UniqueVariableNames {
    pub fn new() -> (r: Self) {
        UniqueVariableNames
    }

    /// Reports the duplicate variables among `vars`.
    fn check_variables(&self, vars: &[VariableDefinition], errors: &mut ValidationErrorContext)
        ensures
            final(errors).reported() == old(errors).reported() + duplicate_variable_errors(
                vars@,
                vars@.len() as int,
            ),
    {
        let ghost start = errors.reported();
        let mut i: usize = 0;
        while i < vars.len()
            invariant
                i <= vars@.len(),
                errors.reported() == start + duplicate_variable_errors(vars@, i as int),
            decreases vars@.len() - i,
        {
            let v = &vars[i];
            if let Some(first) = find_first_variable(vars, v.name.as_str(), i) {
                let mut locations: Vec<Pos> = Vec::new();
                locations.push(first);
                locations.push(v.position);
                assert(locations@ =~= seq![first, v.position]);
                let message = concat3("There can only be one variable named \"$", v.name.as_str(), "\".");
                errors.report_error(
                    ValidationError { locations, message, error_code: "UniqueVariableNames" },
                );
            }
            i = i + 1;
        }
    }
}

impl StepRule for UniqueVariableNames {
    open spec fn step_errors<'a>(
        &self,
        schema: &'a schema::Document,
        doc: &'a Document,
        s: VisitStep<'a>,
    ) -> Seq<ErrorView> {
        unique_variable_names_step(s)
    }

    fn check_step<'a>(
        &self,
        ctx: &OperationVisitorContext<'a>,
        s: &VisitStep<'a>,
        errors: &mut ValidationErrorContext,
    ) {
        if let VisitNode::OperationDefinition(op) = s.node {
            self.check_variables(op.variable_definitions(), errors);
        }
    }
}

impl ValidationRule for UniqueVariableNames {
    open spec fn spec_kind(&self) -> RuleKind {
        RuleKind::UniqueVariableNames
    }

    open spec fn spec_errors<'a>(&self, schema: &'a schema::Document, doc: &'a Document) -> Seq<
        ErrorView,
    > {
        traversal_errors(self, schema, doc)
    }

    fn kind(&self) -> (k: RuleKind) {
        RuleKind::UniqueVariableNames
    }

    fn error_code(&self) -> (r: &'static str)
        ensures
            r@ == unique_variable_names_code(),
    {
        "UniqueVariableNames"
    }

    fn validate<'a>(&self, ctx: &OperationVisitorContext<'a>, error_collector: &mut ValidationErrorContext) {
        visit_with(self, ctx, error_collector);
    }
}

} // verus!
