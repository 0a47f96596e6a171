use vstd::prelude::*;

use crate::ast::operation_visitor::{
    document_steps, document_visit_steps, OperationVisitorContext, VisitStep,
};
use crate::static_graphql::query::Document;
use crate::static_graphql::schema;
use crate::validation::utils::{ErrorView, ValidationErrorContext};

verus! {

/// The rules that the library implements.
#[derive(Clone, Copy, Debug, PartialEq, Eq, Structural)]
pub enum RuleKind {
    ExecutableDefinitions,
    FieldsOnCorrectType,
    FragmentsOnCompositeTypes,
    KnownArgumentNames,
    KnownDirectives,
    KnownFragmentNames,
    KnownOperationTypes,
    KnownTypeNames,
    LeafFieldSelections,
    LoneAnonymousOperation,
    NoFragmentsCycle,
    NoUndefinedVariables,
    NoUnusedFragments,
    NoUnusedVariables,
    OverlappingFieldsCanBeMerged,
    PossibleFragmentSpreads,
    ProvidedRequiredArguments,
    SingleFieldSubscriptions,
    UniqueArgumentNames,
    UniqueDirectivesPerLocation,
    UniqueFragmentNames,
    UniqueInputFieldNames,
    UniqueOperationNames,
    UniqueVariableNames,
    ValuesOfCorrectType,
    VariablesAreInputTypes,
    VariablesInAllowedPosition,
}

/// A validation rule: it reports the errors that it finds in the operation
/// document of a context, checked against the context's schema.
pub trait ValidationRule {
    /// Which rule this is.
    spec fn spec_kind(&self) -> RuleKind;

    /// The errors that the rule finds in `doc`, in the order reported.
    spec fn spec_errors<'a>(&self, schema: &'a schema::Document, doc: &'a Document) -> Seq<ErrorView>;

    /// Which rule this is.
    fn kind(&self) -> (k: RuleKind)
        ensures
            k == self.spec_kind(),
    ;

    /// The code that the rule's errors carry.
    fn error_code(&self) -> &'static str;

    /// Reports the errors that the rule finds, after those reported before.
    fn validate<'a>(&self, ctx: &OperationVisitorContext<'a>, error_collector: &mut ValidationErrorContext)
        ensures
            final(error_collector).reported() == old(error_collector).reported() + self.spec_errors(
                ctx.schema,
                ctx.operation,
            ),
    ;
}

/// A rule that decides at each step of a traversal, from that step alone.
pub trait StepRule {
    /// The errors that the rule reports at one step.
    spec fn step_errors<'a>(
        &self,
        schema: &'a schema::Document,
        doc: &'a Document,
        s: VisitStep<'a>,
    ) -> Seq<ErrorView>;

    /// Reports the errors of one step.
    fn check_step<'a>(
        &self,
        ctx: &OperationVisitorContext<'a>,
        s: &VisitStep<'a>,
        errors: &mut ValidationErrorContext,
    )
        ensures
            final(errors).reported() == old(errors).reported() + self.step_errors(
                ctx.schema,
                ctx.operation,
                *s,
            ),
    ;
}

/// The errors of a step rule at the first `n` steps.
pub open spec fn step_errors_upto<'a, R: StepRule>(
    rule: &R,
    schema: &'a schema::Document,
    doc: &'a Document,
    steps: Seq<VisitStep<'a>>,
    n: int,
) -> Seq<ErrorView>
    decreases n,
{
    if n <= 0 || n > steps.len() {
        Seq::empty()
    } else {
        step_errors_upto(rule, schema, doc, steps, n - 1) + rule.step_errors(schema, doc, steps[n - 1])
    }
}

/// The errors of a step rule over the traversal of a whole document.
pub open spec fn traversal_errors<'a, R: StepRule>(
    rule: &R,
    schema: &'a schema::Document,
    doc: &'a Document,
) -> Seq<ErrorView> {
    let steps = document_steps(schema, doc);
    step_errors_upto(rule, schema, doc, steps, steps.len() as int)
}

/// The errors at the first `m` steps come first among those at the first `n`.
proof fn step_errors_upto_prefix<'a, R: StepRule>(
    rule: &R,
    schema: &'a schema::Document,
    doc: &'a Document,
    steps: Seq<VisitStep<'a>>,
    m: int,
    n: int,
)
    requires
        0 <= m <= n <= steps.len(),
    ensures
        step_errors_upto(rule, schema, doc, steps, m).len() <= step_errors_upto(rule, schema, doc, steps, n).len(),
        forall|j: int|
            0 <= j < step_errors_upto(rule, schema, doc, steps, m).len() ==> #[trigger] step_errors_upto(
                rule,
                schema,
                doc,
                steps,
                n,
            )[j] == step_errors_upto(rule, schema, doc, steps, m)[j],
    decreases n - m,
{
    if m < n {
        step_errors_upto_prefix(rule, schema, doc, steps, m, n - 1);
    }
}

/// Every error that a step rule gives at a step of a document's traversal is
/// among the errors that the rule reports for the document.
pub proof fn step_error_reported<'a, R: StepRule>(
    rule: &R,
    schema: &'a schema::Document,
    doc: &'a Document,
    i: int,
    k: int,
)
    requires
        0 <= i < document_steps(schema, doc).len(),
        0 <= k < rule.step_errors(schema, doc, document_steps(schema, doc)[i]).len(),
    ensures
        traversal_errors(rule, schema, doc).contains(rule.step_errors(schema, doc, document_steps(schema, doc)[i])[k]),
{
    let steps = document_steps(schema, doc);
    let before = step_errors_upto(rule, schema, doc, steps, i);
    let here = rule.step_errors(schema, doc, steps[i]);
    step_errors_upto_prefix(rule, schema, doc, steps, i + 1, steps.len() as int);
    assert(step_errors_upto(rule, schema, doc, steps, i + 1) == before + here);
    let p = before.len() + k;
    assert(step_errors_upto(rule, schema, doc, steps, i + 1)[p] == here[k]);
    assert(traversal_errors(rule, schema, doc)[p] == here[k]);
}

/// Runs a step rule over the traversal of the context's document.
pub fn visit_with<'a, R: StepRule>(
    rule: &R,
    ctx: &OperationVisitorContext<'a>,
    error_collector: &mut ValidationErrorContext,
)
    ensures
        final(error_collector).reported() == old(error_collector).reported() + traversal_errors(
            rule,
            ctx.schema,
            ctx.operation,
        ),
{
    let steps = document_visit_steps(ctx.schema, ctx.operation);
    let ghost start = error_collector.reported();
    let mut i: usize = 0;
    while i < steps.len()
        invariant
            i <= steps@.len(),
            steps@ == document_steps(ctx.schema, ctx.operation),
            error_collector.reported() == start + step_errors_upto(
                rule,
                ctx.schema,
                ctx.operation,
                steps@,
                i as int,
            ),
        decreases steps@.len() - i,
    {
        rule.check_step(ctx, &steps[i], error_collector);
        proof {
            assert(step_errors_upto(rule, ctx.schema, ctx.operation, steps@, i + 1)
                == step_errors_upto(rule, ctx.schema, ctx.operation, steps@, i as int)
                + rule.step_errors(ctx.schema, ctx.operation, steps@[i as int]));
        }
        i = i + 1;
    }
}

} // verus!
