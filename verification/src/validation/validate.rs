//! Validation plans, and running a plan's rules over an operation document.
use vstd::prelude::*;

use crate::ast::operation_visitor::OperationVisitorContext;
use crate::static_graphql::query::Document;
use crate::static_graphql::schema;
use crate::validation::rules::{
    ExecutableDefinitions, FieldsOnCorrectType, FragmentsOnCompositeTypes, KnownArgumentNames,
    KnownDirectives, KnownFragmentNames, KnownOperationTypes, KnownTypeNames, LeafFieldSelections,
    LoneAnonymousOperation, NoFragmentsCycle, NoUndefinedVariables, NoUnusedFragments, NoUnusedVariables,
    OverlappingFieldsCanBeMerged,
    PossibleFragmentSpreads, ProvidedRequiredArguments, RuleKind, SingleFieldSubscriptions, UniqueArgumentNames, UniqueDirectivesPerLocation,
    UniqueFragmentNames, UniqueInputFieldNames, UniqueOperationNames, UniqueVariableNames,
    ValidationRule, ValuesOfCorrectType, VariablesAreInputTypes, VariablesInAllowedPosition,
};
use crate::validation::utils::{errors_view, ErrorView, ValidationError, ValidationErrorContext};

verus! {

/// The rules to run, in order.
pub struct ValidationPlan {
    pub rules: Vec<RuleKind>,
}

impl ValidationPlan {
    /// A plan with no rules.
    pub fn new() -> (r: Self)
        ensures
            r.rules@ == Seq::<RuleKind>::empty(),
    {
        ValidationPlan { rules: Vec::new() }
    }

    /// A plan with the given rules.
    pub fn from(rules: Vec<RuleKind>) -> (r: Self)
        ensures
            r.rules@ == rules@,
    {
        ValidationPlan { rules }
    }

    /// Adds a rule after those already in the plan. A plan holds the
    /// library's rules by kind, and runs the library's rule of the kind that
    /// `rule` names; a rule of the user's own is run by `validate_with`.
    pub fn add_rule<R: ValidationRule>(&mut self, rule: Box<R>)
        ensures
            final(self).rules@ == old(self).rules@.push(rule.spec_kind()),
    {
        let k = rule.kind();
        self.rules.push(k);
    }
}

/// The errors that one rule finds in `doc`, checked against `schema`.
pub open spec fn rule_errors<'a>(kind: RuleKind, schema: &'a schema::Document, doc: &'a Document) -> Seq<ErrorView> {
    match kind {
        RuleKind::ExecutableDefinitions => ExecutableDefinitions.spec_errors(schema, doc),
        RuleKind::FieldsOnCorrectType => FieldsOnCorrectType.spec_errors(schema, doc),
        RuleKind::FragmentsOnCompositeTypes => FragmentsOnCompositeTypes.spec_errors(schema, doc),
        RuleKind::KnownArgumentNames => KnownArgumentNames.spec_errors(schema, doc),
        RuleKind::KnownDirectives => KnownDirectives.spec_errors(schema, doc),
        RuleKind::KnownFragmentNames => KnownFragmentNames.spec_errors(schema, doc),
        RuleKind::KnownOperationTypes => KnownOperationTypes.spec_errors(schema, doc),
        RuleKind::KnownTypeNames => KnownTypeNames.spec_errors(schema, doc),
        RuleKind::LeafFieldSelections => LeafFieldSelections.spec_errors(schema, doc),
        RuleKind::LoneAnonymousOperation => LoneAnonymousOperation.spec_errors(schema, doc),
        RuleKind::NoFragmentsCycle => NoFragmentsCycle.spec_errors(schema, doc),
        RuleKind::NoUndefinedVariables => NoUndefinedVariables.spec_errors(schema, doc),
        RuleKind::NoUnusedFragments => NoUnusedFragments.spec_errors(schema, doc),
        RuleKind::NoUnusedVariables => NoUnusedVariables.spec_errors(schema, doc),
        RuleKind::OverlappingFieldsCanBeMerged => OverlappingFieldsCanBeMerged.spec_errors(schema, doc),
        RuleKind::PossibleFragmentSpreads => PossibleFragmentSpreads.spec_errors(schema, doc),
        RuleKind::ProvidedRequiredArguments => ProvidedRequiredArguments.spec_errors(schema, doc),
        RuleKind::SingleFieldSubscriptions => SingleFieldSubscriptions.spec_errors(schema, doc),
        RuleKind::UniqueArgumentNames => UniqueArgumentNames.spec_errors(schema, doc),
        RuleKind::UniqueDirectivesPerLocation => UniqueDirectivesPerLocation.spec_errors(schema, doc),
        RuleKind::UniqueFragmentNames => UniqueFragmentNames.spec_errors(schema, doc),
        RuleKind::UniqueInputFieldNames => UniqueInputFieldNames.spec_errors(schema, doc),
        RuleKind::UniqueOperationNames => UniqueOperationNames.spec_errors(schema, doc),
        RuleKind::UniqueVariableNames => UniqueVariableNames.spec_errors(schema, doc),
        RuleKind::ValuesOfCorrectType => ValuesOfCorrectType.spec_errors(schema, doc),
        RuleKind::VariablesAreInputTypes => VariablesAreInputTypes.spec_errors(schema, doc),
        RuleKind::VariablesInAllowedPosition => VariablesInAllowedPosition.spec_errors(schema, doc),
    }
}

/// The errors that the first `n` rules of a plan find, rule after rule.
pub open spec fn plan_errors<'a>(
    rules: Seq<RuleKind>,
    schema: &'a schema::Document,
    doc: &'a Document,
    n: int,
) -> Seq<ErrorView>
    decreases n,
{
    if n <= 0 || n > rules.len() {
        Seq::empty()
    } else {
        plan_errors(rules, schema, doc, n - 1) + rule_errors(rules[n - 1], schema, doc)
    }
}

/// The errors that all the rules of a plan find, rule after rule.
pub open spec fn validation_errors<'a>(
    rules: Seq<RuleKind>,
    schema: &'a schema::Document,
    doc: &'a Document,
) -> Seq<ErrorView> {
    plan_errors(rules, schema, doc, rules.len() as int)
}

/// Running two plans one after the other finds the errors of the plan that
/// holds the rules of both, in the same order.
pub proof fn validation_of_joined_plans<'a>(
    a: Seq<RuleKind>,
    b: Seq<RuleKind>,
    schema: &'a schema::Document,
    doc: &'a Document,
)
    ensures
        validation_errors(a + b, schema, doc) == validation_errors(a, schema, doc) + validation_errors(
            b,
            schema,
            doc,
        ),
    decreases b.len(),
{
    if b.len() == 0 {
        assert(a + b =~= a);
        assert(validation_errors(a, schema, doc) + validation_errors(b, schema, doc) =~= validation_errors(a, schema, doc));
    } else {
        let b0 = b.drop_last();
        validation_of_joined_plans(a, b0, schema, doc);
        assert((a + b).drop_last() =~= a + b0);
        prefix_plan_errors(a + b, a + b0, schema, doc, (a + b0).len() as int);
        prefix_plan_errors(b, b0, schema, doc, b0.len() as int);
        assert(validation_errors(a + b, schema, doc) =~= validation_errors(a, schema, doc)
            + validation_errors(b, schema, doc));
    }
}

/// The errors of the first `n` rules depend only on those rules.
proof fn prefix_plan_errors<'a>(
    longer: Seq<RuleKind>,
    shorter: Seq<RuleKind>,
    schema: &'a schema::Document,
    doc: &'a Document,
    n: int,
)
    requires
        0 <= n <= shorter.len(),
        shorter.len() <= longer.len(),
        forall|i: int| 0 <= i < shorter.len() ==> longer[i] == shorter[i],
    ensures
        plan_errors(longer, schema, doc, n) == plan_errors(shorter, schema, doc, n),
    decreases n,
{
    if n > 0 {
        prefix_plan_errors(longer, shorter, schema, doc, n - 1);
    }
}

/// Runs one rule.
pub fn run_rule<'a>(kind: RuleKind, ctx: &OperationVisitorContext<'a>, errors: &mut ValidationErrorContext)
    ensures
        final(errors).reported() == old(errors).reported() + rule_errors(kind, ctx.schema, ctx.operation),
{
    match kind {
        RuleKind::ExecutableDefinitions => ExecutableDefinitions.validate(ctx, errors),
        RuleKind::FieldsOnCorrectType => FieldsOnCorrectType.validate(ctx, errors),
        RuleKind::FragmentsOnCompositeTypes => FragmentsOnCompositeTypes.validate(ctx, errors),
        RuleKind::KnownArgumentNames => KnownArgumentNames.validate(ctx, errors),
        RuleKind::KnownDirectives => KnownDirectives.validate(ctx, errors),
        RuleKind::KnownFragmentNames => KnownFragmentNames.validate(ctx, errors),
        RuleKind::KnownOperationTypes => KnownOperationTypes.validate(ctx, errors),
        RuleKind::KnownTypeNames => KnownTypeNames.validate(ctx, errors),
        RuleKind::LeafFieldSelections => LeafFieldSelections.validate(ctx, errors),
        RuleKind::LoneAnonymousOperation => LoneAnonymousOperation.validate(ctx, errors),
        RuleKind::NoFragmentsCycle => NoFragmentsCycle.validate(ctx, errors),
        RuleKind::NoUndefinedVariables => NoUndefinedVariables.validate(ctx, errors),
        RuleKind::NoUnusedFragments => NoUnusedFragments.validate(ctx, errors),
        RuleKind::NoUnusedVariables => NoUnusedVariables.validate(ctx, errors),
        RuleKind::OverlappingFieldsCanBeMerged => OverlappingFieldsCanBeMerged.validate(ctx, errors),
        RuleKind::PossibleFragmentSpreads => PossibleFragmentSpreads.validate(ctx, errors),
        RuleKind::ProvidedRequiredArguments => ProvidedRequiredArguments.validate(ctx, errors),
        RuleKind::SingleFieldSubscriptions => SingleFieldSubscriptions.validate(ctx, errors),
        RuleKind::UniqueArgumentNames => UniqueArgumentNames.validate(ctx, errors),
        RuleKind::UniqueDirectivesPerLocation => UniqueDirectivesPerLocation.validate(ctx, errors),
        RuleKind::UniqueFragmentNames => UniqueFragmentNames.validate(ctx, errors),
        RuleKind::UniqueInputFieldNames => UniqueInputFieldNames.validate(ctx, errors),
        RuleKind::UniqueOperationNames => UniqueOperationNames.validate(ctx, errors),
        RuleKind::UniqueVariableNames => UniqueVariableNames.validate(ctx, errors),
        RuleKind::ValuesOfCorrectType => ValuesOfCorrectType.validate(ctx, errors),
        RuleKind::VariablesAreInputTypes => VariablesAreInputTypes.validate(ctx, errors),
        RuleKind::VariablesInAllowedPosition => VariablesInAllowedPosition.validate(ctx, errors),
    }
}

/// Validates `operation` against `schema` with the rules of a plan: the
/// errors of each rule in turn, in the order the rule reports them.
pub fn validate<'a>(
    schema: &'a schema::Document,
    operation: &'a Document,
    validation_plan: &'a ValidationPlan,
) -> (r: Vec<ValidationError>)
    ensures
        errors_view(r@) == validation_errors(validation_plan.rules@, schema, operation),
{
    let ctx = OperationVisitorContext::new(operation, schema);
    let mut collector = ValidationErrorContext::new();
    let rules = &validation_plan.rules;
    let mut i: usize = 0;
    while i < rules.len()
        invariant
            i <= rules@.len(),
            ctx.schema == schema,
            ctx.operation == operation,
            collector.reported() == plan_errors(rules@, schema, operation, i as int),
        decreases rules@.len() - i,
    {
        run_rule(rules[i], &ctx, &mut collector);
        i = i + 1;
    }
    collector.errors
}

/// Runs one rule, a rule of the library's or of its user's, over `operation`
/// checked against `schema`, and returns the errors that it reports.
pub fn validate_with<'a, R: ValidationRule>(
    schema: &'a schema::Document,
    operation: &'a Document,
    rule: &R,
) -> (r: Vec<ValidationError>)
    ensures
        errors_view(r@) == rule.spec_errors(schema, operation),
{
    let ctx = OperationVisitorContext::new(operation, schema);
    let mut collector = ValidationErrorContext::new();
    rule.validate(&ctx, &mut collector);
    assert(collector.reported() =~= rule.spec_errors(schema, operation));
    collector.errors
}

} // verus!

verus! {

/// A rule that checks the operation document finds nothing in a document
/// without definitions.
proof fn rule_finds_nothing_in_empty_document<'a>(kind: RuleKind, schema: &'a schema::Document, doc: &'a Document)
    requires
        doc.definitions@.len() == 0,
        kind != RuleKind::UniqueInputFieldNames,
    ensures
        rule_errors(kind, schema, doc) == Seq::<ErrorView>::empty(),
{
    match kind {
        RuleKind::ExecutableDefinitions => {
            assert(rule_errors(kind, schema, doc) =~= Seq::<ErrorView>::empty());
        },
        RuleKind::FieldsOnCorrectType => {
            assert(rule_errors(kind, schema, doc) =~= Seq::<ErrorView>::empty());
        },
        RuleKind::FragmentsOnCompositeTypes => {
            assert(rule_errors(kind, schema, doc) =~= Seq::<ErrorView>::empty());
        },
        RuleKind::KnownArgumentNames => {
            assert(rule_errors(kind, schema, doc) =~= Seq::<ErrorView>::empty());
        },
        RuleKind::KnownDirectives => {
            assert(rule_errors(kind, schema, doc) =~= Seq::<ErrorView>::empty());
        },
        RuleKind::KnownFragmentNames => {
            assert(rule_errors(kind, schema, doc) =~= Seq::<ErrorView>::empty());
        },
        RuleKind::KnownOperationTypes => {
            assert(rule_errors(kind, schema, doc) =~= Seq::<ErrorView>::empty());
        },
        RuleKind::KnownTypeNames => {
            assert(rule_errors(kind, schema, doc) =~= Seq::<ErrorView>::empty());
        },
        RuleKind::LeafFieldSelections => {
            assert(rule_errors(kind, schema, doc) =~= Seq::<ErrorView>::empty());
        },
        RuleKind::LoneAnonymousOperation => {
            assert(rule_errors(kind, schema, doc) =~= Seq::<ErrorView>::empty());
        },
        RuleKind::NoFragmentsCycle => {
            assert(rule_errors(kind, schema, doc) =~= Seq::<ErrorView>::empty());
        },
        RuleKind::NoUndefinedVariables => {
            assert(rule_errors(kind, schema, doc) =~= Seq::<ErrorView>::empty());
        },
        RuleKind::NoUnusedFragments => {
            assert(rule_errors(kind, schema, doc) =~= Seq::<ErrorView>::empty());
        },
        RuleKind::NoUnusedVariables => {
            assert(rule_errors(kind, schema, doc) =~= Seq::<ErrorView>::empty());
        },
        RuleKind::OverlappingFieldsCanBeMerged => {
            assert(rule_errors(kind, schema, doc) =~= Seq::<ErrorView>::empty());
        },
        RuleKind::PossibleFragmentSpreads => {
            assert(rule_errors(kind, schema, doc) =~= Seq::<ErrorView>::empty());
        },
        RuleKind::ProvidedRequiredArguments => {
            assert(rule_errors(kind, schema, doc) =~= Seq::<ErrorView>::empty());
        },
        RuleKind::SingleFieldSubscriptions => {
            assert(rule_errors(kind, schema, doc) =~= Seq::<ErrorView>::empty());
        },
        RuleKind::UniqueArgumentNames => {
            assert(rule_errors(kind, schema, doc) =~= Seq::<ErrorView>::empty());
        },
        RuleKind::UniqueDirectivesPerLocation => {
            assert(rule_errors(kind, schema, doc) =~= Seq::<ErrorView>::empty());
        },
        RuleKind::UniqueFragmentNames => {
            assert(rule_errors(kind, schema, doc) =~= Seq::<ErrorView>::empty());
        },
        RuleKind::UniqueInputFieldNames => {},
        RuleKind::UniqueOperationNames => {
            assert(rule_errors(kind, schema, doc) =~= Seq::<ErrorView>::empty());
        },
        RuleKind::UniqueVariableNames => {
            assert(rule_errors(kind, schema, doc) =~= Seq::<ErrorView>::empty());
        },
        RuleKind::ValuesOfCorrectType => {
            assert(rule_errors(kind, schema, doc) =~= Seq::<ErrorView>::empty());
        },
        RuleKind::VariablesAreInputTypes => {
            assert(rule_errors(kind, schema, doc) =~= Seq::<ErrorView>::empty());
        },
        RuleKind::VariablesInAllowedPosition => {
            assert(rule_errors(kind, schema, doc) =~= Seq::<ErrorView>::empty());
        },
    }
}

/// A document without definitions passes every plan whose rules check the
/// operation document (all but `UniqueInputFieldNames`, which checks the schema).
pub proof fn empty_document_passes<'a>(rules: Seq<RuleKind>, schema: &'a schema::Document, doc: &'a Document)
    requires
        doc.definitions@.len() == 0,
        !rules.contains(RuleKind::UniqueInputFieldNames),
    ensures
        validation_errors(rules, schema, doc) == Seq::<ErrorView>::empty(),
{
    assert forall|n: int| 0 <= n <= rules.len() implies plan_errors(rules, schema, doc, n) == Seq::<ErrorView>::empty() by {
        empty_plan_prefix(rules, schema, doc, n);
    }
}

proof fn empty_plan_prefix<'a>(rules: Seq<RuleKind>, schema: &'a schema::Document, doc: &'a Document, n: int)
    requires
        doc.definitions@.len() == 0,
        !rules.contains(RuleKind::UniqueInputFieldNames),
        0 <= n <= rules.len(),
    ensures
        plan_errors(rules, schema, doc, n) == Seq::<ErrorView>::empty(),
    decreases n,
{
    if n > 0 {
        empty_plan_prefix(rules, schema, doc, n - 1);
        assert(rules[n - 1] != RuleKind::UniqueInputFieldNames) by {
            if rules[n - 1] == RuleKind::UniqueInputFieldNames {
                assert(rules.contains(rules[n - 1]));
            }
        }
        rule_finds_nothing_in_empty_document(rules[n - 1], schema, doc);
        assert(plan_errors(rules, schema, doc, n) =~= Seq::<ErrorView>::empty());
    }
}

} // verus!
