//! The plan of rules that validation runs by default.
use vstd::prelude::*;

use crate::validation::rules::{
    FieldsOnCorrectType, FragmentsOnCompositeTypes, KnownArgumentNames, KnownDirectives, KnownFragmentNames,
    KnownTypeNames, LeafFieldSelections, LoneAnonymousOperation, NoFragmentsCycle, NoUndefinedVariables,
    NoUnusedFragments, NoUnusedVariables, OverlappingFieldsCanBeMerged, PossibleFragmentSpreads,
    ProvidedRequiredArguments, RuleKind, SingleFieldSubscriptions, UniqueArgumentNames,
    UniqueDirectivesPerLocation, UniqueFragmentNames, UniqueOperationNames, UniqueVariableNames,
    ValuesOfCorrectType, VariablesAreInputTypes, VariablesInAllowedPosition,
};
use crate::static_graphql::query::Document;
use crate::static_graphql::schema;
use crate::validation::utils::ErrorView;
use crate::validation::validate::{empty_document_passes, validation_errors, ValidationPlan};

verus! {

/// The rules run by default, in the order they run.
pub open spec fn default_rules() -> Seq<RuleKind> {
    seq![
        RuleKind::UniqueOperationNames,
        RuleKind::LoneAnonymousOperation,
        RuleKind::SingleFieldSubscriptions,
        RuleKind::KnownTypeNames,
        RuleKind::FragmentsOnCompositeTypes,
        RuleKind::VariablesAreInputTypes,
        RuleKind::LeafFieldSelections,
        RuleKind::FieldsOnCorrectType,
        RuleKind::UniqueFragmentNames,
        RuleKind::KnownFragmentNames,
        RuleKind::NoUnusedFragments,
        RuleKind::OverlappingFieldsCanBeMerged,
        RuleKind::NoFragmentsCycle,
        RuleKind::PossibleFragmentSpreads,
        RuleKind::NoUnusedVariables,
        RuleKind::NoUndefinedVariables,
        RuleKind::KnownArgumentNames,
        RuleKind::UniqueArgumentNames,
        RuleKind::UniqueVariableNames,
        RuleKind::ProvidedRequiredArguments,
        RuleKind::KnownDirectives,
        RuleKind::VariablesInAllowedPosition,
        RuleKind::ValuesOfCorrectType,
        RuleKind::UniqueDirectivesPerLocation,
    ]
}

/// The plan that runs the default rules.
pub fn default_rules_validation_plan() -> (plan: ValidationPlan)
    ensures
        plan.rules@ == default_rules(),
{
    let mut plan = ValidationPlan { rules: Vec::new() };
    plan.add_rule(Box::new(UniqueOperationNames::new()));
    plan.add_rule(Box::new(LoneAnonymousOperation::new()));
    plan.add_rule(Box::new(SingleFieldSubscriptions::new()));
    plan.add_rule(Box::new(KnownTypeNames::new()));
    plan.add_rule(Box::new(FragmentsOnCompositeTypes::new()));
    plan.add_rule(Box::new(VariablesAreInputTypes::new()));
    plan.add_rule(Box::new(LeafFieldSelections::new()));
    plan.add_rule(Box::new(FieldsOnCorrectType::new()));
    plan.add_rule(Box::new(UniqueFragmentNames::new()));
    plan.add_rule(Box::new(KnownFragmentNames::new()));
    plan.add_rule(Box::new(NoUnusedFragments::new()));
    plan.add_rule(Box::new(OverlappingFieldsCanBeMerged::new()));
    plan.add_rule(Box::new(NoFragmentsCycle::new()));
    plan.add_rule(Box::new(PossibleFragmentSpreads::new()));
    plan.add_rule(Box::new(NoUnusedVariables::new()));
    plan.add_rule(Box::new(NoUndefinedVariables::new()));
    plan.add_rule(Box::new(KnownArgumentNames::new()));
    plan.add_rule(Box::new(UniqueArgumentNames::new()));
    plan.add_rule(Box::new(UniqueVariableNames::new()));
    plan.add_rule(Box::new(ProvidedRequiredArguments::new()));
    plan.add_rule(Box::new(KnownDirectives::new()));
    plan.add_rule(Box::new(VariablesInAllowedPosition::new()));
    plan.add_rule(Box::new(ValuesOfCorrectType::new()));
    plan.add_rule(Box::new(UniqueDirectivesPerLocation::new()));
    assert(plan.rules@ =~= default_rules());
    plan
}

/// A document without definitions passes the default plan.
pub proof fn empty_document_passes_default_plan<'a>(schema: &'a schema::Document, doc: &'a Document)
    requires
        doc.definitions@.len() == 0,
    ensures
        validation_errors(default_rules(), schema, doc) == Seq::<ErrorView>::empty(),
{
    let rules = default_rules();
    assert forall|i: int| 0 <= i < rules.len() implies rules[i] != RuleKind::UniqueInputFieldNames by {
    }
    empty_document_passes(rules, schema, doc);
}

} // verus!
