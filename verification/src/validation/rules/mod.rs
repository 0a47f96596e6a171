//! The validation rules of the GraphQL specification.
pub mod rule;
pub mod defaults;
pub mod names;
pub mod scopes;
pub mod executable_definitions;
pub mod fields_on_correct_type;
pub mod fragments_on_composite_types;
pub mod known_argument_names;
pub mod known_directives;
pub mod known_fragment_names;
pub mod known_operation_types;
pub mod known_type_names;
pub mod leaf_field_selections;
pub mod lone_anonymous_operation;
pub mod no_fragments_cycle;
pub mod overlapping_fields_can_be_merged;
pub mod no_undefined_variables;
pub mod no_unused_fragments;
pub mod no_unused_variables;
pub mod possible_fragment_spreads;
pub mod provided_required_arguments;
pub mod single_field_subscriptions;
pub mod unique_argument_names;
pub mod unique_fragment_names;
pub mod unique_input_field_names;
pub mod unique_operation_names;
pub mod unique_directives_per_location;
pub mod unique_variable_names;
pub mod values_of_correct_type;
pub mod variables_are_input_types;
pub mod variables_in_allowed_position;

pub use self::rule::{RuleKind, StepRule, ValidationRule};
pub use self::defaults::default_rules_validation_plan;
pub use self::executable_definitions::ExecutableDefinitions;
pub use self::fields_on_correct_type::FieldsOnCorrectType;
pub use self::fragments_on_composite_types::FragmentsOnCompositeTypes;
pub use self::known_argument_names::KnownArgumentNames;
pub use self::known_directives::KnownDirectives;
pub use self::known_fragment_names::KnownFragmentNames;
pub use self::known_operation_types::KnownOperationTypes;
pub use self::known_type_names::KnownTypeNames;
pub use self::leaf_field_selections::LeafFieldSelections;
pub use self::lone_anonymous_operation::LoneAnonymousOperation;
pub use self::no_fragments_cycle::NoFragmentsCycle;
pub use self::no_undefined_variables::NoUndefinedVariables;
pub use self::no_unused_fragments::NoUnusedFragments;
pub use self::no_unused_variables::NoUnusedVariables;
pub use self::overlapping_fields_can_be_merged::OverlappingFieldsCanBeMerged;
pub use self::possible_fragment_spreads::PossibleFragmentSpreads;
pub use self::provided_required_arguments::ProvidedRequiredArguments;
pub use self::single_field_subscriptions::SingleFieldSubscriptions;
pub use self::unique_argument_names::UniqueArgumentNames;
pub use self::unique_fragment_names::UniqueFragmentNames;
pub use self::unique_input_field_names::UniqueInputFieldNames;
pub use self::unique_operation_names::UniqueOperationNames;
pub use self::unique_directives_per_location::UniqueDirectivesPerLocation;
pub use self::unique_variable_names::UniqueVariableNames;
pub use self::values_of_correct_type::ValuesOfCorrectType;
pub use self::variables_are_input_types::VariablesAreInputTypes;
pub use self::variables_in_allowed_position::VariablesInAllowedPosition;
