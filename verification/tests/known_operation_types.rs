#![allow(unused_imports)]
use graphql_tools::validation::rules::KnownOperationTypes;
use graphql_tools::validation::test_utils::{create_plan_from_rule, get_messages, test_operation_with_schema, test_operation_without_schema, TEST_SCHEMA};


#[test]
fn one_known_operation() {
    

    let mut plan = create_plan_from_rule(Box::new(KnownOperationTypes {}));
    let errors = test_operation_with_schema(
        "{ field }",
        TEST_SCHEMA,
        &mut plan,
    );

    assert_eq!(get_messages(&errors).len(), 0);
}

#[test]
fn unknown_mutation_operation() {
    

    let mut plan = create_plan_from_rule(Box::new(KnownOperationTypes {}));
    let errors = test_operation_with_schema(
        "mutation { field }",
        "type Query { _: String }",
        &mut plan,
    );

    let messages = get_messages(&errors);
    assert_eq!(messages.len(), 1);
    assert_eq!(
        messages,
        vec!["The mutation operation is not supported by the schema."]
    );
}

#[test]
fn unknown_subscription_operation() {
    

    let mut plan = create_plan_from_rule(Box::new(KnownOperationTypes {}));
    let errors = test_operation_with_schema(
        "subscription { field }",
        "type Query { _: String }",
        &mut plan,
    );

    let messages = get_messages(&errors);
    assert_eq!(messages.len(), 1);
    assert_eq!(
        messages,
        vec!["The subscription operation is not supported by the schema."]
    );
}

#[test]
fn mixture_of_known_and_unknown_operations() {
    

    let mut plan = create_plan_from_rule(Box::new(KnownOperationTypes {}));
    let errors = test_operation_with_schema(
        "query { field }
        mutation { field }
        subscription { field }",
        "type Query { field: String }",
        &mut plan,
    );

    let messages = get_messages(&errors);
    assert_eq!(messages.len(), 2);
    assert_eq!(
        messages,
        vec!["The mutation operation is not supported by the schema.", "The subscription operation is not supported by the schema."]
    );
}
