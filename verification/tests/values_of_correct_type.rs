#![allow(unused_imports)]
use graphql_tools::validation::rules::ValuesOfCorrectType;
use graphql_tools::validation::test_utils::{create_plan_from_rule, get_messages, test_operation_with_schema, test_operation_without_schema, TEST_SCHEMA};


#[test]
fn valid_int_value() {
    

    let mut plan = create_plan_from_rule(Box::new(ValuesOfCorrectType::new()));
    let errors = test_operation_with_schema(
        "
        {
          complicatedArgs {
            intArgField(intArg: 2)
          }
        }",
        TEST_SCHEMA,
        &mut plan,
    );

    let messages = get_messages(&errors);
    assert_eq!(messages.len(), 0);
}

#[test]
fn valid_negative_int_value() {
    

    let mut plan = create_plan_from_rule(Box::new(ValuesOfCorrectType::new()));
    let errors = test_operation_with_schema(
        "
        {
          complicatedArgs {
            intArgField(intArg: -2)
          }
        }",
        TEST_SCHEMA,
        &mut plan,
    );

    let messages = get_messages(&errors);
    assert_eq!(messages.len(), 0);
}

#[test]
fn valid_boolean_value() {
    

    let mut plan = create_plan_from_rule(Box::new(ValuesOfCorrectType::new()));
    let errors = test_operation_with_schema(
        "
        {
          complicatedArgs {
            booleanArgField(booleanArg: true)
          }
        }",
        TEST_SCHEMA,
        &mut plan,
    );

    let messages = get_messages(&errors);
    assert_eq!(messages.len(), 0);
}

#[test]
fn valid_string_value() {
    

    let mut plan = create_plan_from_rule(Box::new(ValuesOfCorrectType::new()));
    let errors = test_operation_with_schema(
        "
        {
          complicatedArgs {
            stringArgField(stringArg: \"foo\")
          }
        }",
        TEST_SCHEMA,
        &mut plan,
    );

    let messages = get_messages(&errors);
    assert_eq!(messages.len(), 0);
}

#[test]
fn valid_float_value() {
    

    let mut plan = create_plan_from_rule(Box::new(ValuesOfCorrectType::new()));
    let errors = test_operation_with_schema(
        "
        {
          complicatedArgs {
            floatArgField(floatArg: 1.1)
          }
        }",
        TEST_SCHEMA,
        &mut plan,
    );

    let messages = get_messages(&errors);
    assert_eq!(messages.len(), 0);
}

#[test]
fn valid_negative_float_value() {
    

    let mut plan = create_plan_from_rule(Box::new(ValuesOfCorrectType::new()));
    let errors = test_operation_with_schema(
        "
        {
          complicatedArgs {
            floatArgField(floatArg: -1.1)
          }
        }",
        TEST_SCHEMA,
        &mut plan,
    );

    let messages = get_messages(&errors);
    assert_eq!(messages.len(), 0);
}

#[test]
fn valid_int_into_float_value() {
    

    let mut plan = create_plan_from_rule(Box::new(ValuesOfCorrectType::new()));
    let errors = test_operation_with_schema(
        "
        {
          complicatedArgs {
            floatArgField(floatArg: 1)
          }
        }",
        TEST_SCHEMA,
        &mut plan,
    );

    let messages = get_messages(&errors);
    assert_eq!(messages.len(), 0);
}

#[test]
fn valid_int_into_id_value() {
    

    let mut plan = create_plan_from_rule(Box::new(ValuesOfCorrectType::new()));
    let errors = test_operation_with_schema(
        "
        {
          complicatedArgs {
            idArgField(idArg: 1)
          }
        }",
        TEST_SCHEMA,
        &mut plan,
    );

    let messages = get_messages(&errors);
    assert_eq!(messages.len(), 0);
}

#[test]
fn valid_string_into_id_value() {
    

    let mut plan = create_plan_from_rule(Box::new(ValuesOfCorrectType::new()));
    let errors = test_operation_with_schema(
        "
        {
          complicatedArgs {
            idArgField(idArg: \"someIdString\")
          }
        }",
        TEST_SCHEMA,
        &mut plan,
    );

    let messages = get_messages(&errors);
    assert_eq!(messages.len(), 0);
}

#[test]
fn valid_enum_value() {
    

    let mut plan = create_plan_from_rule(Box::new(ValuesOfCorrectType::new()));
    let errors = test_operation_with_schema(
        "
        {
          dog {
            doesKnowCommand(dogCommand: SIT)
          }
        }",
        TEST_SCHEMA,
        &mut plan,
    );

    let messages = get_messages(&errors);
    assert_eq!(messages.len(), 0);
}

#[test]
fn enum_undefined_value() {
    

    let mut plan = create_plan_from_rule(Box::new(ValuesOfCorrectType::new()));
    let errors = test_operation_with_schema(
        "
        {
          complicatedArgs {
            enumArgField(enumArg: UNKNOWN)
          }
        }",
        TEST_SCHEMA,
        &mut plan,
    );

    let messages = get_messages(&errors);
    assert_eq!(messages.len(), 0);
}

#[test]
fn enum_null_value() {
    

    let mut plan = create_plan_from_rule(Box::new(ValuesOfCorrectType::new()));
    let errors = test_operation_with_schema(
        "
        {
          complicatedArgs {
            enumArgField(enumArg: NO_FUR)
          }
        }",
        TEST_SCHEMA,
        &mut plan,
    );

    let messages = get_messages(&errors);
    assert_eq!(messages.len(), 0);
}

#[test]
fn valid_null_into_nullable() {
    

    let mut plan = create_plan_from_rule(Box::new(ValuesOfCorrectType::new()));
    let errors = test_operation_with_schema(
        "
        {
          complicatedArgs {
            intArgField(intArg: null)
          }
        }",
        TEST_SCHEMA,
        &mut plan,
    );

    let messages = get_messages(&errors);
    assert_eq!(messages.len(), 0);

    let errors = test_operation_with_schema(
        "
        {
          dog(a: null, b: null, c:{ requiredField: true, intField: null }) {
            name
          }
        }",
        TEST_SCHEMA,
        &mut plan,
    );

    let messages = get_messages(&errors);
    assert_eq!(messages.len(), 0);
}

#[test]
fn invalid_int_into_string() {
    

    let mut plan = create_plan_from_rule(Box::new(ValuesOfCorrectType::new()));
    let errors = test_operation_with_schema(
        "
        {
          complicatedArgs {
            stringArgField(stringArg: 1)
          }
        }",
        TEST_SCHEMA,
        &mut plan,
    );

    let messages = get_messages(&errors);
    assert_eq!(messages.len(), 1);
    assert_eq!(
        messages,
        vec!["Expected value of type \"String\", found 1."]
    );
}

#[test]
fn invalid_float_into_string() {
    

    let mut plan = create_plan_from_rule(Box::new(ValuesOfCorrectType::new()));
    let errors = test_operation_with_schema(
        "
        {
          complicatedArgs {
            stringArgField(stringArg: 1.0)
          }
        }",
        TEST_SCHEMA,
        &mut plan,
    );

    let messages = get_messages(&errors);
    assert_eq!(messages.len(), 1);
    assert_eq!(
        messages,
        vec!["Expected value of type \"String\", found 1."]
    );
}

#[test]
fn invalid_bool_into_string() {
    

    let mut plan = create_plan_from_rule(Box::new(ValuesOfCorrectType::new()));
    let errors = test_operation_with_schema(
        "
        {
          complicatedArgs {
            stringArgField(stringArg: true)
          }
        }",
        TEST_SCHEMA,
        &mut plan,
    );

    let messages = get_messages(&errors);
    assert_eq!(messages.len(), 1);
    assert_eq!(
        messages,
        vec!["Expected value of type \"String\", found true."]
    );
}

#[test]
fn unquoted_string_to_string() {
    

    let mut plan = create_plan_from_rule(Box::new(ValuesOfCorrectType::new()));
    let errors = test_operation_with_schema(
        "
        {
          complicatedArgs {
            stringArgField(stringArg: BAR)
          }
        }",
        TEST_SCHEMA,
        &mut plan,
    );

    let messages = get_messages(&errors);
    assert_eq!(messages.len(), 1);
    assert_eq!(
        messages,
        vec!["Expected value of type \"String\", found BAR."]
    );
}

#[test]
fn invalid_string_into_int() {
    

    let mut plan = create_plan_from_rule(Box::new(ValuesOfCorrectType::new()));
    let errors = test_operation_with_schema(
        "
        {
          complicatedArgs {
            intArgField(intArg: \"3\")
          }
        }",
        TEST_SCHEMA,
        &mut plan,
    );

    let messages = get_messages(&errors);
    assert_eq!(messages.len(), 1);
    assert_eq!(
        messages,
        vec!["Expected value of type \"Int\", found \"3\"."]
    );
}

#[test]
fn unquoted_string_into_int() {
    

    let mut plan = create_plan_from_rule(Box::new(ValuesOfCorrectType::new()));
    let errors = test_operation_with_schema(
        "
        {
          complicatedArgs {
            intArgField(intArg: FOO)
          }
        }",
        TEST_SCHEMA,
        &mut plan,
    );

    let messages = get_messages(&errors);
    assert_eq!(messages.len(), 1);
    assert_eq!(messages, vec!["Expected value of type \"Int\", found FOO."]);
}

#[test]
fn simple_float_into_int() {
    

    let mut plan = create_plan_from_rule(Box::new(ValuesOfCorrectType::new()));
    let errors = test_operation_with_schema(
        "
        {
          complicatedArgs {
            intArgField(intArg: 3.0)
          }
        }",
        TEST_SCHEMA,
        &mut plan,
    );

    let messages = get_messages(&errors);
    assert_eq!(messages.len(), 1);
    assert_eq!(messages, vec!["Expected value of type \"Int\", found 3."]);
}

#[test]
fn float_into_int() {
    

    let mut plan = create_plan_from_rule(Box::new(ValuesOfCorrectType::new()));
    let errors = test_operation_with_schema(
        "
        {
          complicatedArgs {
            intArgField(intArg: 3.333)
          }
        }",
        TEST_SCHEMA,
        &mut plan,
    );

    let messages = get_messages(&errors);
    assert_eq!(messages.len(), 1);
    assert_eq!(
        messages,
        vec!["Expected value of type \"Int\", found 3.333."]
    );
}

#[test]
fn string_into_float() {
    

    let mut plan = create_plan_from_rule(Box::new(ValuesOfCorrectType::new()));
    let errors = test_operation_with_schema(
        "
        {
          complicatedArgs {
            floatArgField(floatArg: \"3.333\")
          }
        }",
        TEST_SCHEMA,
        &mut plan,
    );

    let messages = get_messages(&errors);
    assert_eq!(messages.len(), 1);
    assert_eq!(
        messages,
        vec!["Expected value of type \"Float\", found \"3.333\"."]
    );
}

#[test]
fn boolean_into_float() {
    

    let mut plan = create_plan_from_rule(Box::new(ValuesOfCorrectType::new()));
    let errors = test_operation_with_schema(
        "
        {
          complicatedArgs {
            floatArgField(floatArg: true)
          }
        }",
        TEST_SCHEMA,
        &mut plan,
    );

    let messages = get_messages(&errors);
    assert_eq!(messages.len(), 1);
    assert_eq!(
        messages,
        vec!["Expected value of type \"Float\", found true."]
    );
}

#[test]
fn unquoted_into_float() {
    

    let mut plan = create_plan_from_rule(Box::new(ValuesOfCorrectType::new()));
    let errors = test_operation_with_schema(
        "
        {
          complicatedArgs {
            floatArgField(floatArg: FOO)
          }
        }",
        TEST_SCHEMA,
        &mut plan,
    );

    let messages = get_messages(&errors);
    assert_eq!(messages.len(), 1);
    assert_eq!(
        messages,
        vec!["Expected value of type \"Float\", found FOO."]
    );
}

#[test]
fn int_into_boolean() {
    

    let mut plan = create_plan_from_rule(Box::new(ValuesOfCorrectType::new()));
    let errors = test_operation_with_schema(
        "
        {
          complicatedArgs {
            booleanArgField(booleanArg: 2)
          }
        }",
        TEST_SCHEMA,
        &mut plan,
    );

    let messages = get_messages(&errors);
    assert_eq!(messages.len(), 1);
    assert_eq!(
        messages,
        vec!["Expected value of type \"Boolean\", found 2."]
    );
}

#[test]
fn float_into_boolean() {
    

    let mut plan = create_plan_from_rule(Box::new(ValuesOfCorrectType::new()));
    let errors = test_operation_with_schema(
        "
        {
          complicatedArgs {
            booleanArgField(booleanArg: 2.0)
          }
        }",
        TEST_SCHEMA,
        &mut plan,
    );

    let messages = get_messages(&errors);
    assert_eq!(messages.len(), 1);
    assert_eq!(
        messages,
        vec!["Expected value of type \"Boolean\", found 2."]
    );
}

#[test]
fn string_into_boolean() {
    

    let mut plan = create_plan_from_rule(Box::new(ValuesOfCorrectType::new()));
    let errors = test_operation_with_schema(
        "
        {
          complicatedArgs {
            booleanArgField(booleanArg: \"true\")
          }
        }",
        TEST_SCHEMA,
        &mut plan,
    );

    let messages = get_messages(&errors);
    assert_eq!(messages.len(), 1);
    assert_eq!(
        messages,
        vec!["Expected value of type \"Boolean\", found \"true\"."]
    );
}

#[test]
fn unquoted_into_boolean() {
    

    let mut plan = create_plan_from_rule(Box::new(ValuesOfCorrectType::new()));
    let errors = test_operation_with_schema(
        "
        {
          complicatedArgs {
            booleanArgField(booleanArg: TRUE)
          }
        }",
        TEST_SCHEMA,
        &mut plan,
    );

    let messages = get_messages(&errors);
    assert_eq!(messages.len(), 1);
    assert_eq!(
        messages,
        vec!["Expected value of type \"Boolean\", found TRUE."]
    );
}

#[test]
fn float_into_id() {
    

    let mut plan = create_plan_from_rule(Box::new(ValuesOfCorrectType::new()));
    let errors = test_operation_with_schema(
        "
        {
          complicatedArgs {
            idArgField(idArg: 1.0)
          }
        }",
        TEST_SCHEMA,
        &mut plan,
    );

    let messages = get_messages(&errors);
    assert_eq!(messages.len(), 1);
    assert_eq!(messages, vec!["Expected value of type \"ID\", found 1."]);
}

#[test]
fn bool_into_id() {
    

    let mut plan = create_plan_from_rule(Box::new(ValuesOfCorrectType::new()));
    let errors = test_operation_with_schema(
        "
        {
          complicatedArgs {
            idArgField(idArg: true)
          }
        }",
        TEST_SCHEMA,
        &mut plan,
    );

    let messages = get_messages(&errors);
    assert_eq!(messages.len(), 1);
    assert_eq!(messages, vec!["Expected value of type \"ID\", found true."]);
}

#[test]
fn unquoted_into_id() {
    

    let mut plan = create_plan_from_rule(Box::new(ValuesOfCorrectType::new()));
    let errors = test_operation_with_schema(
        "
        {
          complicatedArgs {
            idArgField(idArg: SOMETHING)
          }
        }",
        TEST_SCHEMA,
        &mut plan,
    );

    let messages = get_messages(&errors);
    assert_eq!(messages.len(), 1);
    assert_eq!(
        messages,
        vec!["Expected value of type \"ID\", found SOMETHING."]
    );
}

#[test]
fn int_into_enum() {
    

    let mut plan = create_plan_from_rule(Box::new(ValuesOfCorrectType::new()));
    let errors = test_operation_with_schema(
        "
        {
          dog {
            doesKnowCommand(dogCommand: 2)
          }
        }",
        TEST_SCHEMA,
        &mut plan,
    );

    let messages = get_messages(&errors);
    assert_eq!(messages.len(), 1);
    assert_eq!(
        messages,
        vec!["Enum \"DogCommand\" cannot represent non-enum value: 2"]
    );
}

#[test]
fn float_into_enum() {
    

    let mut plan = create_plan_from_rule(Box::new(ValuesOfCorrectType::new()));
    let errors = test_operation_with_schema(
        "
        {
          dog {
            doesKnowCommand(dogCommand: 1.0)
          }
        }",
        TEST_SCHEMA,
        &mut plan,
    );

    let messages = get_messages(&errors);
    assert_eq!(messages.len(), 1);
    assert_eq!(
        messages,
        vec!["Enum \"DogCommand\" cannot represent non-enum value: 1"]
    );
}

#[test]
fn string_into_enum() {
    

    let mut plan = create_plan_from_rule(Box::new(ValuesOfCorrectType::new()));
    let errors = test_operation_with_schema(
        "
        {
          dog {
            doesKnowCommand(dogCommand: \"SIT\")
          }
        }",
        TEST_SCHEMA,
        &mut plan,
    );

    let messages = get_messages(&errors);
    assert_eq!(messages.len(), 1);
    assert_eq!(
        messages,
        vec!["Enum \"DogCommand\" cannot represent non-enum value: \"SIT\""]
    );
}

#[test]
fn boolean_into_enum() {
    

    let mut plan = create_plan_from_rule(Box::new(ValuesOfCorrectType::new()));
    let errors = test_operation_with_schema(
        "
        {
          dog {
            doesKnowCommand(dogCommand: true)
          }
        }",
        TEST_SCHEMA,
        &mut plan,
    );

    let messages = get_messages(&errors);
    assert_eq!(messages.len(), 1);
    assert_eq!(
        messages,
        vec!["Enum \"DogCommand\" cannot represent non-enum value: true"]
    );
}

#[test]
fn unknown_enum_value_into_enum() {
    

    let mut plan = create_plan_from_rule(Box::new(ValuesOfCorrectType::new()));
    let errors = test_operation_with_schema(
        "
        {
          dog {
            doesKnowCommand(dogCommand: JUGGLE)
          }
        }",
        TEST_SCHEMA,
        &mut plan,
    );

    let messages = get_messages(&errors);
    assert_eq!(messages.len(), 1);
    assert_eq!(
        messages,
        vec!["Value \"JUGGLE\" does not exist in \"DogCommand\" enum."]
    );
}

#[test]
fn different_case_enum_value_into_enum() {
    

    let mut plan = create_plan_from_rule(Box::new(ValuesOfCorrectType::new()));
    let errors = test_operation_with_schema(
        "
        {
          dog {
            doesKnowCommand(dogCommand: sit)
          }
        }",
        TEST_SCHEMA,
        &mut plan,
    );

    let messages = get_messages(&errors);
    assert_eq!(messages.len(), 1);
    assert_eq!(
        messages,
        vec!["Value \"sit\" does not exist in \"DogCommand\" enum."]
    );
}

#[test]
fn valid_list_value() {
    

    let mut plan = create_plan_from_rule(Box::new(ValuesOfCorrectType::new()));
    let errors = test_operation_with_schema(
        "
        {
          complicatedArgs {
            stringListArgField(stringListArg: [\"one\", null, \"two\"])
          }
        }",
        TEST_SCHEMA,
        &mut plan,
    );

    let messages = get_messages(&errors);
    assert_eq!(messages.len(), 0);
}

#[test]
fn valid_empty_list_value() {
    

    let mut plan = create_plan_from_rule(Box::new(ValuesOfCorrectType::new()));
    let errors = test_operation_with_schema(
        "
        {
          complicatedArgs {
            stringListArgField(stringListArg: [])
          }
        }",
        TEST_SCHEMA,
        &mut plan,
    );

    let messages = get_messages(&errors);
    assert_eq!(messages.len(), 0);
}

#[test]
fn valid_null_list_value() {
    

    let mut plan = create_plan_from_rule(Box::new(ValuesOfCorrectType::new()));
    let errors = test_operation_with_schema(
        "
        {
          complicatedArgs {
            stringListArgField(stringListArg: null)
          }
        }",
        TEST_SCHEMA,
        &mut plan,
    );

    let messages = get_messages(&errors);
    assert_eq!(messages.len(), 0);
}

#[test]
fn valid_single_value_into_list_value() {
    

    let mut plan = create_plan_from_rule(Box::new(ValuesOfCorrectType::new()));
    let errors = test_operation_with_schema(
        "
        {
          complicatedArgs {
            stringListArgField(stringListArg: \"one\")
          }
        }",
        TEST_SCHEMA,
        &mut plan,
    );

    let messages = get_messages(&errors);
    assert_eq!(messages.len(), 0);
}

#[test]
fn incorrect_item_type() {
    

    let mut plan = create_plan_from_rule(Box::new(ValuesOfCorrectType::new()));
    let errors = test_operation_with_schema(
        "
        {
          complicatedArgs {
            stringListArgField(stringListArg: [\"one\", 2])
          }
        }",
        TEST_SCHEMA,
        &mut plan,
    );

    let messages = get_messages(&errors);
    assert_eq!(messages.len(), 1);
    assert_eq!(
        messages,
        vec!["Expected value of type \"String\", found 2."]
    );
}

#[test]
fn single_value_of_incorrect_type() {
    

    let mut plan = create_plan_from_rule(Box::new(ValuesOfCorrectType::new()));
    let errors = test_operation_with_schema(
        "
        {
          complicatedArgs {
            stringListArgField(stringListArg: 1)
          }
        }",
        TEST_SCHEMA,
        &mut plan,
    );

    let messages = get_messages(&errors);
    assert_eq!(messages.len(), 1);
    assert_eq!(
        messages,
        vec!["Expected value of type \"String\", found 1."]
    );
}

#[test]
fn values_of_correct_type_arg_on_optional_arg() {
    

    let mut plan = create_plan_from_rule(Box::new(ValuesOfCorrectType::new()));
    let errors = test_operation_with_schema(
        "
        {
          dog {
            isHouseTrained(atOtherHomes: true)
          }
        }",
        TEST_SCHEMA,
        &mut plan,
    );

    let messages = get_messages(&errors);
    assert_eq!(messages.len(), 0);
}

#[test]
fn values_of_correct_type_no_arg_on_optional_arg() {
    

    let mut plan = create_plan_from_rule(Box::new(ValuesOfCorrectType::new()));
    let errors = test_operation_with_schema(
        "
        {
          dog {
            isHouseTrained
          }
        }",
        TEST_SCHEMA,
        &mut plan,
    );

    let messages = get_messages(&errors);
    assert_eq!(messages.len(), 0);
}

#[test]
fn multiple_valid_args() {
    

    let mut plan = create_plan_from_rule(Box::new(ValuesOfCorrectType::new()));
    let errors = test_operation_with_schema(
        "
        {
          complicatedArgs {
            multipleReqs(req1: 1, req2: 2)
          }
        }",
        TEST_SCHEMA,
        &mut plan,
    );

    let messages = get_messages(&errors);
    assert_eq!(messages.len(), 0);
}

#[test]
fn multiple_valid_args_reverse_oreder() {
    

    let mut plan = create_plan_from_rule(Box::new(ValuesOfCorrectType::new()));
    let errors = test_operation_with_schema(
        "
        {
          complicatedArgs {
            multipleReqs(req2: 2, req1: 1)
          }
        }",
        TEST_SCHEMA,
        &mut plan,
    );

    let messages = get_messages(&errors);
    assert_eq!(messages.len(), 0);
}

#[test]
fn no_args_multiple_optional() {
    

    let mut plan = create_plan_from_rule(Box::new(ValuesOfCorrectType::new()));
    let errors = test_operation_with_schema(
        "
        {
          complicatedArgs {
            multipleOpts
          }
        }",
        TEST_SCHEMA,
        &mut plan,
    );

    let messages = get_messages(&errors);
    assert_eq!(messages.len(), 0);
}

#[test]
fn one_arg_multiple_optinals() {
    

    let mut plan = create_plan_from_rule(Box::new(ValuesOfCorrectType::new()));
    let errors = test_operation_with_schema(
        "
        {
          complicatedArgs {
            multipleOpts(opt1: 1)
          }
        }",
        TEST_SCHEMA,
        &mut plan,
    );

    let messages = get_messages(&errors);
    assert_eq!(messages.len(), 0);
}

#[test]
fn second_arg_multiple_optinals() {
    

    let mut plan = create_plan_from_rule(Box::new(ValuesOfCorrectType::new()));
    let errors = test_operation_with_schema(
        "
        {
          complicatedArgs {
            multipleOpts(opt2: 1)
          }
        }",
        TEST_SCHEMA,
        &mut plan,
    );

    let messages = get_messages(&errors);
    assert_eq!(messages.len(), 0);
}

#[test]
fn values_of_correct_type_multiple_required_args_on_mixed_list() {
    

    let mut plan = create_plan_from_rule(Box::new(ValuesOfCorrectType::new()));
    let errors = test_operation_with_schema(
        "
        {
          complicatedArgs {
            multipleOptAndReq(req1: 3, req2: 4)
          }
        }",
        TEST_SCHEMA,
        &mut plan,
    );

    let messages = get_messages(&errors);
    assert_eq!(messages.len(), 0);
}

#[test]
fn multiple_required_args_and_one_optional_on_mixed_list() {
    

    let mut plan = create_plan_from_rule(Box::new(ValuesOfCorrectType::new()));
    let errors = test_operation_with_schema(
        "
        {
          complicatedArgs {
            multipleOptAndReq(req1: 3, req2: 4, opt1: 5)
          }
        }",
        TEST_SCHEMA,
        &mut plan,
    );

    let messages = get_messages(&errors);
    assert_eq!(messages.len(), 0);
}

#[test]
fn all_required_and_one_optional() {
    

    let mut plan = create_plan_from_rule(Box::new(ValuesOfCorrectType::new()));
    let errors = test_operation_with_schema(
        "
        {
          complicatedArgs {
            multipleOptAndReq(req1: 3, req2: 4, opt1: 5, opt2: 6)
          }
        }",
        TEST_SCHEMA,
        &mut plan,
    );

    let messages = get_messages(&errors);
    assert_eq!(messages.len(), 0);
}

#[test]
fn incorrect_value_type() {
    

    let mut plan = create_plan_from_rule(Box::new(ValuesOfCorrectType::new()));
    let errors = test_operation_with_schema(
        "
        {
          complicatedArgs {
            multipleReqs(req2: \"two\", req1: \"one\")
          }
        }",
        TEST_SCHEMA,
        &mut plan,
    );

    let messages = get_messages(&errors);
    assert_eq!(messages.len(), 2);
    assert_eq!(
        messages,
        vec![
            "Expected value of type \"Int\", found \"two\".",
            "Expected value of type \"Int\", found \"one\"."
        ]
    )
}

#[test]
fn values_of_correct_type_incorrect_value_and_missing_argument() {
    

    let mut plan = create_plan_from_rule(Box::new(ValuesOfCorrectType::new()));
    let errors = test_operation_with_schema(
        "
        {
          complicatedArgs {
            multipleReqs(req1: \"one\")
          }
        }",
        TEST_SCHEMA,
        &mut plan,
    );

    let messages = get_messages(&errors);
    assert_eq!(messages.len(), 1);
    assert_eq!(
        messages,
        vec!["Expected value of type \"Int\", found \"one\"."]
    );
}

#[test]
fn null_value() {
    

    let mut plan = create_plan_from_rule(Box::new(ValuesOfCorrectType::new()));
    let errors = test_operation_with_schema(
        "
        {
          complicatedArgs {
            multipleReqs(req1: null)
          }
        }",
        TEST_SCHEMA,
        &mut plan,
    );

    let messages = get_messages(&errors);
    assert_eq!(messages.len(), 1);
    assert_eq!(
        messages,
        vec!["Expected value of type \"Int!\", found null"]
    );
}

#[test]
fn optional_arg_despite_required_field_in_type() {
    

    let mut plan = create_plan_from_rule(Box::new(ValuesOfCorrectType::new()));
    let errors = test_operation_with_schema(
        "
        {
          complicatedArgs {
            complexArgField
          }
        }",
        TEST_SCHEMA,
        &mut plan,
    );

    let messages = get_messages(&errors);
    assert_eq!(messages.len(), 0);
}

#[test]
fn partial_object_only_required() {
    

    let mut plan = create_plan_from_rule(Box::new(ValuesOfCorrectType::new()));
    let errors = test_operation_with_schema(
        "
        {
          complicatedArgs {
            complexArgField(complexArg: { requiredField: true })
          }
        }",
        TEST_SCHEMA,
        &mut plan,
    );

    let messages = get_messages(&errors);
    assert_eq!(messages.len(), 0);
}

#[test]
fn partial_object_required_field_can_be_falsy() {
    

    let mut plan = create_plan_from_rule(Box::new(ValuesOfCorrectType::new()));
    let errors = test_operation_with_schema(
        "
        {
          complicatedArgs {
            complexArgField(complexArg: { requiredField: false })
          }
        }",
        TEST_SCHEMA,
        &mut plan,
    );

    let messages = get_messages(&errors);
    assert_eq!(messages.len(), 0);
}

#[test]
fn partial_object_including_required() {
    

    let mut plan = create_plan_from_rule(Box::new(ValuesOfCorrectType::new()));
    let errors = test_operation_with_schema(
        "
        {
          complicatedArgs {
            complexArgField(complexArg: { requiredField: true, intField: 4 })
          }
        }",
        TEST_SCHEMA,
        &mut plan,
    );

    let messages = get_messages(&errors);
    assert_eq!(messages.len(), 0);
}

#[test]
fn full_object() {
    

    let mut plan = create_plan_from_rule(Box::new(ValuesOfCorrectType::new()));
    let errors = test_operation_with_schema(
        "
        {
          complicatedArgs {
            complexArgField(complexArg: {
              requiredField: true,
              intField: 4,
              stringField: \"foo\",
              booleanField: false,
              stringListField: [\"one\", \"two\"]
            })
          }
        }",
        TEST_SCHEMA,
        &mut plan,
    );

    let messages = get_messages(&errors);
    assert_eq!(messages.len(), 0);
}

#[test]
fn full_object_with_fields_in_different_order() {
    

    let mut plan = create_plan_from_rule(Box::new(ValuesOfCorrectType::new()));
    let errors = test_operation_with_schema(
        "
        {
          complicatedArgs {
            complexArgField(complexArg: {
              stringListField: [\"one\", \"two\"],
              booleanField: false,
              requiredField: true,
              stringField: \"foo\",
              intField: 4,
            })
          }
        }",
        TEST_SCHEMA,
        &mut plan,
    );

    let messages = get_messages(&errors);
    assert_eq!(messages.len(), 0);
}

#[test]
fn partial_object_missing_required() {
    

    let mut plan = create_plan_from_rule(Box::new(ValuesOfCorrectType::new()));
    let errors = test_operation_with_schema(
        "
        {
          complicatedArgs {
            complexArgField(complexArg: { intField: 4 })
          }
        }",
        TEST_SCHEMA,
        &mut plan,
    );

    let messages = get_messages(&errors);
    assert_eq!(messages.len(), 1);
    assert_eq!(
        messages,
        vec![
            "Field \"ComplexInput.requiredField\" of required type \"Boolean!\" was not provided."
        ]
    )
}

#[test]
fn partial_object_invalid_field_type() {
    

    let mut plan = create_plan_from_rule(Box::new(ValuesOfCorrectType::new()));
    let errors = test_operation_with_schema(
        "
        {
          complicatedArgs {
            complexArgField(complexArg: {
              stringListField: [\"one\", 2],
              requiredField: true,
            })
          }
        }",
        TEST_SCHEMA,
        &mut plan,
    );

    let messages = get_messages(&errors);
    assert_eq!(messages.len(), 1);
    assert_eq!(
        messages,
        vec!["Expected value of type \"String\", found 2."]
    )
}

#[test]
fn partial_object_null_to_non_null_field() {
    

    let mut plan = create_plan_from_rule(Box::new(ValuesOfCorrectType::new()));
    let errors = test_operation_with_schema(
        "
        {
          complicatedArgs {
            complexArgField(complexArg: {
              requiredField: true,
              nonNullField: null,
            })
          }
        }",
        TEST_SCHEMA,
        &mut plan,
    );

    let messages = get_messages(&errors);
    assert_eq!(messages.len(), 1);
    assert_eq!(
        messages,
        vec!["Expected value of type \"Boolean!\", found null"]
    )
}

#[test]
fn partial_object_unknown_field_arg() {
    

    let mut plan = create_plan_from_rule(Box::new(ValuesOfCorrectType::new()));
    let errors = test_operation_with_schema(
        "
        {
          complicatedArgs {
            complexArgField(complexArg: {
              requiredField: true,
              invalidField: \"value\"
            })
          }
        }",
        TEST_SCHEMA,
        &mut plan,
    );

    let messages = get_messages(&errors);
    assert_eq!(messages.len(), 1);
    assert_eq!(
        messages,
        vec!["Field \"invalidField\" is not defined by type \"ComplexInput\"."]
    )
}

#[test]
fn allows_custom_scalar_to_accept_complex_literals() {
    

    let mut plan = create_plan_from_rule(Box::new(ValuesOfCorrectType::new()));
    let errors = test_operation_with_schema(
        "
        {
          test1: anyArg(arg: 123)
          test2: anyArg(arg: \"abc\")
          test3: anyArg(arg: [123, \"abc\"])
          test4: anyArg(arg: {deep: [123, \"abc\"]})
        }",
        "
        scalar Any

        type Query {
          anyArg(arg: Any): String
        }
        ",
        &mut plan,
    );

    let messages = get_messages(&errors);
    assert_eq!(messages.len(), 0);
}

#[test]
fn values_of_correct_type_with_directives_of_valid_types() {
    

    let mut plan = create_plan_from_rule(Box::new(ValuesOfCorrectType::new()));
    let errors = test_operation_with_schema(
        "
        {
          dog @include(if: true) {
            name
          }
          human @skip(if: false) {
            name
          }
        }",
        TEST_SCHEMA,
        &mut plan,
    );

    let messages = get_messages(&errors);
    assert_eq!(messages.len(), 0);
}

#[test]
fn with_directives_of_invalid_types() {
    

    let mut plan = create_plan_from_rule(Box::new(ValuesOfCorrectType::new()));
    let errors = test_operation_with_schema(
        "
        {
          dog @include(if: \"yes\") {
            name @skip(if: ENUM)
          }
        }",
        TEST_SCHEMA,
        &mut plan,
    );

    let messages = get_messages(&errors);
    assert_eq!(messages.len(), 2);
    assert_eq!(
        messages,
        vec![
            "Expected value of type \"Boolean\", found \"yes\".",
            "Expected value of type \"Boolean\", found ENUM."
        ]
    )
}

#[test]
fn variables_with_valid_default_values() {
    

    let mut plan = create_plan_from_rule(Box::new(ValuesOfCorrectType::new()));
    let errors = test_operation_with_schema(
        "
        query WithDefaultValues(
          $a: Int = 1,
          $b: String = \"ok\",
          $c: ComplexInput = { requiredField: true, intField: 3 }
          $d: Int! = 123
        ) {
          dog { name }
        }",
        TEST_SCHEMA,
        &mut plan,
    );

    let messages = get_messages(&errors);
    assert_eq!(messages.len(), 0);
}

#[test]
fn variables_with_valid_default_null_values() {
    

    let mut plan = create_plan_from_rule(Box::new(ValuesOfCorrectType::new()));
    let errors = test_operation_with_schema(
        "
        query WithDefaultValues(
          $a: Int = null,
          $b: String = null,
          $c: ComplexInput = { requiredField: true, intField: null }
        ) {
          dog { name }
        }",
        TEST_SCHEMA,
        &mut plan,
    );

    let messages = get_messages(&errors);
    assert_eq!(messages.len(), 0);
}

#[test]
fn variables_with_invalid_default_null_values() {
    

    let mut plan = create_plan_from_rule(Box::new(ValuesOfCorrectType::new()));
    let errors = test_operation_with_schema(
        "
        query WithDefaultValues(
          $a: Int! = null,
          $b: String! = null,
          $c: ComplexInput = { requiredField: null, intField: null }
        ) {
          dog { name }
        }",
        TEST_SCHEMA,
        &mut plan,
    );

    let messages = get_messages(&errors);
    assert_eq!(messages.len(), 3);
    assert_eq!(
        messages,
        vec![
            "Expected value of type \"Int!\", found null",
            "Expected value of type \"String!\", found null",
            "Expected value of type \"Boolean!\", found null"
        ]
    );
}

#[test]
fn variables_with_invalid_default_values() {
    

    let mut plan = create_plan_from_rule(Box::new(ValuesOfCorrectType::new()));
    let errors = test_operation_with_schema(
        "
        query InvalidDefaultValues(
          $a: Int = \"one\",
          $b: String = 4,
          $c: ComplexInput = \"NotVeryComplex\"
        ) {
          dog { name }
        }",
        TEST_SCHEMA,
        &mut plan,
    );

    let messages = get_messages(&errors);
    assert_eq!(messages.len(), 3);
    assert_eq!(
        messages,
        vec![
            "Expected value of type \"Int\", found \"one\".",
            "Expected value of type \"String\", found 4.",
            "Expected value of type \"ComplexInput\", found \"NotVeryComplex\"."
        ]
    );
}

#[test]
fn variables_with_complex_invalid_default_values() {
    

    let mut plan = create_plan_from_rule(Box::new(ValuesOfCorrectType::new()));
    let errors = test_operation_with_schema(
        "
        query WithDefaultValues(
          $a: ComplexInput = { requiredField: 123, intField: \"abc\" }
        ) {
          dog { name }
        }",
        TEST_SCHEMA,
        &mut plan,
    );

    let messages = get_messages(&errors);
    assert_eq!(messages.len(), 2);
    assert_eq!(
        messages,
        vec![
            "Expected value of type \"Int\", found \"abc\".",
            "Expected value of type \"Boolean\", found 123.",
        ]
    );
}

#[test]
fn complex_variables_missing_required_field() {
    

    let mut plan = create_plan_from_rule(Box::new(ValuesOfCorrectType::new()));
    let errors = test_operation_with_schema(
        "
        query MissingRequiredField($a: ComplexInput = {intField: 3}) {
          dog { name }
        }",
        TEST_SCHEMA,
        &mut plan,
    );

    let messages = get_messages(&errors);
    assert_eq!(messages.len(), 1);
    assert_eq!(
        messages,
        vec![
            "Field \"ComplexInput.requiredField\" of required type \"Boolean!\" was not provided.",
        ]
    );
}

#[test]
fn list_variables_with_invalid_item() {
    

    let mut plan = create_plan_from_rule(Box::new(ValuesOfCorrectType::new()));
    let errors = test_operation_with_schema(
        "
        query InvalidItem($a: [String] = [\"one\", 2]) {
          dog { name }
        }",
        TEST_SCHEMA,
        &mut plan,
    );

    let messages = get_messages(&errors);
    assert_eq!(messages.len(), 1);
    assert_eq!(
        messages,
        vec!["Expected value of type \"String\", found 2."]
    );
}
