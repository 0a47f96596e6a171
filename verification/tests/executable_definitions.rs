#![allow(unused_imports)]
use graphql_tools::validation::rules::ExecutableDefinitions;
use graphql_tools::validation::test_utils::{create_plan_from_rule, get_messages, test_operation_with_schema, test_operation_without_schema, TEST_SCHEMA};


#[test]
fn only_operation() {
	
	let mut plan = create_plan_from_rule(Box::new(ExecutableDefinitions {}));
	let errors = test_operation_with_schema(
		"query Foo {
	      dog {
	        name
	      }
	    }",
		TEST_SCHEMA,
		&mut plan,
	);
	assert_eq!(get_messages(&errors).len(), 0);
}

#[test]
fn with_operation_and_fragment() {
	
	let mut plan = create_plan_from_rule(Box::new(ExecutableDefinitions {}));
	let errors = test_operation_with_schema(
		"query Foo {
	      dog {
	        name
		...Frag
	      }

	      fragment Frag on Dog {
		name
	      }
	    }",
		TEST_SCHEMA,
		&mut plan,
	);
	assert_eq!(get_messages(&errors).len(), 0);
}


#[test]
fn with_type_definition() {
    let mut plan = create_plan_from_rule(Box::new(ExecutableDefinitions {}));
    let errors = test_operation_with_schema(
        "
		query Foo {
		  dog {
	  		name
		}
		type Cow {
			name: String
		}
		extend type Dog {
		      color: String
		}
		}",
        TEST_SCHEMA,
        &mut plan,
    );
    let messages = get_messages(&errors);
    println!("{:?}", messages);
    assert_eq!(messages.len(), 2);
}
