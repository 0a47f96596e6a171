//! Helpers for running validation rules on documents given as text.
use vstd::prelude::*;

use crate::parser::{is_parsable_text, parsable_text, parse_query, parse_schema, parsed_query, parsed_schema};
use crate::validation::rules::ValidationRule;
use crate::validation::utils::{errors_view, ValidationError};
use crate::validation::validate::{validate, validation_errors, ValidationPlan};

verus! {

/// The schema of GraphQL's introspection types and built-in directives.
pub const INTROSPECTION_SCHEMA: &'static str = "
directive @skip(if: Boolean!) on FIELD | FRAGMENT_SPREAD | INLINE_FRAGMENT
directive @include(if: Boolean!) on FIELD | FRAGMENT_SPREAD | INLINE_FRAGMENT

scalar Boolean
scalar Float
scalar Int
scalar ID
scalar String

type Query {
  __schema: __Schema!
  __type(name: String!): __Type
}

type __Schema {
  types: [__Type!]!
  queryType: __Type!
  mutationType: __Type
  subscriptionType: __Type
  directives: [__Directive!]!
}

type __Type {
  kind: __TypeKind!
  name: String
  description: String

  # OBJECT and INTERFACE only
  fields(includeDeprecated: Boolean = false): [__Field!]

  # OBJECT only
  interfaces: [__Type!]

  # INTERFACE and UNION only
  possibleTypes: [__Type!]

  # ENUM only
  enumValues(includeDeprecated: Boolean = false): [__EnumValue!]

  # INPUT_OBJECT only
  inputFields: [__InputValue!]

  # NON_NULL and LIST only
  ofType: __Type
}

type __Field {
  name: String!
  description: String
  args: [__InputValue!]!
  type: __Type!
  isDeprecated: Boolean!
  deprecationReason: String
}

type __InputValue {
  name: String!
  description: String
  type: __Type!
  defaultValue: String
}

type __EnumValue {
  name: String!
  description: String
  isDeprecated: Boolean!
  deprecationReason: String
}

enum __TypeKind {
  SCALAR
  OBJECT
  INTERFACE
  UNION
  ENUM
  INPUT_OBJECT
  LIST
  NON_NULL
}

type __Directive {
  name: String!
  description: String
  locations: [__DirectiveLocation!]!
  args: [__InputValue!]!
}

enum __DirectiveLocation {
  QUERY
  MUTATION
  SUBSCRIPTION
  FIELD
  FRAGMENT_DEFINITION
  FRAGMENT_SPREAD
  INLINE_FRAGMENT
  SCHEMA
  SCALAR
  OBJECT
  FIELD_DEFINITION
  ARGUMENT_DEFINITION
  INTERFACE
  UNION
  ENUM
  ENUM_VALUE
  INPUT_OBJECT
  INPUT_FIELD_DEFINITION
}";

/// A schema with types of many kinds, used to try the rules on.
pub const TEST_SCHEMA: &'static str = "
interface Mammal {
  mother: Mammal
  father: Mammal
}
interface Pet {
  name(surname: Boolean): String
}
interface Canine implements Mammal {
  name(surname: Boolean): String
  mother: Canine
  father: Canine
}
enum DogCommand {
  SIT
  HEEL
  DOWN
}
type Dog implements Pet & Mammal & Canine {
  name(surname: Boolean): String
  nickname: String
  barkVolume: Int
  barks: Boolean
  doesKnowCommand(dogCommand: DogCommand): Boolean
  isHouseTrained(atOtherHomes: Boolean = true): Boolean
  isAtLocation(x: Int, y: Int): Boolean
  mother: Dog
  father: Dog
}
type Cat implements Pet {
  name(surname: Boolean): String
  nickname: String
  meows: Boolean
  meowsVolume: Int
  furColor: FurColor
}
union CatOrDog = Cat | Dog
type Human {
  name(surname: Boolean): String
  pets: [Pet]
  relatives: [Human]
}
enum FurColor {
  BROWN
  BLACK
  TAN
  SPOTTED
  NO_FUR
  UNKNOWN
}
input ComplexInput {
  requiredField: Boolean!
  nonNullField: Boolean! = false
  intField: Int
  stringField: String
  booleanField: Boolean
  stringListField: [String]
}
type ComplicatedArgs {
  # TODO List
  # TODO Coercion
  # TODO NotNulls
  intArgField(intArg: Int): String
  nonNullIntArgField(nonNullIntArg: Int!): String
  stringArgField(stringArg: String): String
  booleanArgField(booleanArg: Boolean): String
  enumArgField(enumArg: FurColor): String
  floatArgField(floatArg: Float): String
  idArgField(idArg: ID): String
  stringListArgField(stringListArg: [String]): String
  stringListNonNullArgField(stringListNonNullArg: [String!]): String
  complexArgField(complexArg: ComplexInput): String
  multipleReqs(req1: Int!, req2: Int!): String
  nonNullFieldWithDefault(arg: Int! = 0): String
  multipleOpts(opt1: Int = 0, opt2: Int = 0): String
  multipleOptAndReq(req1: Int!, req2: Int!, opt1: Int = 0, opt2: Int = 0): String
}
type QueryRoot {
  human(id: ID): Human
  dog: Dog
  cat: Cat
  pet: Pet
  catOrDog: CatOrDog
  complicatedArgs: ComplicatedArgs
}

type SubscriptionRoot {
  fieldB: String
}

type MutationRoot {
  fieldB: String
}

schema {
  subscription: SubscriptionRoot
  mutation: MutationRoot
  query: QueryRoot
}
directive @onField on FIELD
directive @onQuery on QUERY
directive @onMutation on MUTATION
directive @onSubscription on SUBSCRIPTION
directive @onFragmentDefinition on FRAGMENT_DEFINITION
directive @onFragmentSpread on FRAGMENT_SPREAD
directive @onInlineFragment on INLINE_FRAGMENT
directive @testDirective on FIELD | FRAGMENT_DEFINITION 

# doesn't work see https://github.com/graphql-rust/graphql-parser/issues/60
# directive @onVariableDefinition on VARIABLE_DEFINITION

directive @repeatable repeatable on FIELD | FRAGMENT_DEFINITION
";

/// The smallest schema: a query type with one field.
pub const DUMMY_SCHEMA: &'static str = "
type Query {
  dummy: String
}
";

/// A plan with one rule.
pub fn create_plan_from_rule<R: ValidationRule>(rule: Box<R>) -> (r: ValidationPlan)
    ensures
        r.rules@ == seq![rule.spec_kind()],
{
    let mut plan = ValidationPlan::new();
    plan.add_rule(rule);
    plan
}

/// The messages of a list of errors, in order.
pub fn get_messages(validation_errors: &Vec<ValidationError>) -> (r: Vec<&String>)
    ensures
        r@.len() == validation_errors@.len(),
        forall|i: int| 0 <= i < r@.len() ==> #[trigger] r@[i]@ == validation_errors@[i].message@,
{
    let mut out: Vec<&String> = Vec::new();
    let mut i: usize = 0;
    while i < validation_errors.len()
        invariant
            i <= validation_errors@.len(),
            out@.len() == i,
            forall|j: int| 0 <= j < i ==> #[trigger] out@[j]@ == validation_errors@[j].message@,
        decreases validation_errors@.len() - i,
    {
        out.push(&validation_errors[i].message);
        i = i + 1;
    }
    out
}

/// The text of a schema followed by the introspection schema.
pub open spec fn with_introspection(schema: Seq<char>) -> Seq<char> {
    schema + INTROSPECTION_SCHEMA@
}

/// Validates the operation `operation` against the schema `schema` (with the
/// introspection schema appended), both given as text that parses.
pub fn test_operation_with_schema(operation: &str, schema: &str, plan: &ValidationPlan) -> (r: Vec<ValidationError>)
    requires
        parsable_text(with_introspection(schema@)),
        parsable_text(operation@),
        parsed_schema(with_introspection(schema@)) is Ok,
        parsed_query(operation@) is Ok,
    ensures
        errors_view(r@) == validation_errors(
            plan.rules@,
            &parsed_schema(with_introspection(schema@))->Ok_0,
            &parsed_query(operation@)->Ok_0,
        ),
{
    let mut text = String::from_str(schema);
    text.append(INTROSPECTION_SCHEMA);
    match (parse_schema(text.as_str()), parse_query(operation)) {
        (Ok(schema_ast), Ok(operation_ast)) => validate(&schema_ast, &operation_ast, plan),
        _ => {
            proof {
                assert(false);
            }
            Vec::new()
        },
    }
}

/// Validates the operation `operation` against the schema `schema` (with the
/// introspection schema appended); `None` when either text does not parse.
pub fn try_operation_with_schema(operation: &str, schema: &str, plan: &ValidationPlan) -> (r: Option<
    Vec<ValidationError>,
>)
    ensures
        r is Some <==> (parsable_text(with_introspection(schema@)) && parsable_text(operation@) && parsed_schema(
            with_introspection(schema@),
        ) is Ok && parsed_query(operation@) is Ok),
        r matches Some(errors) ==> errors_view(errors@) == validation_errors(
            plan.rules@,
            &parsed_schema(with_introspection(schema@))->Ok_0,
            &parsed_query(operation@)->Ok_0,
        ),
{
    let mut text = String::from_str(schema);
    text.append(INTROSPECTION_SCHEMA);
    if !is_parsable_text(text.as_str()) || !is_parsable_text(operation) {
        return None;
    }
    let schema_ok = parse_schema(text.as_str()).is_ok();
    let operation_ok = parse_query(operation).is_ok();
    if schema_ok && operation_ok {
        Some(test_operation_with_schema(operation, schema, plan))
    } else {
        None
    }
}

/// Validates the operation `operation`, given as text that parses, against
/// a schema whose query type has one field.
pub fn test_operation_without_schema(operation: &str, plan: &ValidationPlan) -> (r: Vec<ValidationError>)
    requires
        parsable_text(DUMMY_SCHEMA@),
        parsable_text(operation@),
        parsed_schema(DUMMY_SCHEMA@) is Ok,
        parsed_query(operation@) is Ok,
    ensures
        errors_view(r@) == validation_errors(
            plan.rules@,
            &parsed_schema(DUMMY_SCHEMA@)->Ok_0,
            &parsed_query(operation@)->Ok_0,
        ),
{
    match (parse_schema(DUMMY_SCHEMA), parse_query(operation)) {
        (Ok(schema_ast), Ok(operation_ast)) => validate(&schema_ast, &operation_ast, plan),
        _ => {
            proof {
                assert(false);
            }
            Vec::new()
        },
    }
}

/// Validates the operation `operation` against a schema whose query type has
/// one field; `None` when either text does not parse.
pub fn try_operation_without_schema(operation: &str, plan: &ValidationPlan) -> (r: Option<Vec<ValidationError>>)
    ensures
        r is Some <==> (parsable_text(DUMMY_SCHEMA@) && parsable_text(operation@) && parsed_schema(DUMMY_SCHEMA@) is Ok
            && parsed_query(operation@) is Ok),
        r matches Some(errors) ==> errors_view(errors@) == validation_errors(
            plan.rules@,
            &parsed_schema(DUMMY_SCHEMA@)->Ok_0,
            &parsed_query(operation@)->Ok_0,
        ),
{
    if !is_parsable_text(DUMMY_SCHEMA) || !is_parsable_text(operation) {
        return None;
    }
    let schema_ok = parse_schema(DUMMY_SCHEMA).is_ok();
    let operation_ok = parse_query(operation).is_ok();
    if schema_ok && operation_ok {
        Some(test_operation_without_schema(operation, plan))
    } else {
        None
    }
}

} // verus!
