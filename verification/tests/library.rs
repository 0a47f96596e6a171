use graphql_tools::static_graphql::common::Type;
use graphql_tools::ast::operation_visitor::{visit_document, OperationVisitor, OperationVisitorContext, VisitState};
use graphql_tools::ast::operation_walk::OperationEvent;
use graphql_tools::parser::is_parsable_text;
use graphql_tools::static_graphql::query::Field;
use graphql_tools::static_graphql::schema::TypeDefinition;
use graphql_tools::validation::test_utils::try_operation_without_schema;
use graphql_tools::ast::ast_visitor::{ASTKind, ASTVisitor};
use graphql_tools::ast::query_visitor::{QueryEvent, QueryVisitor};
use graphql_tools::ast::schema_visitor::{SchemaEvent, SchemaVisitor};
use graphql_tools::ast::ext::SchemaDocumentExtension;
use graphql_tools::ast::utils::do_types_overlap;
use graphql_tools::language::location::get_location;
use graphql_tools::language::source::{Location, Source};
use graphql_tools::parser::{int_to_string, parse_query, parse_schema, quote_string};
use graphql_tools::validation::rules::overlapping_fields_can_be_merged::PairSet;
use graphql_tools::validation::rules::{
    default_rules_validation_plan, FieldsOnCorrectType, OverlappingFieldsCanBeMerged, RuleKind,
    UniqueOperationNames,
};
use graphql_tools::validation::test_utils::{
    create_plan_from_rule, get_messages, test_operation_with_schema, TEST_SCHEMA,
};
use graphql_tools::validation::validate::{validate, ValidationPlan};

#[test]
fn pair_set_records_both_orders() {
    let a = "A".to_string();
    let b = "B".to_string();
    let c = "C".to_string();
    let mut pairs = PairSet::new();
    assert!(!pairs.contains("A", "B", false));
    pairs.insert(&a, &b, false);
    assert!(pairs.contains("A", "B", false));
    assert!(pairs.contains("B", "A", false));
    assert!(pairs.contains("A", "B", true));
    assert!(!pairs.contains("A", "C", false));
    pairs.insert(&a, &c, true);
    assert!(pairs.contains("A", "C", true));
    assert!(pairs.contains("C", "A", true));
    assert!(!pairs.contains("A", "C", false));
}

#[test]
fn pair_set_record_keeps_other_pairs() {
    let a = "A".to_string();
    let b = "B".to_string();
    let c = "C".to_string();
    let d = "D".to_string();
    let mut pairs = PairSet::new();
    pairs.insert(&a, &b, false);
    pairs.insert(&c, &d, true);
    assert!(pairs.contains("A", "B", false));
    assert!(pairs.contains("B", "A", false));
    assert!(!pairs.contains("A", "C", true));
    assert!(!pairs.contains("C", "D", false));
    assert!(pairs.contains("D", "C", true));
}

#[test]
fn pair_set_later_record_replaces_earlier() {
    let a = "A".to_string();
    let b = "B".to_string();
    let mut pairs = PairSet::new();
    pairs.insert(&a, &b, true);
    assert!(!pairs.contains("B", "A", false));
    pairs.insert(&b, &a, false);
    assert!(pairs.contains("A", "B", false));
}

#[test]
fn default_plan_rules_in_order() {
    let plan = default_rules_validation_plan();
    assert_eq!(
        plan.rules,
        vec![
            RuleKind::UniqueOperationNames,
            RuleKind::LoneAnonymousOperation,
            RuleKind::SingleFieldSubscriptions,
            RuleKind::KnownTypeNames,
            RuleKind::FragmentsOnCompositeTypes,
            RuleKind::VariablesAreInputTypes,
            RuleKind::LeafFieldSelections,
            RuleKind::FieldsOnCorrectType,
            RuleKind::UniqueFragmentNames,
            RuleKind::KnownFragmentNames,
            RuleKind::NoUnusedFragments,
            RuleKind::OverlappingFieldsCanBeMerged,
            RuleKind::NoFragmentsCycle,
            RuleKind::PossibleFragmentSpreads,
            RuleKind::NoUnusedVariables,
            RuleKind::NoUndefinedVariables,
            RuleKind::KnownArgumentNames,
            RuleKind::UniqueArgumentNames,
            RuleKind::UniqueVariableNames,
            RuleKind::ProvidedRequiredArguments,
            RuleKind::KnownDirectives,
            RuleKind::VariablesInAllowedPosition,
            RuleKind::ValuesOfCorrectType,
            RuleKind::UniqueDirectivesPerLocation,
        ]
    );
}

#[test]
fn default_plan_accepts_valid_operation() {
    let plan = default_rules_validation_plan();
    let errors = test_operation_with_schema(
        "query dogs($atOtherHomes: Boolean) {
          dog {
            name
            isHouseTrained(atOtherHomes: $atOtherHomes)
            ...dogFields
          }
        }
        fragment dogFields on Dog {
          nickname
          barkVolume
        }",
        TEST_SCHEMA,
        &plan,
    );
    assert_eq!(get_messages(&errors).len(), 0);
}

#[test]
fn default_plan_reports_rules_in_plan_order() {
    let plan = default_rules_validation_plan();
    let errors = test_operation_with_schema(
        "query A { dog { name } }
         query A { dog { unknownField } }",
        TEST_SCHEMA,
        &plan,
    );
    let codes: Vec<&str> = errors.iter().map(|e| e.error_code).collect();
    assert_eq!(codes, vec!["UniqueOperationNames", "FieldsOnCorrectType"]);
    assert_eq!(
        get_messages(&errors),
        vec![
            "There can be only one operation named \"A\".",
            "Cannot query field \"unknownField\" on type \"Dog\".",
        ]
    );
}

#[test]
fn joined_plans_report_errors_of_each_in_turn() {
    let operation = "query A { dog { name } }
         query A { dog { unknownField } }";
    let first = create_plan_from_rule(Box::new(FieldsOnCorrectType::new()));
    let second = create_plan_from_rule(Box::new(UniqueOperationNames::new()));
    let joined = ValidationPlan::from(vec![RuleKind::FieldsOnCorrectType, RuleKind::UniqueOperationNames]);
    let mut expected = get_messages(&test_operation_with_schema(operation, TEST_SCHEMA, &first))
        .into_iter()
        .cloned()
        .collect::<Vec<String>>();
    expected.extend(
        get_messages(&test_operation_with_schema(operation, TEST_SCHEMA, &second))
            .into_iter()
            .cloned(),
    );
    let joined_errors = test_operation_with_schema(operation, TEST_SCHEMA, &joined);
    let joined_messages: Vec<String> = get_messages(&joined_errors).into_iter().cloned().collect();
    assert_eq!(joined_messages, expected);
    assert_eq!(joined_messages.len(), 2);
}

#[test]
fn validate_with_empty_plan_reports_nothing() {
    let schema = parse_schema("type Query { a: String }").unwrap();
    let operation = parse_query("query { b }").unwrap();
    let plan = ValidationPlan::new();
    assert_eq!(validate(&schema, &operation, &plan).len(), 0);
}

#[test]
fn overlapping_conflict_locations_cover_both_fields() {
    let plan = create_plan_from_rule(Box::new(OverlappingFieldsCanBeMerged::new()));
    let errors = test_operation_with_schema(
        "fragment sameAliasesWithDifferentFieldTargets on Dog {
  fido: name
  fido: nickname
}",
        TEST_SCHEMA,
        &plan,
    );
    assert_eq!(errors.len(), 1);
    assert_eq!(errors[0].error_code, "OverlappingFieldsCanBeMerged");
    assert_eq!(errors[0].locations.len(), 2);
    assert_eq!((errors[0].locations[0].line, errors[0].locations[0].column), (2, 3));
    assert_eq!((errors[0].locations[1].line, errors[0].locations[1].column), (3, 3));
}

#[test]
fn overlapping_nested_conflict_message() {
    let plan = create_plan_from_rule(Box::new(OverlappingFieldsCanBeMerged::new()));
    let errors = test_operation_with_schema(
        "{
  dog { x: name }
  dog { x: barkVolume }
}",
        TEST_SCHEMA,
        &plan,
    );
    assert_eq!(
        get_messages(&errors),
        vec!["Fields \"dog\" conflict because subfields \"x\" conflict because \"name\" and \"barkVolume\" are different fields. Use different aliases on the fields to fetch both if this was intentional."]
    );
}

#[test]
fn overlapping_same_object_arguments_merge() {
    let plan = create_plan_from_rule(Box::new(OverlappingFieldsCanBeMerged::new()));
    let errors = test_operation_with_schema(
        "{
  complicatedArgs {
    complexArgField(complexArg: { requiredField: true, intField: 4 })
    complexArgField(complexArg: { requiredField: true, intField: 4 })
  }
}",
        TEST_SCHEMA,
        &plan,
    );
    assert_eq!(errors.len(), 0);
}

#[test]
fn int_text_of_edge_values() {
    assert_eq!(int_to_string(0), "0");
    assert_eq!(int_to_string(7), "7");
    assert_eq!(int_to_string(-123), "-123");
    assert_eq!(int_to_string(1000), "1000");
    assert_eq!(int_to_string(i64::MAX), "9223372036854775807");
    assert_eq!(int_to_string(i64::MIN), "-9223372036854775808");
}

#[test]
fn quoted_text_escapes_quotes() {
    assert_eq!(quote_string("a\"b"), "\"a\\\"b\"");
    assert_eq!(quote_string("plain"), "\"plain\"");
}

#[test]
fn parse_query_reads_operations_and_refuses_bad_text() {
    let doc = parse_query("query Q { a b }").unwrap();
    assert_eq!(doc.definitions.len(), 1);
    assert!(parse_query("query {").is_err());
}

#[test]
fn parse_schema_reads_definitions_and_refuses_bad_text() {
    let doc = parse_schema("type Query { a: String } scalar Date").unwrap();
    assert_eq!(doc.definitions.len(), 2);
    assert!(parse_schema("type {").is_err());
}

#[test]
fn location_counts_lines_and_columns() {
    let source = Source::new("doc.graphql".to_string(), "ab\ncd\n\nx".to_string(), None);
    let at = |p: usize| {
        let l = get_location(&source, p);
        (l.line, l.column)
    };
    assert_eq!(at(0), (1, 1));
    assert_eq!(at(2), (1, 3));
    assert_eq!(at(3), (2, 1));
    assert_eq!(at(5), (2, 3));
    assert_eq!(at(6), (3, 1));
    assert_eq!(at(7), (4, 1));
    assert_eq!(at(8), (4, 2));
}

#[test]
fn source_location_offset() {
    let mut source = Source::new("Foo.graphql".to_string(), "{ a }".to_string(), None);
    assert_eq!(*source.get_location(), Location { line: 1, column: 1 });
    assert_eq!(source.get_name(), "Foo.graphql");
    assert_eq!(source.get_body(), "{ a }");
    source.set_location(40, 1);
    assert_eq!(*source.get_location(), Location { line: 40, column: 1 });
    let other = Source::new("Bar.graphql".to_string(), "".to_string(), Some(Location { line: 3, column: 5 }));
    assert_eq!(*other.get_location(), Location { line: 3, column: 5 });
}

#[test]
fn types_overlap_either_way() {
    let schema = parse_schema(
        "interface Pet { name: String }
         interface Named { name: String }
         type Dog implements Pet & Named { name: String }
         type Cat implements Pet { name: String }
         type Rock { name: String }
         union CatOrRock = Cat | Rock
         union RockOnly = Rock",
    )
    .unwrap();
    let names = ["Pet", "Named", "Dog", "Cat", "Rock", "CatOrRock", "RockOnly"];
    for a in names.iter() {
        for b in names.iter() {
            let ta = schema.type_by_name(a).unwrap();
            let tb = schema.type_by_name(b).unwrap();
            assert_eq!(do_types_overlap(&schema, ta, tb), do_types_overlap(&schema, tb, ta), "{} {}", a, b);
        }
    }
    let t = |n: &str| schema.type_by_name(n).unwrap();
    assert!(do_types_overlap(&schema, t("Pet"), t("Named")));
    assert!(do_types_overlap(&schema, t("Pet"), t("CatOrRock")));
    assert!(!do_types_overlap(&schema, t("Pet"), t("RockOnly")));
    assert!(!do_types_overlap(&schema, t("Dog"), t("Cat")));
    assert!(do_types_overlap(&schema, t("Cat"), t("CatOrRock")));
}

#[test]
fn ast_visitor_walks_either_kind() {
    struct Counts {
        queries: usize,
        objects: usize,
    }
    struct Counter;
    impl QueryVisitor<Counts> for Counter {
        fn on_query_event(&self, _event: QueryEvent, _ctx: &mut Counts) {}
        fn enter_query(&self, _node: &graphql_tools::static_graphql::query::Query, ctx: &mut Counts) {
            ctx.queries += 1;
        }
    }
    impl SchemaVisitor<Counts> for Counter {
        fn on_schema_event(&self, _event: SchemaEvent, _ctx: &mut Counts) {}
        fn enter_object_type(&self, _node: &graphql_tools::static_graphql::schema::ObjectType, ctx: &mut Counts) {
            ctx.objects += 1;
        }
    }
    impl ASTVisitor<Counts> for Counter {}

    let mut counts = Counts { queries: 0, objects: 0 };
    let mut visitor = Counter;
    visitor.visit_ast(ASTKind::Operation(parse_query("query A { a } query B { b }").unwrap()), &mut counts);
    visitor.visit_ast(ASTKind::Schema(parse_schema("type Query { a: String } type B { b: Int }").unwrap()), &mut counts);
    assert_eq!(counts.queries, 2);
    assert_eq!(counts.objects, 2);
}

#[test]
fn empty_document_passes_default_plan() {
    let schema = parse_schema("type Query { a: String } type Query { b: String }").unwrap();
    let doc = graphql_tools::static_graphql::query::Document { definitions: Vec::new() };
    let plan = default_rules_validation_plan();
    assert_eq!(validate(&schema, &doc, &plan).len(), 0);
}

#[test]
fn validate_with_runs_one_rule() {
    let schema = parse_schema("type Query { fieldA: String } type Mutation { fieldB: String }").unwrap();
    let doc = parse_query("{ fieldA } mutation Foo { fieldB }").unwrap();
    let errors = graphql_tools::validation::validate::validate_with(
        &schema,
        &doc,
        &graphql_tools::validation::rules::LoneAnonymousOperation {},
    );
    let messages: Vec<String> = errors.iter().map(|e| e.message.clone()).collect();
    assert_eq!(messages, vec!["This anonymous operation must be the only defined operation."]);
    let clean = parse_query("query A { fieldA } mutation Foo { fieldB }").unwrap();
    assert!(graphql_tools::validation::validate::validate_with(
        &schema,
        &clean,
        &graphql_tools::validation::rules::LoneAnonymousOperation {},
    )
    .is_empty());
}

#[test]
fn operation_visitor_hooks_see_each_field_with_its_parent_type() {

    struct Recorder;
    impl<'a> OperationVisitor<'a, Vec<String>> for Recorder {
        fn on_operation_event(&mut self, event: OperationEvent<'a>, user: &mut Vec<String>) {
            match event {
                OperationEvent::EnterDocument(_) => user.push("start".to_string()),
                OperationEvent::LeaveDocument(_) => user.push("end".to_string()),
                OperationEvent::Enter(_) | OperationEvent::Leave(_) => {}
            }
        }
        fn leave_field(&mut self, _state: &VisitState<'a>, user: &mut Vec<String>, node: &'a Field) {
            user.push(format!("/{}", node.name));
        }
        fn enter_field(&mut self, state: &VisitState<'a>, user: &mut Vec<String>, node: &'a Field) {
            let parent = match state.parent_type {
                Some(TypeDefinition::Object(o)) => o.name.clone(),
                Some(_) => "other".to_string(),
                None => "none".to_string(),
            };
            user.push(format!("{}:{}", node.name, parent));
        }
    }

    let schema = parse_schema("type Query { a: A } type A { b: String }").unwrap();
    let doc = parse_query("query { a { b } } query Other { c }").unwrap();
    let ctx = OperationVisitorContext::new(&doc, &schema);
    let mut seen: Vec<String> = Vec::new();
    visit_document(&mut Recorder, &doc, &ctx, &mut seen);
    assert_eq!(seen, vec!["start", "a:Query", "b:A", "/b", "/a", "c:Query", "/c", "end"]);
}

#[test]
fn text_with_wide_space_is_not_parsable() {
    assert!(is_parsable_text("query { a(x: \"\"\"  y\"\"\") }"));
    assert!(!is_parsable_text("query { a(x: \"\"\"\n\u{3000}x\n  y\"\"\") }"));
    assert!(is_parsable_text("type Query { a: String } # \u{a0}"));
    assert!(is_parsable_text("\u{3000}query { a(x: \"\"\"\n  x\u{3000}\n  y\"\"\") }"));
    assert!(!is_parsable_text("\"\"\" doc \"\"\"\n  \u{a0}type Query { a: String }"));
    let schema = graphql_tools::parser::parse_schema("type Query { a: String } # \u{a0}").unwrap();
    assert_eq!(schema.definitions.len(), 1);
    let doc = parse_query("query { a(x: \"\u{3000}y\") }").unwrap();
    assert_eq!(doc.definitions.len(), 1);
    let plan = ValidationPlan::new();
    assert!(try_operation_without_schema("{ a(x: \"\"\"\n\u{3000}x\n  y\"\"\") }", &plan).is_none());
}

#[test]
fn zero_and_negative_zero_arguments_do_not_conflict() {
    let plan = create_plan_from_rule(Box::new(OverlappingFieldsCanBeMerged::new()));
    let same = test_operation_with_schema(
        "{ complicatedArgs { floatArgField(floatArg: 0.0) floatArgField(floatArg: -0.0) } }",
        TEST_SCHEMA,
        &plan,
    );
    assert_eq!(get_messages(&same).len(), 0);
    let different = test_operation_with_schema(
        "{ complicatedArgs { floatArgField(floatArg: 1.5) floatArgField(floatArg: 2.5) } }",
        TEST_SCHEMA,
        &plan,
    );
    assert_eq!(get_messages(&different).len(), 1);
}

#[test]
fn block_string_with_wide_space_after_its_indent_parses() {
    let doc = parse_query("query { a(x: \"\"\"\n  x\u{3000}\n  y\"\"\") }").unwrap();
    assert_eq!(doc.definitions.len(), 1);
}

fn object_name_of(t: Option<&TypeDefinition>) -> Option<String> {
    match t {
        Some(TypeDefinition::Object(o)) => Some(o.name.clone()),
        Some(_) => Some("other".to_string()),
        None => None,
    }
}

#[test]
fn current_type_is_that_of_the_innermost_with_type() {
    let schema = parse_schema("type Query { a: A } type A { b: String } type B { c: String }").unwrap();
    let doc = parse_query("{ a { b } }").unwrap();
    let ta = Type::NamedType("A".to_string());
    let tb = Type::NamedType("B".to_string());
    let ctx = OperationVisitorContext::new(&doc, &schema);
    assert_eq!(object_name_of(ctx.current_type()), None);
    assert_eq!(object_name_of(ctx.current_parent_type()), None);
    let ctx = ctx.with_type(Some(&ta), |c| {
        assert_eq!(object_name_of(c.current_type()), Some("A".to_string()));
        let c = c.with_parent_type(|c| {
            assert_eq!(object_name_of(c.current_parent_type()), Some("A".to_string()));
            let c = c.with_type(Some(&tb), |c| {
                assert_eq!(object_name_of(c.current_type()), Some("B".to_string()));
                assert_eq!(object_name_of(c.current_parent_type()), Some("A".to_string()));
                assert!(c.current_field().is_none());
                c
            });
            assert_eq!(object_name_of(c.current_type()), Some("A".to_string()));
            c
        });
        assert_eq!(object_name_of(c.current_parent_type()), None);
        c
    });
    assert_eq!(object_name_of(ctx.current_type()), None);
    assert!(ctx.current_input_type_literal().is_none());
}
