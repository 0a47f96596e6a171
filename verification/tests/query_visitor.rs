use graphql_tools::ast::query_visitor::{QueryEvent, QueryVisitor};
use graphql_tools::parser::parse_query;
use graphql_tools::static_graphql::query::{Document, Field, Query, SelectionSet};

#[test]
fn visit_test_all_nodes() {
    let query_ast = parse_query(
        r#"query someQuery($v: String) {
      hero(v: $v, otherV: 10) {
        name
      }

      test {
        ...SpreadHere

        anotherField {
          nested {
            moreNested
          }
        }
      }

      search(term: "Test") {
        ... on SearchResult {
          result
        }
      }
    }"#,
    )
    .expect("failed to parse query");

    struct TestVisitorCollected {
        collected_queries: Vec<String>,
    }

    struct TestVisitor;

    impl TestVisitor {
        fn collect_visited_info(&self, document: &Document, collector: &mut TestVisitorCollected) {
            self.visit_document(document, collector);
        }
    }

    impl QueryVisitor<TestVisitorCollected> for TestVisitor {
        fn on_query_event(&self, _event: QueryEvent, _ctx: &mut TestVisitorCollected) {}

        fn enter_query(&self, _node: &Query, _ctx: &mut TestVisitorCollected) {
            _ctx.collected_queries
                .push(_node.name.as_ref().unwrap().to_string());
        }
    }

    let mut collector = TestVisitorCollected {
        collected_queries: Vec::new(),
    };

    let visitor = TestVisitor {};

    visitor.collect_visited_info(&query_ast, &mut collector);
    assert_eq!(collector.collected_queries, vec!["someQuery"]);
}

#[test]
fn visit_order_of_fields_and_arguments() {
    let query_ast = parse_query("query Q { a(x: 1, y: 2) { b } ... on T { c } }").expect("failed to parse query");

    struct Trace {
        events: Vec<String>,
    }

    struct Tracer;

    impl QueryVisitor<Trace> for Tracer {
        fn on_query_event(&self, _event: QueryEvent, _ctx: &mut Trace) {}
        fn enter_field(&self, node: &Field, ctx: &mut Trace) {
            ctx.events.push(format!("enter {}", node.name));
        }
        fn leave_field(&self, node: &Field, ctx: &mut Trace) {
            ctx.events.push(format!("leave {}", node.name));
        }
        fn enter_field_argument(
            &self,
            name: &String,
            _value: &graphql_tools::static_graphql::common::Value,
            parent: &Field,
            ctx: &mut Trace,
        ) {
            ctx.events.push(format!("arg {}.{}", parent.name, name));
        }
        fn enter_selection_set(&self, _node: &SelectionSet, ctx: &mut Trace) {
            ctx.events.push("set".to_string());
        }
    }

    let mut trace = Trace { events: Vec::new() };
    Tracer {}.visit_document(&query_ast, &mut trace);
    assert_eq!(
        trace.events,
        vec!["set", "enter a", "arg a.x", "arg a.y", "set", "enter b", "set", "leave b", "leave a", "set", "enter c", "set", "leave c"]
    );
}

fn opening(e: &QueryEvent) -> bool {
    match e {
        QueryEvent::EnterDocument(_)
        | QueryEvent::EnterDefinition(_)
        | QueryEvent::EnterFragmentDefinition(_)
        | QueryEvent::EnterOperationDefinition(_)
        | QueryEvent::EnterQuery(_)
        | QueryEvent::EnterMutation(_)
        | QueryEvent::EnterSubscription(_)
        | QueryEvent::EnterSelectionSet(_)
        | QueryEvent::EnterVariableDefinition(_, _)
        | QueryEvent::EnterSelection(_)
        | QueryEvent::EnterField(_)
        | QueryEvent::EnterFieldArgument(_, _, _)
        | QueryEvent::EnterFragmentSpread(_)
        | QueryEvent::EnterInlineFragment(_) => true,
        _ => false,
    }
}

#[test]
fn visit_enters_and_leaves_in_nested_pairs() {
    let query_ast = parse_query("query Q($v: Int) { a(x: $v) { b ...F } ... on T { c } } fragment F on T { d }")
        .expect("failed to parse query");

    struct Depth {
        current: i64,
        lowest: i64,
        entered: usize,
    }

    struct Counter;

    impl QueryVisitor<Depth> for Counter {
        fn on_query_event(&self, event: QueryEvent, ctx: &mut Depth) {
            if opening(&event) {
                ctx.current += 1;
                ctx.entered += 1;
            } else {
                ctx.current -= 1;
            }
            if ctx.current < ctx.lowest {
                ctx.lowest = ctx.current;
            }
        }
    }

    let mut depth = Depth { current: 0, lowest: 0, entered: 0 };
    Counter {}.visit_document(&query_ast, &mut depth);
    assert_eq!(depth.current, 0);
    assert_eq!(depth.lowest, 0);
    // the document, 2 definitions, the operation and its query, 1 variable,
    // the fragment definition, 7 selection sets (the operation's, the
    // fragment's, the inline fragment's and one for each of the 4 fields),
    // 6 selections, 4 fields, 1 argument, 1 spread, 1 inline fragment
    assert_eq!(depth.entered, 27);
}
