use vstd::prelude::*;

use crate::ast::ext::op_name;
use crate::ast::operation_visitor::OperationVisitorContext;
use crate::static_graphql::query::{Definition, Document, OperationDefinition};
use crate::static_graphql::schema;
use crate::validation::utils::{error_at, error_nowhere, error_spec, ErrorView, ValidationErrorContext};

use super::rule::{RuleKind, ValidationRule};

verus! {

/// Lone anonymous operation
///
/// A GraphQL document is only valid if when it contains an anonymous operation
/// (the query short-hand) that it contains only that one operation definition.
///
/// See https://spec.graphql.org/draft/#sec-Lone-Anonymous-Operation
pub struct LoneAnonymousOperation;

pub open spec fn lone_anonymous_operation_code() -> Seq<char> {
    "LoneAnonymousOperation"@
}

pub open spec fn lone_anonymous_operation_message() -> Seq<char> {
    "This anonymous operation must be the only defined operation."@
}

/// How many of the first `n` definitions are operations.
pub open spec fn operation_count(doc: &Document, n: int) -> nat
    decreases n,
{
    if n <= 0 || n > doc.definitions@.len() {
        0
    } else {
        operation_count(doc, n - 1) + match doc.definitions@[n - 1] {
            Definition::Operation(_) => 1nat,
            _ => 0nat,
        }
    }
}

/// The errors for the first `n` definitions, when the document holds
/// `count` operations: each anonymous operation, when there is more than one.
pub open spec fn anonymous_operation_errors(doc: &Document, count: nat, n: int) -> Seq<ErrorView>
    decreases n,
{
    if n <= 0 || n > doc.definitions@.len() {
        Seq::empty()
    } else {
        let prev = anonymous_operation_errors(doc, count, n - 1);
        if count > 1 {
            match &doc.definitions@[n - 1] {
                Definition::Operation(OperationDefinition::SelectionSet(_)) => prev.push(
                    error_spec(lone_anonymous_operation_code(), lone_anonymous_operation_message(), Seq::empty()),
                ),
                Definition::Operation(OperationDefinition::Query(q)) => if q.name is None {
                    prev.push(
                        error_spec(
                            lone_anonymous_operation_code(),
                            lone_anonymous_operation_message(),
                            seq![q.position],
                        ),
                    )
                } else {
                    prev
                },
                Definition::Operation(OperationDefinition::Mutation(m)) => if m.name is None {
                    prev.push(
                        error_spec(
                            lone_anonymous_operation_code(),
                            lone_anonymous_operation_message(),
                            seq![m.position],
                        ),
                    )
                } else {
                    prev
                },
                Definition::Operation(OperationDefinition::Subscription(s)) => if s.name is None {
                    prev.push(
                        error_spec(
                            lone_anonymous_operation_code(),
                            lone_anonymous_operation_message(),
                            seq![s.position],
                        ),
                    )
                } else {
                    prev
                },
                _ => prev,
            }
        } else {
            prev
        }
    }
}

/// The errors of the rule on a document.
pub open spec fn lone_anonymous_operation_errors(doc: &Document) -> Seq<ErrorView> {
    let n = doc.definitions@.len() as int;
    anonymous_operation_errors(doc, operation_count(doc, n), n)
}

/// Whether definition `k` of a document is an operation without a name.
pub open spec fn anonymous_at(doc: &Document, k: int) -> bool {
    doc.definitions@[k] matches Definition::Operation(op) && op_name(&op) is None
}

/// Errors among the first `n` definitions come exactly from anonymous ones
/// when there is more than one operation.
proof fn anonymous_errors_empty(doc: &Document, count: nat, n: int)
    requires
        0 <= n <= doc.definitions@.len(),
    ensures
        anonymous_operation_errors(doc, count, n).len() == 0 <==> (count <= 1 || forall|k: int|
            0 <= k < n ==> !#[trigger] anonymous_at(doc, k)),
    decreases n,
{
    if n > 0 {
        anonymous_errors_empty(doc, count, n - 1);
        if count > 1 && anonymous_at(doc, n - 1) {
            assert(anonymous_operation_errors(doc, count, n).len() > 0);
        }
        if count > 1 && !anonymous_at(doc, n - 1) {
            assert(anonymous_operation_errors(doc, count, n) == anonymous_operation_errors(doc, count, n - 1));
            if forall|k: int| 0 <= k < n - 1 ==> !#[trigger] anonymous_at(doc, k) {
                assert forall|k: int| 0 <= k < n implies !#[trigger] anonymous_at(doc, k) by {
                    if k < n - 1 {
                        assert(!anonymous_at(doc, k));
                    }
                }
            }
        }
    }
}

/// A document passes the rule exactly when it holds at most one operation,
/// or none of its operations is anonymous.
pub proof fn lone_anonymous_operation_law(doc: &Document)
    ensures
        lone_anonymous_operation_errors(doc).len() == 0 <==> (operation_count(doc, doc.definitions@.len() as int)
            <= 1 || forall|k: int| 0 <= k < doc.definitions@.len() ==> !#[trigger] anonymous_at(doc, k)),
{
    let n = doc.definitions@.len() as int;
    anonymous_errors_empty(doc, operation_count(doc, n), n);
}

/// How many definitions of a document are operations.
pub fn count_operations(doc: &Document) -> (r: usize)
    ensures
        r == operation_count(doc, doc.definitions@.len() as int),
{
    let mut c: usize = 0;
    let mut i: usize = 0;
    while i < doc.definitions.len()
        invariant
            i <= doc.definitions@.len(),
            c == operation_count(doc, i as int),
            c <= i,
        decreases doc.definitions@.len() - i,
    {
        if let Definition::Operation(_) = &doc.definitions[i] {
            c = c + 1;
        }
        i = i + 1;
    }
    c
}

impl LoneAnonymousOperation {
    pub fn new() -> (r: Self) {
        LoneAnonymousOperation
    }
}

impl ValidationRule for LoneAnonymousOperation {
    open spec fn spec_kind(&self) -> RuleKind {
        RuleKind::LoneAnonymousOperation
    }

    open spec fn spec_errors<'a>(&self, schema: &'a schema::Document, doc: &'a Document) -> Seq<
        ErrorView,
    > {
        lone_anonymous_operation_errors(doc)
    }

    fn kind(&self) -> (k: RuleKind) {
        RuleKind::LoneAnonymousOperation
    }

    fn error_code(&self) -> (r: &'static str)
        ensures
            r@ == lone_anonymous_operation_code(),
    {
        "LoneAnonymousOperation"
    }

    fn validate<'a>(&self, ctx: &OperationVisitorContext<'a>, error_collector: &mut ValidationErrorContext) {
        let doc = ctx.operation;
        let count = count_operations(doc);
        let ghost start = error_collector.reported();
        let mut i: usize = 0;
        while i < doc.definitions.len()
            invariant
                i <= doc.definitions@.len(),
                error_collector.reported() == start + anonymous_operation_errors(doc, count as nat, i as int),
            decreases doc.definitions@.len() - i,
        {
            if count > 1 {
                match &doc.definitions[i] {
                    Definition::Operation(OperationDefinition::SelectionSet(_)) => {
                        error_collector.report_error(
                            error_nowhere(
                                "LoneAnonymousOperation",
                                String::from_str("This anonymous operation must be the only defined operation."),
                            ),
                        );
                    },
                    Definition::Operation(OperationDefinition::Query(q)) => {
                        if q.name.is_none() {
                            error_collector.report_error(
                                error_at(
                                    "LoneAnonymousOperation",
                                    String::from_str("This anonymous operation must be the only defined operation."),
                                    q.position,
                                ),
                            );
                        }
                    },
                    Definition::Operation(OperationDefinition::Mutation(m)) => {
                        if m.name.is_none() {
                            error_collector.report_error(
                                error_at(
                                    "LoneAnonymousOperation",
                                    String::from_str("This anonymous operation must be the only defined operation."),
                                    m.position,
                                ),
                            );
                        }
                    },
                    Definition::Operation(OperationDefinition::Subscription(s)) => {
                        if s.name.is_none() {
                            error_collector.report_error(
                                error_at(
                                    "LoneAnonymousOperation",
                                    String::from_str("This anonymous operation must be the only defined operation."),
                                    s.position,
                                ),
                            );
                        }
                    },
                    _ => {},
                }
            }
            i = i + 1;
        }
    }
}

} // verus!
