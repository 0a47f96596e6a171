use vstd::prelude::*;

use crate::ast::operation_visitor::OperationVisitorContext;
use crate::static_graphql::query::{Definition, Document};
use crate::static_graphql::schema;
use crate::validation::utils::{ErrorView, ValidationErrorContext};

use super::rule::{RuleKind, ValidationRule};

verus! {

/// Executable definitions
///
/// A GraphQL document is only valid for execution if all definitions are
/// either operation or fragment definitions. An operation document holds no
/// other kind of definition, so the rule finds no error in one.
///
/// See https://spec.graphql.org/draft/#sec-Executable-Definitions
pub struct ExecutableDefinitions;

/// Operations and fragments are the executable definitions.
pub fn is_executable_definition(node: &Definition) -> (r: bool)
    ensures
        r,
{
    match node {
        Definition::Operation(_) => true,
        Definition::Fragment(_) => true,
    }
}

impl ExecutableDefinitions {
    pub fn new() -> (r: Self) {
        ExecutableDefinitions
    }
}

impl ValidationRule for ExecutableDefinitions {
    open spec fn spec_kind(&self) -> RuleKind {
        RuleKind::ExecutableDefinitions
    }

    open spec fn spec_errors<'a>(&self, schema: &'a schema::Document, doc: &'a Document) -> Seq<
        ErrorView,
    > {
        Seq::empty()
    }

    fn kind(&self) -> (k: RuleKind) {
        RuleKind::ExecutableDefinitions
    }

    fn error_code(&self) -> (r: &'static str)
        ensures
            r@ == "ExecutableDefinitions"@,
    {
        "ExecutableDefinitions"
    }

    fn validate<'a>(&self, ctx: &OperationVisitorContext<'a>, error_collector: &mut ValidationErrorContext) {
        let doc = ctx.operation;
        let mut i: usize = 0;
        while i < doc.definitions.len()
            invariant
                i <= doc.definitions@.len(),
                error_collector.reported() == old(error_collector).reported(),
            decreases doc.definitions@.len() - i,
        {
            let executable = is_executable_definition(&doc.definitions[i]);
            assert(executable);
            i = i + 1;
        }
        assert(error_collector.reported() =~= old(error_collector).reported() + Seq::<ErrorView>::empty());
    }
}

} // verus!
