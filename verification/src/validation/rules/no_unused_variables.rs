use vstd::prelude::*;

use crate::ast::operation_visitor::{document_steps, document_visit_steps, OperationVisitorContext};
use crate::static_graphql::query::Document;
use crate::static_graphql::schema;
use crate::text::{concat3, concat5};
use crate::validation::utils::{error_nowhere, error_spec, ErrorView, ValidationErrorContext};

use super::names::{distinct, distinct_names, texts};
use super::no_undefined_variables::{
    argument_variables_upto, collect_argument_variables, last_operation_variable_names,
    last_operation_variables, use_views,
};
use super::rule::{RuleKind, ValidationRule};
use super::scopes::{
    collect_spreads, contains_name, count_reach_rounds, covered, is_covered, key_views, name_view,
    operation_keys, operation_keys_upto, reach_rounds, reached_fragments, reaches, spread_views,
    spreads_upto, Scope, ScopeView,
};

verus! {

/// No unused variables
///
/// A GraphQL operation is only valid if all variables defined by that operation
/// are used in that operation or a fragment transitively included by that
/// operation.
///
/// See https://spec.graphql.org/draft/#sec-All-Variables-Used
pub struct NoUnusedVariables;

pub open spec fn no_unused_variables_code() -> Seq<char> {
    "NoUnusedVariables"@
}

/// The variables used, among the first `n` uses, in a scope that `start`
/// covers within `rounds` spreads.
pub open spec fn uses_in_reach(
    uses: Seq<(ScopeView, Seq<char>)>,
    spreads: Seq<(ScopeView, Seq<char>)>,
    start: ScopeView,
    rounds: nat,
    n: int,
) -> Seq<Seq<char>>
    decreases n,
{
    if n <= 0 || n > uses.len() {
        Seq::empty()
    } else {
        let prev = uses_in_reach(uses, spreads, start, rounds, n - 1);
        if covered(spreads, start, rounds, uses[n - 1].0) {
            prev.push(uses[n - 1].1)
        } else {
            prev
        }
    }
}

/// The message for a variable that the operation named `op` never uses.
pub open spec fn unused_message(var: Seq<char>, op: Option<Seq<char>>) -> Seq<char> {
    match op {
        Some(o) => "Variable \"$"@ + var + "\" is never used in operation \""@ + o + "\"."@,
        None => "Variable \"$"@ + var + "\" is never used."@,
    }
}

/// The errors for one operation name: each variable of the last operation so
/// named that neither the operations so named nor the fragments they reach
/// use, once, in the order defined.
pub open spec fn unused_errors_for<'a>(
    schema: &'a schema::Document,
    doc: &'a Document,
    key: Option<Seq<char>>,
) -> Seq<ErrorView> {
    let steps = document_steps(schema, doc);
    let uses = argument_variables_upto(steps, steps.len() as int);
    let spreads = spreads_upto(steps, steps.len() as int);
    let defined = last_operation_variables(doc, key, doc.definitions@.len() as int);
    let used = uses_in_reach(uses, spreads, ScopeView::Operation(key), reach_rounds(doc), uses.len() as int);
    distinct(defined, defined.len() as int).filter(|v: Seq<char>| !used.contains(v)).map_values(
        |v: Seq<char>| error_spec(no_unused_variables_code(), unused_message(v, key), Seq::empty()),
    )
}

/// The errors for the first `n` operation names.
pub open spec fn unused_errors_upto<'a>(
    schema: &'a schema::Document,
    doc: &'a Document,
    keys: Seq<Option<Seq<char>>>,
    n: int,
) -> Seq<ErrorView>
    decreases n,
{
    if n <= 0 || n > keys.len() {
        Seq::empty()
    } else {
        unused_errors_upto(schema, doc, keys, n - 1) + unused_errors_for(schema, doc, keys[n - 1])
    }
}

/// The errors of the rule on a document.
pub open spec fn no_unused_variables_errors<'a>(schema: &'a schema::Document, doc: &'a Document) -> Seq<
    ErrorView,
> {
    let keys = operation_keys_upto(doc, doc.definitions@.len() as int);
    unused_errors_upto(schema, doc, keys, keys.len() as int)
}

impl NoUnusedVariables {
    pub fn new() -> (r: Self) {
        NoUnusedVariables
    }

    /// Reports the variables of the operations named `key` that they never use.
    fn find_used_vars<'a>(
        &self,
        ctx: &OperationVisitorContext<'a>,
        uses: &Vec<(Scope<'a>, String)>,
        spreads: &Vec<(Scope<'a>, &'a String)>,
        rounds: usize,
        key: Option<&'a String>,
        errors: &mut ValidationErrorContext,
    )
        requires
            rounds == reach_rounds(ctx.operation),
            use_views(uses@) == argument_variables_upto(
                document_steps(ctx.schema, ctx.operation),
                document_steps(ctx.schema, ctx.operation).len() as int,
            ),
            spread_views(spreads@) == spreads_upto(
                document_steps(ctx.schema, ctx.operation),
                document_steps(ctx.schema, ctx.operation).len() as int,
            ),
        ensures
            final(errors).reported() == old(errors).reported() + unused_errors_for(
                ctx.schema,
                ctx.operation,
                name_view(key),
            ),
    {
        let start = Scope::Operation(key);
        let reached = reached_fragments(spreads, &start, rounds);
        let defined = last_operation_variable_names(ctx.operation, key);
        let ghost uv = use_views(uses@);
        let ghost sv = spread_views(spreads@);
        let mut used: Vec<&String> = Vec::new();
        let mut i: usize = 0;
        while i < uses.len()
            invariant
                i <= uses@.len(),
                uv == use_views(uses@),
                sv == spread_views(spreads@),
                forall|name: Seq<char>|
                    #![trigger texts(reached@).contains(name)]
                    texts(reached@).contains(name) <==> reaches(sv, start@, rounds as nat, name),
                texts(used@) == uses_in_reach(uv, sv, start@, rounds as nat, i as int),
            decreases uses@.len() - i,
        {
            let (sc, var) = (&uses[i].0, &uses[i].1);
            assert(uv[i as int] == (sc@, var@));
            if is_covered(&start, &reached, sc) {
                used.push(var);
                assert(texts(used@) =~= uses_in_reach(uv, sv, start@, rounds as nat, i as int).push(var@));
            }
            i = i + 1;
        }
        let candidates = distinct_names(&defined);
        let ghost used_texts = texts(used@);
        let ghost pred = |v: Seq<char>| !used_texts.contains(v);
        let ghost f = |v: Seq<char>|
            error_spec(no_unused_variables_code(), unused_message(v, name_view(key)), Seq::empty());
        let ghost start_errors = errors.reported();
        let mut k: usize = 0;
        while k < candidates.len()
            invariant
                k <= candidates@.len(),
                used_texts == texts(used@),
                pred == (|v: Seq<char>| !used_texts.contains(v)),
                f == (|v: Seq<char>|
                    error_spec(no_unused_variables_code(), unused_message(v, name_view(key)), Seq::empty())),
                errors.reported() == start_errors + texts(candidates@.subrange(0, k as int)).filter(
                    pred,
                ).map_values(f),
            decreases candidates@.len() - k,
        {
            let v = candidates[k];
            proof {
                assert(candidates@.subrange(0, k + 1) =~= candidates@.subrange(0, k as int).push(v));
                assert(texts(candidates@.subrange(0, k + 1)) =~= texts(
                    candidates@.subrange(0, k as int),
                ).push(v@));
                texts(candidates@.subrange(0, k as int)).lemma_filter_push(v@, pred);
            }
            if !contains_name(&used, v.as_str()) {
                let message = match key {
                    Some(o) => concat5(
                        "Variable \"$",
                        v.as_str(),
                        "\" is never used in operation \"",
                        o.as_str(),
                        "\".",
                    ),
                    None => concat3("Variable \"$", v.as_str(), "\" is never used."),
                };
                errors.report_error(error_nowhere("NoUnusedVariables", message));
                assert(texts(candidates@.subrange(0, k + 1)).filter(pred).map_values(f) =~= texts(
                    candidates@.subrange(0, k as int),
                ).filter(pred).map_values(f).push(f(v@)));
            }
            k = k + 1;
        }
        assert(candidates@.subrange(0, candidates@.len() as int) =~= candidates@);
    }
}

impl ValidationRule for NoUnusedVariables {
    open spec fn spec_kind(&self) -> RuleKind {
        RuleKind::NoUnusedVariables
    }

    open spec fn spec_errors<'a>(&self, schema: &'a schema::Document, doc: &'a Document) -> Seq<
        ErrorView,
    > {
        no_unused_variables_errors(schema, doc)
    }

    fn kind(&self) -> (k: RuleKind) {
        RuleKind::NoUnusedVariables
    }

    fn error_code(&self) -> (r: &'static str)
        ensures
            r@ == no_unused_variables_code(),
    {
        "NoUnusedVariables"
    }

    fn validate<'a>(&self, ctx: &OperationVisitorContext<'a>, error_collector: &mut ValidationErrorContext) {
        let steps = document_visit_steps(ctx.schema, ctx.operation);
        let uses = collect_argument_variables(&steps);
        let spreads = collect_spreads(&steps);
        let rounds = count_reach_rounds(ctx.operation);
        let keys = operation_keys(ctx.operation);
        let ghost kv = key_views(keys@);
        let ghost start = error_collector.reported();
        let mut i: usize = 0;
        while i < keys.len()
            invariant
                i <= keys@.len(),
                kv == key_views(keys@),
                kv == operation_keys_upto(ctx.operation, ctx.operation.definitions@.len() as int),
                rounds == reach_rounds(ctx.operation),
                steps@ == document_steps(ctx.schema, ctx.operation),
                use_views(uses@) == argument_variables_upto(steps@, steps@.len() as int),
                spread_views(spreads@) == spreads_upto(steps@, steps@.len() as int),
                error_collector.reported() == start + unused_errors_upto(
                    ctx.schema,
                    ctx.operation,
                    kv,
                    i as int,
                ),
            decreases keys@.len() - i,
        {
            self.find_used_vars(ctx, &uses, &spreads, rounds, keys[i], error_collector);
            assert(kv[i as int] == name_view(keys@[i as int]));
            i = i + 1;
        }
    }
}

} // verus!
