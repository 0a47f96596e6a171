use vstd::prelude::*;

use crate::ast::ext::{op_name, op_variable_definitions, variables_in, OperationDefinitionExtension, ValueExtension};
use crate::ast::operation_visitor::{
    document_steps, document_visit_steps, OperationVisitorContext, VisitNode, VisitStep,
};
use crate::static_graphql::query::{Definition, Document, VariableDefinition};
use crate::static_graphql::schema;
use crate::text::{concat3, concat5};
use crate::validation::utils::{error_nowhere, error_spec, ErrorView, ValidationErrorContext};

use super::names::{distinct, distinct_names, texts};
use super::rule::{RuleKind, ValidationRule};
use super::scopes::{
    collect_spreads, count_reach_rounds, covered, is_covered, key_views, name_view, opened_scope,
    operation_keys, operation_keys_upto, reach_rounds, reached_fragments, reaches, scope_upto,
    scope_view, spread_views, spreads_upto, contains_name, Scope, ScopeView,
};
use super::unique_operation_names::operation_name;

verus! {

/// No undefined variables
///
/// A GraphQL operation is only valid if all variables encountered, both
/// directly and via fragment spreads, are defined by that operation.
///
/// See https://spec.graphql.org/draft/#sec-All-Variable-Uses-Defined
pub struct NoUndefinedVariables;

pub open spec fn no_undefined_variables_code() -> Seq<char> {
    "NoUndefinedVariables"@
}

/// The variables that the argument values of the first `n` steps refer to,
/// each with the scope it is used in.
pub open spec fn argument_variables_upto(steps: Seq<VisitStep>, n: int) -> Seq<(ScopeView, Seq<char>)>
    decreases n,
{
    if n <= 0 || n > steps.len() {
        Seq::empty()
    } else {
        let prev = argument_variables_upto(steps, n - 1);
        match (steps[n - 1].node, scope_upto(steps, n - 1)) {
            (VisitNode::Argument(a), Some(sc)) => prev + variables_in(a.1).map_values(
                |v: Seq<char>| (sc, v),
            ),
            _ => prev,
        }
    }
}

/// The views of a list of variable uses.
pub open spec fn use_views<'a>(v: Seq<(Scope<'a>, String)>) -> Seq<(ScopeView, Seq<char>)> {
    v.map_values(|p: (Scope<'a>, String)| (p.0@, p.1@))
}

/// The names of a list of variable definitions.
pub open spec fn variable_names(vars: Seq<VariableDefinition>) -> Seq<Seq<char>> {
    vars.map_values(|v: VariableDefinition| v.name@)
}

/// The names of the variables of the last operation among the first `n`
/// definitions whose name is `key`.
pub open spec fn last_operation_variables(doc: &Document, key: Option<Seq<char>>, n: int) -> Seq<Seq<char>>
    decreases n,
{
    if n <= 0 || n > doc.definitions@.len() {
        Seq::empty()
    } else {
        match &doc.definitions@[n - 1] {
            Definition::Operation(op) => if op_name(op) == key {
                variable_names(op_variable_definitions(op))
            } else {
                last_operation_variables(doc, key, n - 1)
            },
            _ => last_operation_variables(doc, key, n - 1),
        }
    }
}

/// The variables used, among the first `n` uses, in a scope that `start`
/// covers within `rounds` spreads and not among `defined`.
pub open spec fn undefined_uses(
    uses: Seq<(ScopeView, Seq<char>)>,
    spreads: Seq<(ScopeView, Seq<char>)>,
    start: ScopeView,
    rounds: nat,
    defined: Seq<Seq<char>>,
    n: int,
) -> Seq<Seq<char>>
    decreases n,
{
    if n <= 0 || n > uses.len() {
        Seq::empty()
    } else {
        let prev = undefined_uses(uses, spreads, start, rounds, defined, n - 1);
        let u = uses[n - 1];
        if covered(spreads, start, rounds, u.0) && !defined.contains(u.1) {
            prev.push(u.1)
        } else {
            prev
        }
    }
}

/// The message for a variable that the operation named `op` does not define.
pub open spec fn undefined_message(var: Seq<char>, op: Option<Seq<char>>) -> Seq<char> {
    match op {
        Some(o) => "Variable \"$"@ + var + "\" is not defined by operation \""@ + o + "\"."@,
        None => "Variable \"$"@ + var + "\" is not defined."@,
    }
}

/// The errors for one operation name: each variable used by the operations
/// so named, or by the fragments they reach, that the last operation so
/// named does not define, once, in the order of first use.
pub open spec fn undefined_errors_for<'a>(schema: &'a schema::Document, doc: &'a Document, key: Option<Seq<char>>) -> Seq<
    ErrorView,
> {
    let steps = document_steps(schema, doc);
    let uses = argument_variables_upto(steps, steps.len() as int);
    let spreads = spreads_upto(steps, steps.len() as int);
    let defined = last_operation_variables(doc, key, doc.definitions@.len() as int);
    let undefined = undefined_uses(uses, spreads, ScopeView::Operation(key), reach_rounds(doc), defined, uses.len() as int);
    distinct(undefined, undefined.len() as int).map_values(
        |v: Seq<char>| error_spec(no_undefined_variables_code(), undefined_message(v, key), Seq::empty()),
    )
}

/// The errors for the first `n` operation names.
pub open spec fn undefined_errors_upto<'a>(schema: &'a schema::Document, doc: &'a Document, keys: Seq<Option<Seq<char>>>, n: int) -> Seq<
    ErrorView,
>
    decreases n,
{
    if n <= 0 || n > keys.len() {
        Seq::empty()
    } else {
        undefined_errors_upto(schema, doc, keys, n - 1) + undefined_errors_for(schema, doc, keys[n - 1])
    }
}

/// The errors of the rule on a document.
pub open spec fn no_undefined_variables_errors<'a>(schema: &'a schema::Document, doc: &'a Document) -> Seq<ErrorView> {
    let keys = operation_keys_upto(doc, doc.definitions@.len() as int);
    undefined_errors_upto(schema, doc, keys, keys.len() as int)
}

/// The variables that the argument values of a traversal refer to, each with
/// the scope it is used in.
pub fn collect_argument_variables<'a>(steps: &Vec<VisitStep<'a>>) -> (r: Vec<(Scope<'a>, String)>)
    ensures
        use_views(r@) == argument_variables_upto(steps@, steps@.len() as int),
{
    let mut out: Vec<(Scope<'a>, String)> = Vec::new();
    let mut cur: Option<Scope<'a>> = None;
    let mut i: usize = 0;
    while i < steps.len()
        invariant
            i <= steps@.len(),
            scope_view(cur) == scope_upto(steps@, i as int),
            use_views(out@) == argument_variables_upto(steps@, i as int),
        decreases steps@.len() - i,
    {
        let s = &steps[i];
        if let (VisitNode::Argument(a), Some(sc)) = (s.node, cur) {
            let vars = a.1.variables_in_use();
            let ghost start = use_views(out@);
            let ghost f = |v: Seq<char>| (sc@, v);
            let mut k: usize = 0;
            while k < vars.len()
                invariant
                    k <= vars@.len(),
                    vars@.len() == variables_in(a.1).len(),
                    forall|j: int| 0 <= j < vars@.len() ==> #[trigger] vars@[j]@ == variables_in(a.1)[j],
                    f == (|v: Seq<char>| (sc@, v)),
                    use_views(out@) == start + variables_in(a.1).subrange(0, k as int).map_values(f),
                decreases vars@.len() - k,
            {
                let ghost prev = out@;
                let item = vars[k].clone();
                out.push((sc, item));
                assert(use_views(out@) =~= use_views(prev).push((sc@, vars@[k as int]@)));
                assert(variables_in(a.1).subrange(0, k + 1) =~= variables_in(a.1).subrange(0, k as int).push(vars@[k as int]@));
                assert(variables_in(a.1).subrange(0, k + 1).map_values(f) =~= variables_in(a.1).subrange(0, k as int).map_values(f).push(f(vars@[k as int]@)));
                assert(use_views(out@) =~= start + variables_in(a.1).subrange(0, k + 1).map_values(f));
                k = k + 1;
            }
            assert(variables_in(a.1).subrange(0, vars@.len() as int) =~= variables_in(a.1));
        }
        if let Some(opened) = opened_scope(s) {
            cur = Some(opened);
        }
        i = i + 1;
    }
    out
}

/// The names of the variables of the last operation of `doc` named `key`.
pub fn last_operation_variable_names<'a>(doc: &'a Document, key: Option<&String>) -> (r: Vec<&'a String>)
    ensures
        texts(r@) == last_operation_variables(doc, name_view(key), doc.definitions@.len() as int),
{
    let mut i: usize = doc.definitions.len();
    while i > 0
        invariant
            i <= doc.definitions@.len(),
            last_operation_variables(doc, name_view(key), doc.definitions@.len() as int)
                == last_operation_variables(doc, name_view(key), i as int),
        decreases i,
    {
        if let Definition::Operation(op) = &doc.definitions[i - 1] {
            if super::scopes::same_name(operation_name(op), key) {
                let vars = op.variable_definitions();
                let mut out: Vec<&'a String> = Vec::new();
                let mut k: usize = 0;
                while k < vars.len()
                    invariant
                        k <= vars@.len(),
                        vars@ == op_variable_definitions(op),
                        texts(out@) == variable_names(vars@.subrange(0, k as int)),
                    decreases vars@.len() - k,
                {
                    let ghost prev = out@;
                    out.push(&vars[k].name);
                    assert(vars@.subrange(0, k + 1) =~= vars@.subrange(0, k as int).push(vars@[k as int]));
                    assert(texts(out@) =~= texts(prev).push(vars@[k as int].name@));
                    assert(variable_names(vars@.subrange(0, k + 1)) =~= variable_names(vars@.subrange(0, k as int)).push(vars@[k as int].name@));
                    k = k + 1;
                }
                assert(vars@.subrange(0, vars@.len() as int) =~= vars@);
                return out;
            }
        }
        i = i - 1;
    }
    let out: Vec<&'a String> = Vec::new();
    assert(texts(out@) =~= Seq::<Seq<char>>::empty());
    out
}

impl NoUndefinedVariables {
    pub fn new() -> (r: Self) {
        NoUndefinedVariables
    }

    /// Reports the variables that the operations named `key` use without defining them.
    fn find_undefined_vars<'a>(
        &self,
        ctx: &OperationVisitorContext<'a>,
        uses: &Vec<(Scope<'a>, String)>,
        spreads: &Vec<(Scope<'a>, &'a String)>,
        rounds: usize,
        key: Option<&'a String>,
        errors: &mut ValidationErrorContext,
    )
        requires
            rounds == reach_rounds(ctx.operation),
            use_views(uses@) == argument_variables_upto(
                document_steps(ctx.schema, ctx.operation),
                document_steps(ctx.schema, ctx.operation).len() as int,
            ),
            spread_views(spreads@) == spreads_upto(
                document_steps(ctx.schema, ctx.operation),
                document_steps(ctx.schema, ctx.operation).len() as int,
            ),
        ensures
            final(errors).reported() == old(errors).reported() + undefined_errors_for(ctx.schema, ctx.operation, name_view(key)),
    {
        let start = Scope::Operation(key);
        let reached = reached_fragments(spreads, &start, rounds);
        let defined = last_operation_variable_names(ctx.operation, key);
        let ghost uv = use_views(uses@);
        let ghost sv = spread_views(spreads@);
        let mut candidates: Vec<&String> = Vec::new();
        let mut i: usize = 0;
        while i < uses.len()
            invariant
                i <= uses@.len(),
                uv == use_views(uses@),
                sv == spread_views(spreads@),
                forall|name: Seq<char>|
                    #![trigger texts(reached@).contains(name)]
                    texts(reached@).contains(name) <==> reaches(sv, start@, rounds as nat, name),
                texts(candidates@) == undefined_uses(uv, sv, start@, rounds as nat, texts(defined@), i as int),
            decreases uses@.len() - i,
        {
            let (sc, var) = (&uses[i].0, &uses[i].1);
            assert(uv[i as int] == (sc@, var@));
            let in_reach = is_covered(&start, &reached, sc);
            assert(in_reach == covered(sv, start@, rounds as nat, sc@));
            if in_reach && !contains_name(&defined, var.as_str()) {
                candidates.push(var);
                assert(texts(candidates@) =~= undefined_uses(uv, sv, start@, rounds as nat, texts(defined@), i as int).push(var@));
            }
            i = i + 1;
        }
        let undefined = distinct_names(&candidates);
        let ghost f = |v: Seq<char>| error_spec(no_undefined_variables_code(), undefined_message(v, name_view(key)), Seq::empty());
        let ghost start_errors = errors.reported();
        let mut k: usize = 0;
        while k < undefined.len()
            invariant
                k <= undefined@.len(),
                f == (|v: Seq<char>| error_spec(no_undefined_variables_code(), undefined_message(v, name_view(key)), Seq::empty())),
                errors.reported() == start_errors + texts(undefined@.subrange(0, k as int)).map_values(f),
            decreases undefined@.len() - k,
        {
            let v = undefined[k];
            let message = match key {
                Some(o) => {
                    let mut m = concat5("Variable \"$", v.as_str(), "\" is not defined by operation \"", o.as_str(), "\".");
                    m
                },
                None => concat3("Variable \"$", v.as_str(), "\" is not defined."),
            };
            errors.report_error(error_nowhere("NoUndefinedVariables", message));
            proof {
                assert(undefined@.subrange(0, k + 1) =~= undefined@.subrange(0, k as int).push(v));
                assert(texts(undefined@.subrange(0, k + 1)).map_values(f) =~= texts(undefined@.subrange(0, k as int)).map_values(f).push(f(v@)));
            }
            k = k + 1;
        }
        assert(undefined@.subrange(0, undefined@.len() as int) =~= undefined@);
    }
}

impl ValidationRule for NoUndefinedVariables {
    open spec fn spec_kind(&self) -> RuleKind {
        RuleKind::NoUndefinedVariables
    }

    open spec fn spec_errors<'a>(&self, schema: &'a schema::Document, doc: &'a Document) -> Seq<ErrorView> {
        no_undefined_variables_errors(schema, doc)
    }

    fn kind(&self) -> (k: RuleKind) {
        RuleKind::NoUndefinedVariables
    }

    fn error_code(&self) -> (r: &'static str)
        ensures
            r@ == no_undefined_variables_code(),
    {
        "NoUndefinedVariables"
    }

    fn validate<'a>(&self, ctx: &OperationVisitorContext<'a>, error_collector: &mut ValidationErrorContext) {
        let steps = document_visit_steps(ctx.schema, ctx.operation);
        let uses = collect_argument_variables(&steps);
        let spreads = collect_spreads(&steps);
        let rounds = count_reach_rounds(ctx.operation);
        let keys = operation_keys(ctx.operation);
        let ghost kv = key_views(keys@);
        let ghost start = error_collector.reported();
        let mut i: usize = 0;
        while i < keys.len()
            invariant
                i <= keys@.len(),
                kv == key_views(keys@),
                kv == operation_keys_upto(ctx.operation, ctx.operation.definitions@.len() as int),
                rounds == reach_rounds(ctx.operation),
                steps@ == document_steps(ctx.schema, ctx.operation),
                use_views(uses@) == argument_variables_upto(steps@, steps@.len() as int),
                spread_views(spreads@) == spreads_upto(steps@, steps@.len() as int),
                error_collector.reported() == start + undefined_errors_upto(ctx.schema, ctx.operation, kv, i as int),
            decreases keys@.len() - i,
        {
            self.find_undefined_vars(ctx, &uses, &spreads, rounds, keys[i], error_collector);
            assert(kv[i as int] == name_view(keys@[i as int]));
            i = i + 1;
        }
    }
}

} // verus!
