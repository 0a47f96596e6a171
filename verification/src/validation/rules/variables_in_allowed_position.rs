use vstd::prelude::*;

use crate::ast::ext::{
    clone_type, is_subtype_spec, op_name, op_variable_definitions, subtype_by_view, type_text,
    type_text_by_view, type_to_string, OperationDefinitionExtension, SchemaDocumentExtension,
};
use crate::ast::operation_visitor::{
    document_steps, document_visit_steps, OperationVisitorContext, VisitNode, VisitStep,
};
use crate::static_graphql::query::{Definition, Document, Type, Value, VariableDefinition};
use crate::static_graphql::schema;
use crate::text::{concat5, str_eq};
use crate::validation::utils::{error_at, error_spec, ErrorView, ValidationErrorContext};

use super::rule::{RuleKind, ValidationRule};
use super::scopes::{
    collect_spreads, count_reach_rounds, covered, is_covered, key_views, name_view, opened_scope,
    operation_keys, operation_keys_upto, reach_rounds, reached_fragments, reaches, same_name,
    scope_upto, scope_view, spread_views, spreads_upto, Scope, ScopeView,
};
use super::names::texts;
use super::unique_operation_names::operation_name;

verus! {

/// Variables in allowed position
///
/// Variable usages must be compatible with the arguments they are passed to.
///
/// See https://spec.graphql.org/draft/#sec-All-Variable-Usages-are-Allowed
pub struct VariablesInAllowedPosition;

pub open spec fn variables_in_allowed_position_code() -> Seq<char> {
    "VariablesInAllowedPosition"@
}

/// The variables used at the first `n` steps where an input type is
/// expected, each with its scope and the expected type.
pub open spec fn variable_usages_upto(steps: Seq<VisitStep>, n: int) -> Seq<(ScopeView, Seq<char>, Type)>
    decreases n,
{
    if n <= 0 || n > steps.len() {
        Seq::empty()
    } else {
        let prev = variable_usages_upto(steps, n - 1);
        let s = steps[n - 1];
        match (s.node, scope_upto(steps, n - 1), s.state.input_type_literal) {
            (VisitNode::VariableValue(name), Some(sc), Some(t)) => prev.push((sc, name@, *t)),
            _ => prev,
        }
    }
}

/// The variable definitions of the operations named `key` among the first
/// `n` definitions, in order.
pub open spec fn operation_variable_defs(doc: &Document, key: Option<Seq<char>>, n: int) -> Seq<
    VariableDefinition,
>
    decreases n,
{
    if n <= 0 || n > doc.definitions@.len() {
        Seq::empty()
    } else {
        let prev = operation_variable_defs(doc, key, n - 1);
        match &doc.definitions@[n - 1] {
            Definition::Operation(op) => if op_name(op) == key {
                prev + op_variable_definitions(op)
            } else {
                prev
            },
            _ => prev,
        }
    }
}

/// The first definition at or after index `i` named `name`.
pub open spec fn first_def_named(defs: Seq<VariableDefinition>, name: Seq<char>, i: int) -> Option<
    VariableDefinition,
>
    decreases defs.len() - i,
{
    if i < 0 || i >= defs.len() {
        None
    } else if defs[i].name@ == name {
        Some(defs[i])
    } else {
        first_def_named(defs, name, i + 1)
    }
}

/// The type that a variable provides where it is used: a variable with a
/// (non-null) default value provides a non-null value.
pub open spec fn expected_type(v: VariableDefinition) -> Type {
    match (v.default_value, v.var_type) {
        (Some(_), Type::ListType(inner)) => Type::NonNullType(inner),
        (Some(d), Type::NamedType(_)) => if d is Null {
            v.var_type
        } else {
            Type::NonNullType(Box::new(v.var_type))
        },
        (_, t) => t,
    }
}

/// The errors for the first `n` usages, for the operations named `key`: each
/// usage in a covered scope of a variable whose type may not stand for the
/// expected type, located at the variable's definition.
pub open spec fn position_errors(
    schema: &schema::Document,
    usages: Seq<(ScopeView, Seq<char>, Type)>,
    spreads: Seq<(ScopeView, Seq<char>)>,
    start: ScopeView,
    rounds: nat,
    defs: Seq<VariableDefinition>,
    n: int,
) -> Seq<ErrorView>
    decreases n,
{
    if n <= 0 || n > usages.len() {
        Seq::empty()
    } else {
        let prev = position_errors(schema, usages, spreads, start, rounds, defs, n - 1);
        let u = usages[n - 1];
        if covered(spreads, start, rounds, u.0) {
            match first_def_named(defs, u.1, 0) {
                Some(d) => if !is_subtype_spec(schema, expected_type(d), u.2) {
                    prev.push(
                        error_spec(
                            variables_in_allowed_position_code(),
                            "Variable \"$"@ + u.1 + "\" of type \""@ + type_text(expected_type(d))
                                + "\" used in position expecting type \""@ + type_text(u.2) + "\"."@,
                            seq![d.position],
                        ),
                    )
                } else {
                    prev
                },
                None => prev,
            }
        } else {
            prev
        }
    }
}

/// The errors for the operations named `key`.
pub open spec fn position_errors_for<'a>(
    schema: &'a schema::Document,
    doc: &'a Document,
    key: Option<Seq<char>>,
) -> Seq<ErrorView> {
    let steps = document_steps(schema, doc);
    let usages = variable_usages_upto(steps, steps.len() as int);
    position_errors(
        schema,
        usages,
        spreads_upto(steps, steps.len() as int),
        ScopeView::Operation(key),
        reach_rounds(doc),
        operation_variable_defs(doc, key, doc.definitions@.len() as int),
        usages.len() as int,
    )
}

/// The errors for the first `n` operation names.
pub open spec fn position_errors_upto<'a>(
    schema: &'a schema::Document,
    doc: &'a Document,
    keys: Seq<Option<Seq<char>>>,
    n: int,
) -> Seq<ErrorView>
    decreases n,
{
    if n <= 0 || n > keys.len() {
        Seq::empty()
    } else {
        position_errors_upto(schema, doc, keys, n - 1) + position_errors_for(schema, doc, keys[n - 1])
    }
}

/// The errors of the rule on a document.
pub open spec fn variables_in_allowed_position_errors<'a>(
    schema: &'a schema::Document,
    doc: &'a Document,
) -> Seq<ErrorView> {
    let keys = operation_keys_upto(doc, doc.definitions@.len() as int);
    position_errors_upto(schema, doc, keys, keys.len() as int)
}

/// The views of a list of usages.
pub open spec fn usage_views<'a>(v: Seq<(Scope<'a>, &'a String, &'a Type)>) -> Seq<(ScopeView, Seq<char>, Type)> {
    v.map_values(|p: (Scope<'a>, &'a String, &'a Type)| (p.0@, p.1@, *p.2))
}

/// The values of a list of references to definitions.
pub open spec fn def_values<'a>(v: Seq<&'a VariableDefinition>) -> Seq<VariableDefinition> {
    v.map_values(|d: &'a VariableDefinition| *d)
}

/// The variables used where an input type is expected, with scopes and types.
fn collect_usages<'a>(steps: &Vec<VisitStep<'a>>) -> (r: Vec<(Scope<'a>, &'a String, &'a Type)>)
    ensures
        usage_views(r@) == variable_usages_upto(steps@, steps@.len() as int),
{
    let mut out: Vec<(Scope<'a>, &'a String, &'a Type)> = Vec::new();
    let mut cur: Option<Scope<'a>> = None;
    let mut i: usize = 0;
    while i < steps.len()
        invariant
            i <= steps@.len(),
            scope_view(cur) == scope_upto(steps@, i as int),
            usage_views(out@) == variable_usages_upto(steps@, i as int),
        decreases steps@.len() - i,
    {
        let s = &steps[i];
        if let (VisitNode::VariableValue(name), Some(sc), Some(t)) = (s.node, cur, s.state.input_type_literal) {
            out.push((sc, name, t));
            assert(usage_views(out@) =~= variable_usages_upto(steps@, i as int).push((sc@, name@, *t)));
        }
        if let Some(opened) = opened_scope(s) {
            cur = Some(opened);
        }
        i = i + 1;
    }
    out
}

/// The variable definitions of the operations of `doc` named `key`.
fn collect_variable_defs<'a>(doc: &'a Document, key: Option<&String>) -> (r: Vec<&'a VariableDefinition>)
    ensures
        def_values(r@) == operation_variable_defs(doc, name_view(key), doc.definitions@.len() as int),
{
    let mut out: Vec<&'a VariableDefinition> = Vec::new();
    let mut i: usize = 0;
    while i < doc.definitions.len()
        invariant
            i <= doc.definitions@.len(),
            def_values(out@) == operation_variable_defs(doc, name_view(key), i as int),
        decreases doc.definitions@.len() - i,
    {
        if let Definition::Operation(op) = &doc.definitions[i] {
            if same_name(operation_name(op), key) {
                let vars = op.variable_definitions();
                let ghost before = def_values(out@);
                let mut k: usize = 0;
                while k < vars.len()
                    invariant
                        k <= vars@.len(),
                        vars@ == op_variable_definitions(op),
                        def_values(out@) == before + vars@.subrange(0, k as int),
                    decreases vars@.len() - k,
                {
                    let ghost prev = out@;
                    out.push(&vars[k]);
                    assert(def_values(out@) =~= def_values(prev).push(vars@[k as int]));
                    assert(vars@.subrange(0, k + 1) =~= vars@.subrange(0, k as int).push(vars@[k as int]));
                    k = k + 1;
                }
                assert(vars@.subrange(0, vars@.len() as int) =~= vars@);
            }
        }
        i = i + 1;
    }
    out
}

/// The first of `defs` named `name`.
fn find_def<'a>(defs: &Vec<&'a VariableDefinition>, name: &str) -> (r: Option<&'a VariableDefinition>)
    ensures
        match r {
            Some(d) => first_def_named(def_values(defs@), name@, 0) == Some(*d),
            None => first_def_named(def_values(defs@), name@, 0) is None,
        },
{
    let ghost dv = def_values(defs@);
    let mut i: usize = 0;
    while i < defs.len()
        invariant
            i <= defs@.len(),
            dv == def_values(defs@),
            first_def_named(dv, name@, 0) == first_def_named(dv, name@, i as int),
        decreases defs@.len() - i,
    {
        assert(dv[i as int] == *defs@[i as int]);
        if str_eq(defs[i].name.as_str(), name) {
            return Some(defs[i]);
        }
        i = i + 1;
    }
    None
}

/// The type that a variable provides where it is used.
fn expected_type_of(v: &VariableDefinition) -> (r: Type)
    ensures
        r@ == expected_type(*v)@,
{
    match (&v.default_value, &v.var_type) {
        (Some(_), Type::ListType(inner)) => Type::NonNullType(Box::new(clone_type(inner))),
        (Some(d), Type::NamedType(_)) => {
            if let Value::Null = d {
                clone_type(&v.var_type)
            } else {
                Type::NonNullType(Box::new(clone_type(&v.var_type)))
            }
        },
        (_, t) => clone_type(t),
    }
}

impl VariablesInAllowedPosition {
    pub fn new() -> (r: Self) {
        VariablesInAllowedPosition
    }

    /// Reports the usages, in the operations named `key` and the fragments
    /// they reach, of variables whose type may not stand where they are used.
    fn collect_incorrect_usages<'a>(
        &self,
        ctx: &OperationVisitorContext<'a>,
        usages: &Vec<(Scope<'a>, &'a String, &'a Type)>,
        spreads: &Vec<(Scope<'a>, &'a String)>,
        rounds: usize,
        key: Option<&'a String>,
        errors: &mut ValidationErrorContext,
    )
        requires
            rounds == reach_rounds(ctx.operation),
            usage_views(usages@) == variable_usages_upto(
                document_steps(ctx.schema, ctx.operation),
                document_steps(ctx.schema, ctx.operation).len() as int,
            ),
            spread_views(spreads@) == spreads_upto(
                document_steps(ctx.schema, ctx.operation),
                document_steps(ctx.schema, ctx.operation).len() as int,
            ),
        ensures
            final(errors).reported() == old(errors).reported() + position_errors_for(
                ctx.schema,
                ctx.operation,
                name_view(key),
            ),
    {
        let start = Scope::Operation(key);
        let reached = reached_fragments(spreads, &start, rounds);
        let defs = collect_variable_defs(ctx.operation, key);
        let ghost uv = usage_views(usages@);
        let ghost sv = spread_views(spreads@);
        let ghost dv = def_values(defs@);
        let ghost start_errors = errors.reported();
        let mut i: usize = 0;
        while i < usages.len()
            invariant
                i <= usages@.len(),
                uv == usage_views(usages@),
                sv == spread_views(spreads@),
                dv == def_values(defs@),
                forall|name: Seq<char>|
                    #![trigger texts(reached@).contains(name)]
                    texts(reached@).contains(name) <==> reaches(sv, start@, rounds as nat, name),
                errors.reported() == start_errors + position_errors(
                    ctx.schema,
                    uv,
                    sv,
                    start@,
                    rounds as nat,
                    dv,
                    i as int,
                ),
            decreases usages@.len() - i,
        {
            let (sc, name, t) = usages[i];
            assert(uv[i as int] == (sc@, name@, *t));
            if is_covered(&start, &reached, &sc) {
                if let Some(d) = find_def(&defs, name.as_str()) {
                    let expected = expected_type_of(d);
                    proof {
                        subtype_by_view(ctx.schema, expected, expected_type(*d), *t);
                        type_text_by_view(expected, expected_type(*d));
                    }
                    if !ctx.schema.is_subtype(&expected, t) {
                        let expected_text = type_to_string(&expected);
                        let t_text = type_to_string(t);
                        let mut message = concat5(
                            "Variable \"$",
                            name.as_str(),
                            "\" of type \"",
                            expected_text.as_str(),
                            "\" used in position expecting type \"",
                        );
                        message.append(t_text.as_str());
                        message.append("\".");
                        errors.report_error(
                            error_at("VariablesInAllowedPosition", message, d.position),
                        );
                    }
                }
            }
            i = i + 1;
        }
    }
}

impl ValidationRule for VariablesInAllowedPosition {
    open spec fn spec_kind(&self) -> RuleKind {
        RuleKind::VariablesInAllowedPosition
    }

    open spec fn spec_errors<'a>(&self, schema: &'a schema::Document, doc: &'a Document) -> Seq<
        ErrorView,
    > {
        variables_in_allowed_position_errors(schema, doc)
    }

    fn kind(&self) -> (k: RuleKind) {
        RuleKind::VariablesInAllowedPosition
    }

    fn error_code(&self) -> (r: &'static str)
        ensures
            r@ == variables_in_allowed_position_code(),
    {
        "VariablesInAllowedPosition"
    }

    fn validate<'a>(&self, ctx: &OperationVisitorContext<'a>, error_collector: &mut ValidationErrorContext) {
        let steps = document_visit_steps(ctx.schema, ctx.operation);
        let usages = collect_usages(&steps);
        let spreads = collect_spreads(&steps);
        let rounds = count_reach_rounds(ctx.operation);
        let keys = operation_keys(ctx.operation);
        let ghost kv = key_views(keys@);
        let ghost start = error_collector.reported();
        let mut i: usize = 0;
        while i < keys.len()
            invariant
                i <= keys@.len(),
                kv == key_views(keys@),
                kv == operation_keys_upto(ctx.operation, ctx.operation.definitions@.len() as int),
                rounds == reach_rounds(ctx.operation),
                steps@ == document_steps(ctx.schema, ctx.operation),
                usage_views(usages@) == variable_usages_upto(steps@, steps@.len() as int),
                spread_views(spreads@) == spreads_upto(steps@, steps@.len() as int),
                error_collector.reported() == start + position_errors_upto(
                    ctx.schema,
                    ctx.operation,
                    kv,
                    i as int,
                ),
            decreases keys@.len() - i,
        {
            self.collect_incorrect_usages(ctx, &usages, &spreads, rounds, keys[i], error_collector);
            assert(kv[i as int] == name_view(keys@[i as int]));
            i = i + 1;
        }
    }
}

} // verus!
