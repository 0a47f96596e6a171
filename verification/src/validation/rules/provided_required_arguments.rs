use vstd::prelude::*;

use crate::ast::ext::{field_of, is_required_spec, type_text, type_to_string, FieldByNameExtension, InputValueHelpers};
use crate::ast::operation_visitor::{known_directive, OperationVisitorContext, VisitNode, VisitStep};
use crate::static_graphql::common::Pos;
use crate::static_graphql::query::{Directive, Document, Field, Value};
use crate::static_graphql::schema::{self, InputValue, TypeDefinition};
use crate::text::{concat3, str_eq};
use crate::validation::utils::{error_at, error_spec, ErrorView, ValidationErrorContext};

use super::rule::{traversal_errors, visit_with, RuleKind, StepRule, ValidationRule};

verus! {

/// Provided required arguments
///
/// A field or directive is only valid if all required (non-null without a
/// default value) field arguments have been provided.
///
/// See https://spec.graphql.org/draft/#sec-Required-Arguments
pub struct ProvidedRequiredArguments;

pub open spec fn provided_required_arguments_code() -> Seq<char> {
    "ProvidedRequiredArguments"@
}

/// Whether an argument named `name` is among `used`.
pub open spec fn argument_used(used: Seq<(String, Value)>, name: Seq<char>) -> bool {
    exists|j: int| 0 <= j < used.len() && #[trigger] used[j].0@ == name
}

/// The required argument definitions among the first `n` of `defined` that
/// `used` does not provide, in the order defined.
pub open spec fn missing_required<'a>(
    defined: &'a Vec<InputValue>,
    used: Seq<(String, Value)>,
    n: int,
) -> Seq<&'a InputValue>
    decreases n,
{
    if n <= 0 || n > defined@.len() {
        Seq::empty()
    } else {
        let prev = missing_required(defined, used, n - 1);
        let d = &defined@[n - 1];
        if is_required_spec(d) && !argument_used(used, d.name@) {
            prev.push(d)
        } else {
            prev
        }
    }
}

/// One error for each missing argument, each starting with `head`.
pub open spec fn missing_argument_errors(missing: Seq<&InputValue>, head: Seq<char>, pos: Pos) -> Seq<
    ErrorView,
> {
    missing.map_values(
        |m: &InputValue|
            error_spec(
                provided_required_arguments_code(),
                head + m.name@ + "\" of type \""@ + type_text(m.value_type)
                    + "\" is required, but it was not provided."@,
                seq![pos],
            ),
    )
}

/// The errors at one step: for a field of a known parent type, and for a
/// directive that the schema defines, each required argument not provided.
pub open spec fn provided_required_arguments_step<'a>(
    schema: &'a schema::Document,
    s: VisitStep<'a>,
) -> Seq<ErrorView> {
    match s.node {
        VisitNode::Field(f) => match s.state.parent_type {
            Some(p) => match field_of(p, f.name@) {
                Some(def) => missing_argument_errors(
                    missing_required(&def.arguments, f.arguments@, def.arguments@.len() as int),
                    "Field \""@ + f.name@ + "\" argument \""@,
                    f.position,
                ),
                None => Seq::empty(),
            },
            None => Seq::empty(),
        },
        VisitNode::Directive(d, _) => match known_directive(schema, d.name@) {
            Some(def) => missing_argument_errors(
                missing_required(&def.arguments, d.arguments@, def.arguments@.len() as int),
                "Directive \"@"@ + d.name@ + "\" argument \""@,
                d.position,
            ),
            None => Seq::empty(),
        },
        _ => Seq::empty(),
    }
}

/// The arguments reported missing are exactly the definitions among the
/// first `n` whose type is non-null, that have no default value and that the
/// use does not provide: an argument with a default value is never missing,
/// and each missing one is reported once, in the order defined.
pub proof fn missing_arguments_law<'a>(defined: &'a Vec<InputValue>, used: Seq<(String, Value)>, n: int)
    requires
        0 <= n <= defined@.len(),
    ensures
        forall|j: int|
            0 <= j < missing_required(defined, used, n).len() ==> {
                let m = #[trigger] missing_required(defined, used, n)[j];
                &&& m.value_type is NonNullType
                &&& m.default_value is None
                &&& !argument_used(used, m.name@)
                &&& exists|k: int| 0 <= k < n && defined@[k] == *m
            },
        forall|k: int|
            0 <= k < n && (#[trigger] defined@[k]).value_type is NonNullType && defined@[k].default_value is None
                && !argument_used(used, defined@[k].name@) ==> exists|j: int|
                0 <= j < missing_required(defined, used, n).len() && *missing_required(defined, used, n)[j]
                    == defined@[k],
        missing_required(defined, used, n).len() <= n,
    decreases n,
{
    if n > 0 {
        missing_arguments_law(defined, used, n - 1);
        let prev = missing_required(defined, used, n - 1);
        let d = &defined@[n - 1];
        let cur = missing_required(defined, used, n);
        assert forall|j: int| 0 <= j < cur.len() implies {
            let m = #[trigger] cur[j];
            &&& m.value_type is NonNullType
            &&& m.default_value is None
            &&& !argument_used(used, m.name@)
            &&& exists|k: int| 0 <= k < n && defined@[k] == *m
        } by {
            if j < prev.len() {
                assert(cur[j] == prev[j]);
                let m = prev[j];
                let k0 = choose|k: int| 0 <= k < n - 1 && defined@[k] == *m;
                assert(0 <= k0 < n && defined@[k0] == *cur[j]);
            } else {
                assert(cur[j] == d);
                assert(defined@[n - 1] == *cur[j]);
            }
        }
        assert forall|k: int|
            0 <= k < n && (#[trigger] defined@[k]).value_type is NonNullType && defined@[k].default_value is None
                && !argument_used(used, defined@[k].name@) implies exists|j: int|
            0 <= j < cur.len() && *cur[j] == defined@[k] by {
            if k < n - 1 {
                let j0 = choose|j: int| 0 <= j < prev.len() && *prev[j] == defined@[k];
                assert(cur[j0] == prev[j0]);
            } else {
                assert(cur[prev.len() as int] == d);
            }
        }
    }
}

/// A field of a known parent type gets one error for each argument of its
/// definition that is missing, each at the field and naming the argument.
pub proof fn field_missing_arguments_reported<'a>(
    schema: &'a schema::Document,
    doc: &'a Document,
    s: VisitStep<'a>,
    f: &'a Field,
    p: &'a TypeDefinition,
    def: &'a schema::Field,
)
    requires
        s.node == VisitNode::Field(f),
        s.state.parent_type == Some(p),
        field_of(p, f.name@) == Some(def),
    ensures
        ProvidedRequiredArguments.step_errors(schema, doc, s).len() == missing_required(
            &def.arguments,
            f.arguments@,
            def.arguments@.len() as int,
        ).len(),
        forall|j: int|
            0 <= j < ProvidedRequiredArguments.step_errors(schema, doc, s).len() ==> {
                let m = missing_required(&def.arguments, f.arguments@, def.arguments@.len() as int)[j];
                #[trigger] ProvidedRequiredArguments.step_errors(schema, doc, s)[j] == error_spec(
                    provided_required_arguments_code(),
                    "Field \""@ + f.name@ + "\" argument \""@ + m.name@ + "\" of type \""@ + type_text(m.value_type)
                        + "\" is required, but it was not provided."@,
                    seq![f.position],
                )
            },
{
}

/// A directive that the schema defines gets one error for each argument of
/// its definition that is missing, each at the directive and naming the
/// argument; a directive that the schema does not define gets none.
pub proof fn directive_missing_arguments_reported<'a>(
    schema: &'a schema::Document,
    doc: &'a Document,
    s: VisitStep<'a>,
    d: &'a Directive,
    loc: schema::DirectiveLocation,
)
    requires
        s.node == VisitNode::Directive(d, loc),
    ensures
        match known_directive(schema, d.name@) {
            Some(def) => {
                &&& ProvidedRequiredArguments.step_errors(schema, doc, s).len() == missing_required(
                    &def.arguments,
                    d.arguments@,
                    def.arguments@.len() as int,
                ).len()
                &&& forall|j: int|
                    0 <= j < ProvidedRequiredArguments.step_errors(schema, doc, s).len() ==> {
                        let m = missing_required(&def.arguments, d.arguments@, def.arguments@.len() as int)[j];
                        #[trigger] ProvidedRequiredArguments.step_errors(schema, doc, s)[j] == error_spec(
                            provided_required_arguments_code(),
                            "Directive \"@"@ + d.name@ + "\" argument \""@ + m.name@ + "\" of type \""@
                                + type_text(m.value_type) + "\" is required, but it was not provided."@,
                            seq![d.position],
                        )
                    }
            },
            None => ProvidedRequiredArguments.step_errors(schema, doc, s).len() == 0,
        },
{
}

/// Whether an argument named `name` is among `used`.
fn is_argument_used(used: &Vec<(String, Value)>, name: &str) -> (r: bool)
    ensures
        r == argument_used(used@, name@),
{
    let mut i: usize = 0;
    while i < used.len()
        invariant
            i <= used@.len(),
            forall|j: int| 0 <= j < i ==> used@[j].0@ != name@,
        decreases used@.len() - i,
    {
        if str_eq(used[i].0.as_str(), name) {
            return true;
        }
        i = i + 1;
    }
    false
}

/// The required argument definitions of `arguments_defined` that `arguments_used` does not provide.
pub fn validate_arguments<'a>(
    arguments_used: &Vec<(String, Value)>,
    arguments_defined: &'a Vec<InputValue>,
) -> (r: Vec<&'a InputValue>)
    ensures
        r@ == missing_required(arguments_defined, arguments_used@, arguments_defined@.len() as int),
{
    let mut out: Vec<&'a InputValue> = Vec::new();
    let mut i: usize = 0;
    while i < arguments_defined.len()
        invariant
            i <= arguments_defined@.len(),
            out@ == missing_required(arguments_defined, arguments_used@, i as int),
        decreases arguments_defined@.len() - i,
    {
        let d = &arguments_defined[i];
        if d.is_required() && !is_argument_used(arguments_used, d.name.as_str()) {
            out.push(d);
        }
        i = i + 1;
    }
    out
}

impl ProvidedRequiredArguments {
    pub fn new() -> (r: Self) {
        ProvidedRequiredArguments
    }

    /// Reports each missing argument, with messages that start with `head`.
    fn report_missing(
        &self,
        missing: &Vec<&InputValue>,
        head: &String,
        pos: Pos,
        errors: &mut ValidationErrorContext,
    )
        ensures
            final(errors).reported() == old(errors).reported() + missing_argument_errors(
                missing@,
                head@,
                pos,
            ),
    {
        let ghost start = errors.reported();
        let mut i: usize = 0;
        while i < missing.len()
            invariant
                i <= missing@.len(),
                errors.reported() == start + missing_argument_errors(
                    missing@.subrange(0, i as int),
                    head@,
                    pos,
                ),
            decreases missing@.len() - i,
        {
            let m = missing[i];
            let type_string = type_to_string(&m.value_type);
            let mut message = concat3(head.as_str(), m.name.as_str(), "\" of type \"");
            message.append(type_string.as_str());
            message.append("\" is required, but it was not provided.");
            errors.report_error(error_at("ProvidedRequiredArguments", message, pos));
            proof {
                assert(missing@.subrange(0, i + 1) =~= missing@.subrange(0, i as int).push(m));
                assert(missing_argument_errors(missing@.subrange(0, i + 1), head@, pos)
                    =~= missing_argument_errors(missing@.subrange(0, i as int), head@, pos).push(
                    error_spec(
                        provided_required_arguments_code(),
                        head@ + m.name@ + "\" of type \""@ + type_text(m.value_type)
                            + "\" is required, but it was not provided."@,
                        seq![pos],
                    ),
                ));
            }
            i = i + 1;
        }
        assert(missing@.subrange(0, missing@.len() as int) =~= missing@);
    }
}

impl StepRule for ProvidedRequiredArguments {
    open spec fn step_errors<'a>(
        &self,
        schema: &'a schema::Document,
        doc: &'a Document,
        s: VisitStep<'a>,
    ) -> Seq<ErrorView> {
        provided_required_arguments_step(schema, s)
    }

    fn check_step<'a>(
        &self,
        ctx: &OperationVisitorContext<'a>,
        s: &VisitStep<'a>,
        errors: &mut ValidationErrorContext,
    ) {
        match s.node {
            VisitNode::Field(f) => {
                if let Some(p) = s.state.parent_type {
                    if let Some(def) = p.field_by_name(&f.name) {
                        let missing = validate_arguments(&f.arguments, &def.arguments);
                        let head = concat3("Field \"", f.name.as_str(), "\" argument \"");
                        self.report_missing(&missing, &head, f.position, errors);
                    }
                }
            },
            VisitNode::Directive(d, _) => {
                if let Some(def) = ctx.directive_by_name(d.name.as_str()) {
                    let missing = validate_arguments(&d.arguments, &def.arguments);
                    let head = concat3("Directive \"@", d.name.as_str(), "\" argument \"");
                    self.report_missing(&missing, &head, d.position, errors);
                }
            },
            _ => {},
        }
    }
}

impl ValidationRule for ProvidedRequiredArguments {
    open spec fn spec_kind(&self) -> RuleKind {
        RuleKind::ProvidedRequiredArguments
    }

    open spec fn spec_errors<'a>(&self, schema: &'a schema::Document, doc: &'a Document) -> Seq<
        ErrorView,
    > {
        traversal_errors(self, schema, doc)
    }

    fn kind(&self) -> (k: RuleKind) {
        RuleKind::ProvidedRequiredArguments
    }

    fn error_code(&self) -> (r: &'static str)
        ensures
            r@ == provided_required_arguments_code(),
    {
        "ProvidedRequiredArguments"
    }

    fn validate<'a>(&self, ctx: &OperationVisitorContext<'a>, error_collector: &mut ValidationErrorContext) {
        visit_with(self, ctx, error_collector);
    }
}

} // verus!
