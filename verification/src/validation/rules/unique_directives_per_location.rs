use vstd::prelude::*;

use crate::ast::ext::{op_directives, OperationDefinitionExtension};
use crate::ast::operation_visitor::{known_directive, OperationVisitorContext, VisitNode, VisitStep};
use crate::static_graphql::query::{Directive, Document};
use crate::static_graphql::schema;
use crate::text::{concat3, str_eq};
use crate::validation::utils::{error_at, error_spec, ErrorView, ValidationErrorContext};

use super::rule::{traversal_errors, visit_with, RuleKind, StepRule, ValidationRule};

verus! {

/// Unique directive names per location
///
/// A GraphQL document is only valid if all non-repeatable directives at
/// a given location are uniquely named.
///
/// See https://spec.graphql.org/draft/#sec-Directives-Are-Unique-Per-Location
pub struct UniqueDirectivesPerLocation;

pub open spec fn unique_directives_per_location_code() -> Seq<char> {
    "UniqueDirectivesPerLocation"@
}

/// Whether a directive among the first `i` of `dirs` is named `name`.
pub open spec fn named_before(dirs: Seq<Directive>, name: Seq<char>, i: int) -> bool {
    exists|j: int| 0 <= j < i && #[trigger] dirs[j].name@ == name
}

/// The errors for the first `n` directives of one node: each use of a
/// non-repeatable directive after its first.
pub open spec fn duplicate_directive_errors(
    schema: &schema::Document,
    dirs: Seq<Directive>,
    n: int,
) -> Seq<ErrorView>
    decreases n,
{
    if n <= 0 || n > dirs.len() {
        Seq::empty()
    } else {
        let d = dirs[n - 1];
        duplicate_directive_errors(schema, dirs, n - 1) + match known_directive(schema, d.name@) {
            Some(def) => if !def.repeatable && named_before(dirs, d.name@, n - 1) {
                seq![
                    error_spec(
                        unique_directives_per_location_code(),
                        "Duplicate directive \""@ + d.name@ + "\""@,
                        seq![d.position],
                    ),
                ]
            } else {
                Seq::empty()
            },
            None => Seq::empty(),
        }
    }
}

/// The errors at one step: duplicate directives on an operation, a field, a
/// fragment definition, a fragment spread or an inline fragment.
pub open spec fn unique_directives_per_location_step<'a>(
    schema: &'a schema::Document,
    s: VisitStep<'a>,
) -> Seq<ErrorView> {
    match s.node {
        VisitNode::OperationDefinition(op) => duplicate_directive_errors(
            schema,
            op_directives(op),
            op_directives(op).len() as int,
        ),
        VisitNode::Field(f) => duplicate_directive_errors(
            schema,
            f.directives@,
            f.directives@.len() as int,
        ),
        VisitNode::FragmentDefinition(f) => duplicate_directive_errors(
            schema,
            f.directives@,
            f.directives@.len() as int,
        ),
        VisitNode::FragmentSpread(sp) => duplicate_directive_errors(
            schema,
            sp.directives@,
            sp.directives@.len() as int,
        ),
        VisitNode::InlineFragment(i) => duplicate_directive_errors(
            schema,
            i.directives@,
            i.directives@.len() as int,
        ),
        _ => Seq::empty(),
    }
}

/// Whether the `k`-th of `dirs` is a known non-repeatable directive that an
/// earlier one of `dirs` already names.
pub open spec fn repeated_use(schema: &schema::Document, dirs: Seq<Directive>, k: int) -> bool {
    &&& 0 <= k < dirs.len()
    &&& known_directive(schema, dirs[k].name@) matches Some(def) && !def.repeatable
    &&& exists|j: int| 0 <= j < k && #[trigger] dirs[j].name@ == dirs[k].name@
}

/// The error for the repeated use of the `k`-th of `dirs`.
pub open spec fn duplicate_error(dirs: Seq<Directive>, k: int) -> ErrorView {
    error_spec(
        unique_directives_per_location_code(),
        "Duplicate directive \""@ + dirs[k].name@ + "\""@,
        seq![dirs[k].position],
    )
}

/// Whether `e` is the error for a repeated use of one of `dirs`.
pub open spec fn is_duplicate_error(schema: &schema::Document, dirs: Seq<Directive>, e: ErrorView) -> bool {
    exists|k: int| #[trigger] repeated_use(schema, dirs, k) && e == duplicate_error(dirs, k)
}

proof fn duplicate_errors_law(schema: &schema::Document, dirs: Seq<Directive>, n: int)
    requires
        0 <= n <= dirs.len(),
    ensures
        forall|k: int|
            0 <= k < n && #[trigger] repeated_use(schema, dirs, k) ==> duplicate_directive_errors(schema, dirs, n).contains(
                duplicate_error(dirs, k),
            ),
        forall|j: int|
            0 <= j < duplicate_directive_errors(schema, dirs, n).len() ==> is_duplicate_error(
                schema,
                dirs,
                #[trigger] duplicate_directive_errors(schema, dirs, n)[j],
            ),
    decreases n,
{
    if n > 0 {
        let m = n - 1;
        duplicate_errors_law(schema, dirs, m);
        let k1 = m;
        assert(repeated_use(schema, dirs, k1) <==> (match known_directive(schema, dirs[k1].name@) {
            Some(def) => !def.repeatable && named_before(dirs, dirs[k1].name@, k1),
            None => false,
        }));
        assert forall|k: int| 0 <= k < n && #[trigger] repeated_use(schema, dirs, k) implies duplicate_directive_errors(
            schema,
            dirs,
            n,
        ).contains(duplicate_error(dirs, k)) by {
            if k < m {
                let j0 = choose|j: int|
                    #![trigger duplicate_directive_errors(schema, dirs, m)[j]]
                    0 <= j < duplicate_directive_errors(schema, dirs, m).len() && duplicate_directive_errors(schema, dirs, m)[j] == duplicate_error(dirs, k);
                assert(duplicate_directive_errors(schema, dirs, n)[j0] == duplicate_directive_errors(schema, dirs, m)[j0]);
            } else {
                assert(duplicate_directive_errors(schema, dirs, n)[duplicate_directive_errors(schema, dirs, m).len() as int]
                    == duplicate_error(dirs, k));
            }
        }
        assert forall|j: int| 0 <= j < duplicate_directive_errors(schema, dirs, n).len() implies is_duplicate_error(
            schema,
            dirs,
            #[trigger] duplicate_directive_errors(schema, dirs, n)[j],
        ) by {
            if j < duplicate_directive_errors(schema, dirs, m).len() {
                assert(duplicate_directive_errors(schema, dirs, n)[j] == duplicate_directive_errors(schema, dirs, m)[j]);
            } else {
                assert(duplicate_directive_errors(schema, dirs, n)[j] == duplicate_error(dirs, k1));
                assert(repeated_use(schema, dirs, k1));
            }
        }
    } else {
        assert(duplicate_directive_errors(schema, dirs, n).len() == 0);
    }
}

/// On every node that carries directives (an operation, a field, a fragment
/// definition, a fragment spread or an inline fragment), each use of a known
/// non-repeatable directive after its first use on that node gets an error at
/// that use, and every error given there is such a use.
pub proof fn duplicate_directives_reported<'a>(schema: &'a schema::Document, doc: &'a Document, s: VisitStep<'a>, dirs: Seq<Directive>)
    requires
        (s.node matches VisitNode::OperationDefinition(op) && dirs == op_directives(op))
            || (s.node matches VisitNode::Field(f) && dirs == f.directives@)
            || (s.node matches VisitNode::FragmentDefinition(fd) && dirs == fd.directives@)
            || (s.node matches VisitNode::FragmentSpread(sp) && dirs == sp.directives@)
            || (s.node matches VisitNode::InlineFragment(i) && dirs == i.directives@),
    ensures
        forall|k: int|
            #[trigger] repeated_use(schema, dirs, k) ==> UniqueDirectivesPerLocation.step_errors(schema, doc, s).contains(
                duplicate_error(dirs, k),
            ),
        forall|j: int|
            0 <= j < UniqueDirectivesPerLocation.step_errors(schema, doc, s).len() ==> is_duplicate_error(
                schema,
                dirs,
                #[trigger] UniqueDirectivesPerLocation.step_errors(schema, doc, s)[j],
            ),
{
    duplicate_errors_law(schema, dirs, dirs.len() as int);
    assert(UniqueDirectivesPerLocation.step_errors(schema, doc, s) == duplicate_directive_errors(
        schema,
        dirs,
        dirs.len() as int,
    ));
}

/// Whether a directive among the first `i` of `dirs` is named `name`.
fn is_named_before(dirs: &[Directive], name: &str, i: usize) -> (r: bool)
    requires
        i <= dirs@.len(),
    ensures
        r == named_before(dirs@, name@, i as int),
{
    let mut j: usize = 0;
    while j < i
        invariant
            j <= i,
            i <= dirs@.len(),
            forall|k: int| 0 <= k < j ==> dirs@[k].name@ != name@,
        decreases i - j,
    {
        if str_eq(dirs[j].name.as_str(), name) {
            return true;
        }
        j = j + 1;
    }
    false
}

impl UniqueDirectivesPerLocation {
    pub fn new() -> (r: Self) {
        UniqueDirectivesPerLocation
    }

    /// Reports each use of a non-repeatable directive after its first among `directives`.
    pub fn check_duplicate_directive<'a>(
        &self,
        ctx: &OperationVisitorContext<'a>,
        err_context: &mut ValidationErrorContext,
        directives: &[Directive],
    )
        ensures
            final(err_context).reported() == old(err_context).reported() + duplicate_directive_errors(
                ctx.schema,
                directives@,
                directives@.len() as int,
            ),
    {
        let ghost start = err_context.reported();
        let mut i: usize = 0;
        while i < directives.len()
            invariant
                i <= directives@.len(),
                err_context.reported() == start + duplicate_directive_errors(
                    ctx.schema,
                    directives@,
                    i as int,
                ),
            decreases directives@.len() - i,
        {
            let d = &directives[i];
            if let Some(def) = ctx.directive_by_name(d.name.as_str()) {
                if !def.repeatable && is_named_before(directives, d.name.as_str(), i) {
                    let message = concat3("Duplicate directive \"", d.name.as_str(), "\"");
                    err_context.report_error(
                        error_at("UniqueDirectivesPerLocation", message, d.position),
                    );
                }
            }
            i = i + 1;
        }
    }
}

impl StepRule for UniqueDirectivesPerLocation {
    open spec fn step_errors<'a>(
        &self,
        schema: &'a schema::Document,
        doc: &'a Document,
        s: VisitStep<'a>,
    ) -> Seq<ErrorView> {
        unique_directives_per_location_step(schema, s)
    }

    fn check_step<'a>(
        &self,
        ctx: &OperationVisitorContext<'a>,
        s: &VisitStep<'a>,
        errors: &mut ValidationErrorContext,
    ) {
        match s.node {
            VisitNode::OperationDefinition(op) => self.check_duplicate_directive(ctx, errors, op.directives()),
            VisitNode::Field(f) => self.check_duplicate_directive(ctx, errors, f.directives.as_slice()),
            VisitNode::FragmentDefinition(f) => self.check_duplicate_directive(ctx, errors, f.directives.as_slice()),
            VisitNode::FragmentSpread(sp) => self.check_duplicate_directive(ctx, errors, sp.directives.as_slice()),
            VisitNode::InlineFragment(i) => self.check_duplicate_directive(ctx, errors, i.directives.as_slice()),
            _ => {},
        }
    }
}

impl ValidationRule for UniqueDirectivesPerLocation {
    open spec fn spec_kind(&self) -> RuleKind {
        RuleKind::UniqueDirectivesPerLocation
    }

    open spec fn spec_errors<'a>(&self, schema: &'a schema::Document, doc: &'a Document) -> Seq<
        ErrorView,
    > {
        traversal_errors(self, schema, doc)
    }

    fn kind(&self) -> (k: RuleKind) {
        RuleKind::UniqueDirectivesPerLocation
    }

    fn error_code(&self) -> (r: &'static str)
        ensures
            r@ == unique_directives_per_location_code(),
    {
        "UniqueDirectivesPerLocation"
    }

    fn validate<'a>(&self, ctx: &OperationVisitorContext<'a>, error_collector: &mut ValidationErrorContext) {
        visit_with(self, ctx, error_collector);
    }
}

} // verus!
