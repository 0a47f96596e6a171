//! Reading GraphQL text with the `graphql_parser` crate, and the text forms of
//! values that the validation messages quote.
//!
//! The parser's output is converted, node for node, into the library's own
//! syntax tree; what the parser computes is named (`parsed_query`,
//! `parsed_schema`), not restated.
use vstd::prelude::*;

use graphql_parser::query as gq;
use graphql_parser::schema as gs;

use graphql_parser::query::{
    Definition as ParsedQueryDefinition, Directive as ParsedDirective, Field as ParsedQueryField,
    FragmentDefinition as ParsedFragmentDefinition, InlineFragment as ParsedInlineFragment,
    Mutation as ParsedMutation, OperationDefinition as ParsedOperationDefinition,
    Query as ParsedQuery, Selection as ParsedSelection, SelectionSet as ParsedSelectionSet,
    Subscription as ParsedSubscription, Type as ParsedType, Value as ParsedValue,
    VariableDefinition as ParsedVariableDefinition,
};
use graphql_parser::schema::{
    Definition as ParsedSchemaDefinition, DirectiveDefinition as ParsedDirectiveDefinition,
    EnumType as ParsedEnumType, EnumTypeExtension as ParsedEnumExtension,
    EnumValue as ParsedEnumValue, Field as ParsedSchemaField,
    InputObjectType as ParsedInputObjectType, InputObjectTypeExtension as ParsedInputObjectExtension,
    InputValue as ParsedInputValue, InterfaceType as ParsedInterfaceType,
    InterfaceTypeExtension as ParsedInterfaceExtension, ObjectType as ParsedObjectType,
    ObjectTypeExtension as ParsedObjectExtension, ScalarType as ParsedScalarType,
    ScalarTypeExtension as ParsedScalarExtension, SchemaDefinition as ParsedSchemaBlock,
    TypeDefinition as ParsedTypeDefinition, TypeExtension as ParsedTypeExtension,
    UnionType as ParsedUnionType, UnionTypeExtension as ParsedUnionExtension,
    DirectiveLocation as ParsedLocation,
};
use graphql_parser::Pos as ParsedPos;

use crate::static_graphql::common::{Directive, Pos, Type, Value};
use crate::static_graphql::query as q;
use crate::static_graphql::schema as s;
use crate::static_graphql::schema::DirectiveLocation;

verus! {

// ---------------------------------------------------------------------------
// Nodes of the parser's output, held opaquely while they are converted
// ---------------------------------------------------------------------------

/// A position in `graphql_parser`'s output.
#[verifier::external_type_specification]
#[verifier::external_body]
pub struct ExParsedPos(ParsedPos);

/// A type reference in `graphql_parser`'s output, held until it is converted.
#[verifier::external_body]
pub struct TypeNode<'a>(ParsedType<'a, String>);

/// A value in `graphql_parser`'s output, held until it is converted.
#[verifier::external_body]
pub struct ValueNode<'a>(ParsedValue<'a, String>);

/// The items of a list value in `graphql_parser`'s output, held until it is converted.
#[verifier::external_body]
pub struct ValuesNode<'a>(Vec<ParsedValue<'a, String>>);

/// The arguments of a field or directive in `graphql_parser`'s output, held until it is converted.
#[verifier::external_body]
pub struct ArgumentsNode<'a>(Vec<(String, ParsedValue<'a, String>)>);

/// The directives applied to a node in `graphql_parser`'s output, held until it is converted.
#[verifier::external_body]
pub struct DirectivesNode<'a>(Vec<ParsedDirective<'a, String>>);

/// A definition of an executable document in `graphql_parser`'s output, held until it is converted.
#[verifier::external_body]
pub struct QueryDefinitionNode<'a>(ParsedQueryDefinition<'a, String>);

/// An operation definition in `graphql_parser`'s output, held until it is converted.
#[verifier::external_body]
pub struct OperationNode<'a>(ParsedOperationDefinition<'a, String>);

/// A query in `graphql_parser`'s output, held until it is converted.
#[verifier::external_body]
pub struct QueryNode<'a>(ParsedQuery<'a, String>);

/// A mutation in `graphql_parser`'s output, held until it is converted.
#[verifier::external_body]
pub struct MutationNode<'a>(ParsedMutation<'a, String>);

/// A subscription in `graphql_parser`'s output, held until it is converted.
#[verifier::external_body]
pub struct SubscriptionNode<'a>(ParsedSubscription<'a, String>);

/// A fragment definition in `graphql_parser`'s output, held until it is converted.
#[verifier::external_body]
pub struct FragmentDefinitionNode<'a>(ParsedFragmentDefinition<'a, String>);

/// A selection set in `graphql_parser`'s output, held until it is converted.
#[verifier::external_body]
pub struct SelectionSetNode<'a>(ParsedSelectionSet<'a, String>);

/// A selection in `graphql_parser`'s output, held until it is converted.
#[verifier::external_body]
pub struct SelectionNode<'a>(ParsedSelection<'a, String>);

/// A field selection in `graphql_parser`'s output, held until it is converted.
#[verifier::external_body]
pub struct QueryFieldNode<'a>(ParsedQueryField<'a, String>);

/// An inline fragment in `graphql_parser`'s output, held until it is converted.
#[verifier::external_body]
pub struct InlineFragmentNode<'a>(ParsedInlineFragment<'a, String>);

/// The variable definitions of an operation in `graphql_parser`'s output, held until it is converted.
#[verifier::external_body]
pub struct VariableDefinitionsNode<'a>(Vec<ParsedVariableDefinition<'a, String>>);

/// A definition of a type system document in `graphql_parser`'s output, held until it is converted.
#[verifier::external_body]
pub struct SchemaDefinitionNode<'a>(ParsedSchemaDefinition<'a, String>);

/// A schema definition in `graphql_parser`'s output, held until it is converted.
#[verifier::external_body]
pub struct SchemaBlockNode<'a>(ParsedSchemaBlock<'a, String>);

/// A type definition in `graphql_parser`'s output, held until it is converted.
#[verifier::external_body]
pub struct TypeDefinitionNode<'a>(ParsedTypeDefinition<'a, String>);

/// A type extension in `graphql_parser`'s output, held until it is converted.
#[verifier::external_body]
pub struct TypeExtensionNode<'a>(ParsedTypeExtension<'a, String>);

/// A scalar type definition in `graphql_parser`'s output, held until it is converted.
#[verifier::external_body]
pub struct ScalarNode<'a>(ParsedScalarType<'a, String>);

/// An object type definition in `graphql_parser`'s output, held until it is converted.
#[verifier::external_body]
pub struct ObjectNode<'a>(ParsedObjectType<'a, String>);

/// An interface type definition in `graphql_parser`'s output, held until it is converted.
#[verifier::external_body]
pub struct InterfaceNode<'a>(ParsedInterfaceType<'a, String>);

/// A union type definition in `graphql_parser`'s output, held until it is converted.
#[verifier::external_body]
pub struct UnionNode<'a>(ParsedUnionType<'a, String>);

/// An enum type definition in `graphql_parser`'s output, held until it is converted.
#[verifier::external_body]
pub struct EnumNode<'a>(ParsedEnumType<'a, String>);

/// An input object type definition in `graphql_parser`'s output, held until it is converted.
#[verifier::external_body]
pub struct InputObjectNode<'a>(ParsedInputObjectType<'a, String>);

/// A scalar type extension in `graphql_parser`'s output, held until it is converted.
#[verifier::external_body]
pub struct ScalarExtensionNode<'a>(ParsedScalarExtension<'a, String>);

/// An object type extension in `graphql_parser`'s output, held until it is converted.
#[verifier::external_body]
pub struct ObjectExtensionNode<'a>(ParsedObjectExtension<'a, String>);

/// An interface type extension in `graphql_parser`'s output, held until it is converted.
#[verifier::external_body]
pub struct InterfaceExtensionNode<'a>(ParsedInterfaceExtension<'a, String>);

/// A union type extension in `graphql_parser`'s output, held until it is converted.
#[verifier::external_body]
pub struct UnionExtensionNode<'a>(ParsedUnionExtension<'a, String>);

/// An enum type extension in `graphql_parser`'s output, held until it is converted.
#[verifier::external_body]
pub struct EnumExtensionNode<'a>(ParsedEnumExtension<'a, String>);

/// An input object type extension in `graphql_parser`'s output, held until it is converted.
#[verifier::external_body]
pub struct InputObjectExtensionNode<'a>(ParsedInputObjectExtension<'a, String>);

/// The field definitions of a type in `graphql_parser`'s output, held until it is converted.
#[verifier::external_body]
pub struct SchemaFieldsNode<'a>(Vec<ParsedSchemaField<'a, String>>);

/// Argument or input field definitions in `graphql_parser`'s output, held until it is converted.
#[verifier::external_body]
pub struct InputValuesNode<'a>(Vec<ParsedInputValue<'a, String>>);

/// The values of an enum type in `graphql_parser`'s output, held until it is converted.
#[verifier::external_body]
pub struct EnumValuesNode<'a>(Vec<ParsedEnumValue<'a, String>>);

/// A directive definition in `graphql_parser`'s output, held until it is converted.
#[verifier::external_body]
pub struct DirectiveDefinitionNode<'a>(ParsedDirectiveDefinition<'a, String>);

/// A directive location in `graphql_parser`'s output, held until it is converted.
#[verifier::external_body]
pub struct LocationNode(ParsedLocation);

// ---------------------------------------------------------------------------
// What the parser computes
// ---------------------------------------------------------------------------

/// The executable document that `graphql_parser::parse_query` reads from a
/// text, in the library's syntax tree, or the text of the parser's error.
pub uninterp spec fn parsed_query(text: Seq<char>) -> Result<q::Document, String>;

/// The type system document that `graphql_parser::parse_schema` reads from a
/// text, in the library's syntax tree, or the text of the parser's error.
pub uninterp spec fn parsed_schema(text: Seq<char>) -> Result<s::Document, String>;

/// The text that `graphql_parser` writes for a string value: the string in
/// double quotes with escapes, or a block string when it spans lines.
pub uninterp spec fn quoted_text(text: Seq<char>) -> Seq<char>;

/// Whether a character is white space outside ASCII, as `char::is_whitespace` counts it.
pub open spec fn wide_space(c: char) -> bool {
    c == '\u{85}' || c == '\u{a0}' || c == '\u{1680}' || ('\u{2000}' <= c && c <= '\u{200a}') || c == '\u{2028}'
        || c == '\u{2029}' || c == '\u{202f}' || c == '\u{205f}' || c == '\u{3000}'
}

/// Whether a character is white space within a line, as `char::is_whitespace`
/// counts it (a line feed ends a line).
pub open spec fn line_space(c: char) -> bool {
    c == ' ' || c == '\t' || c == '\r' || c == '\u{b}' || c == '\u{c}' || wide_space(c)
}

/// Whether the first `i` characters of a text hold `"""`.
pub open spec fn triple_quote_before(t: Seq<char>, i: int) -> bool
    decreases i,
{
    if i < 3 || i > t.len() {
        false
    } else {
        triple_quote_before(t, i - 1) || (t[i - 3] == '"' && t[i - 2] == '"' && t[i - 1] == '"')
    }
}

/// Whether the characters of a text from the start of its line up to
/// position `i` are all white space.
pub open spec fn line_space_before(t: Seq<char>, i: int) -> bool
    decreases i,
{
    if i <= 0 || i > t.len() {
        true
    } else if t[i - 1] == '\n' {
        true
    } else {
        line_space(t[i - 1]) && line_space_before(t, i - 1)
    }
}

/// Whether `graphql_parser` reads a text without failing on its white space.
/// It measures the indent of each line of a block string in bytes, after
/// trimming all white space, and cuts the lines at the smallest such indent,
/// which falls inside a wider white space character in the indent of a line.
/// Such a character stands after an opening `"""` with only white space
/// before it on its line; texts without one are the ones that the parser
/// reads without that failure.
pub open spec fn parsable_text(t: Seq<char>) -> bool {
    forall|i: int|
        0 <= i < t.len() && wide_space(#[trigger] t[i]) && triple_quote_before(t, i) ==> !line_space_before(t, i)
}

/// Whether `graphql_parser` reads a text without failing on its white space.
pub fn is_parsable_text(s: &str) -> (r: bool)
    ensures
        r == parsable_text(s@),
{
    let n = s.unicode_len();
    let mut i: usize = 0;
    let mut quoted = false;
    let mut line_blank = true;
    let mut q1 = false;
    let mut q2 = false;
    while i < n
        invariant
            i <= n,
            n == s@.len(),
            quoted == triple_quote_before(s@, i as int),
            line_blank == line_space_before(s@, i as int),
            q1 == (i >= 1 && s@[i - 1] == '"'),
            q2 == (i >= 2 && s@[i - 2] == '"'),
            forall|j: int|
                0 <= j < i && wide_space(#[trigger] s@[j]) && triple_quote_before(s@, j) ==> !line_space_before(s@, j),
        decreases n - i,
    {
        let c = s.get_char(i);
        let wide = c == '\u{85}' || c == '\u{a0}' || c == '\u{1680}' || ('\u{2000}' <= c && c <= '\u{200a}')
            || c == '\u{2028}' || c == '\u{2029}' || c == '\u{202f}' || c == '\u{205f}' || c == '\u{3000}';
        assert(wide == wide_space(s@[i as int]));
        if wide && quoted && line_blank {
            return false;
        }
        let space = wide || c == ' ' || c == '\t' || c == '\r' || c == '\u{b}' || c == '\u{c}';
        assert(space == line_space(s@[i as int]));
        quoted = quoted || (q2 && q1 && c == '"');
        line_blank = if c == '\n' {
            true
        } else {
            space && line_blank
        };
        q2 = q1;
        q1 = c == '"';
        i = i + 1;
    }
    true
}

/// Reads an executable document with `graphql_parser::parse_query`. The
/// contract names the result after the text; what the parser accepts and
/// returns is not restated here. Texts with white space outside ASCII in
/// the indent of a line after a `"""` are left out: in a block string the
/// parser can cut such a character apart and panic.
#[verifier::external_body]
pub fn parse_query(text: &str) -> (r: Result<q::Document, String>)
    requires
        parsable_text(text@),
    ensures
        r == parsed_query(text@),
{
    match gq::parse_query::<String>(text) {
        Ok(doc) => Ok(q::Document {
            definitions: doc.definitions.into_iter().map(|d| conv_query_definition(QueryDefinitionNode(d))).collect(),
        }),
        Err(e) => Err(format!("{}", e)),
    }
}

/// Reads a type system document with `graphql_parser::parse_schema`. The
/// contract names the result after the text; what the parser accepts and
/// returns is not restated here. Texts with white space outside ASCII in
/// the indent of a line after a `"""` are left out, as for `parse_query`.
#[verifier::external_body]
pub fn parse_schema(text: &str) -> (r: Result<s::Document, String>)
    requires
        parsable_text(text@),
    ensures
        r == parsed_schema(text@),
{
    match gs::parse_schema::<String>(text) {
        Ok(doc) => Ok(s::Document {
            definitions: doc.definitions.into_iter().map(|d| conv_schema_definition(SchemaDefinitionNode(d))).collect(),
        }),
        Err(e) => Err(format!("{}", e)),
    }
}

/// Writes a string value as `graphql_parser`'s formatter does
/// (`Formatter::write_quoted`, reached through the `Display` of a string value).
#[verifier::external_body]
pub fn quote_string(text: &str) -> (r: String)
    ensures
        r@ == quoted_text(text@),
{
    format!("{}", gq::Value::<'static, String>::String(text.to_string()))
}

/// The decimal digits of a natural number.
pub open spec fn decimal_digits(n: nat) -> Seq<char>
    decreases n,
{
    let d = ((n % 10) as u8 + 48u8) as char;
    if n < 10 {
        seq![d]
    } else {
        decimal_digits(n / 10).push(d)
    }
}

/// The decimal text of an integer, with a leading `-` when it is negative.
pub open spec fn int_text(i: int) -> Seq<char> {
    if i < 0 {
        seq!['-'] + decimal_digits((-i) as nat)
    } else {
        decimal_digits(i as nat)
    }
}

/// The text of one decimal digit.
fn digit_text(d: u64) -> (r: &'static str)
    requires
        d < 10,
    ensures
        r@ == seq![((d % 10) as u8 + 48u8) as char],
{
    proof {
        reveal_strlit("0");
        reveal_strlit("1");
        reveal_strlit("2");
        reveal_strlit("3");
        reveal_strlit("4");
        reveal_strlit("5");
        reveal_strlit("6");
        reveal_strlit("7");
        reveal_strlit("8");
        reveal_strlit("9");
    }
    match d {
        0 => "0",
        1 => "1",
        2 => "2",
        3 => "3",
        4 => "4",
        5 => "5",
        6 => "6",
        7 => "7",
        8 => "8",
        _ => "9",
    }
}

/// Appends the decimal digits of `n`.
fn push_digits(n: u64, out: &mut String)
    ensures
        final(out)@ == old(out)@ + decimal_digits(n as nat),
    decreases n,
{
    if n >= 10 {
        push_digits(n / 10, out);
    }
    let d = digit_text(n % 10);
    out.append(d);
    assert(n % 10 == (n as nat) % 10);
}

/// Writes an integer in decimal, with a leading `-` when it is negative, as
/// `graphql_parser`'s formatter writes integer values.
pub fn int_to_string(i: i64) -> (r: String)
    ensures
        r@ == int_text(i as int),
{
    let mut r = String::new();
    if i < 0 {
        r.append("-");
        proof { reveal_strlit("-"); }
        let m: u64 = ((-(i + 1)) as u64) + 1;
        assert(m as int == -(i as int));
        push_digits(m, &mut r);
    } else {
        push_digits(i as u64, &mut r);
    }
    r
}

// ---------------------------------------------------------------------------
// Conversions, node for node
// ---------------------------------------------------------------------------

/// Converts a position.
#[verifier::external_body]
fn conv_pos(p: ParsedPos) -> Pos {
    Pos { line: p.line, column: p.column }
}

/// Converts a type reference.
#[verifier::external_body]
fn conv_type<'a>(t: TypeNode<'a>) -> Type {
    match t.0 {
        gq::Type::NamedType(n) => Type::NamedType(n),
        gq::Type::ListType(b) => Type::ListType(Box::new(conv_type(TypeNode(*b)))),
        gq::Type::NonNullType(b) => Type::NonNullType(Box::new(conv_type(TypeNode(*b)))),
    }
}

/// Converts a value; an integer is read with `Number::as_i64`, which always
/// succeeds in this version of the parser, and a float is kept as the text
/// that `Display` writes for it.
#[verifier::external_body]
fn conv_value<'a>(v: ValueNode<'a>) -> Value {
    match v.0 {
        gq::Value::Variable(n) => Value::Variable(n),
        gq::Value::Int(n) => Value::Int(n.as_i64().unwrap_or_default()),
        gq::Value::Float(f) => Value::Float(format!("{}", f)),
        gq::Value::String(t) => Value::String(t),
        gq::Value::Boolean(b) => Value::Boolean(b),
        gq::Value::Null => Value::Null,
        gq::Value::Enum(n) => Value::Enum(n),
        gq::Value::List(l) => Value::List(conv_values(ValuesNode(l))),
        gq::Value::Object(o) => Value::Object(conv_arguments(ArgumentsNode(o.into_iter().collect()))),
    }
}

/// Converts the items of a list value.
#[verifier::external_body]
fn conv_values<'a>(v: ValuesNode<'a>) -> Vec<Value> {
    v.0.into_iter().map(|x| conv_value(ValueNode(x))).collect()
}

/// Converts name and value pairs: the arguments of a field or a directive,
/// or the fields of an object value (in the parser's key order).
#[verifier::external_body]
fn conv_arguments<'a>(a: ArgumentsNode<'a>) -> Vec<(String, Value)> {
    a.0.into_iter().map(|(k, x)| (k, conv_value(ValueNode(x)))).collect()
}

/// Converts the directives applied to a node.
#[verifier::external_body]
fn conv_directives<'a>(d: DirectivesNode<'a>) -> Vec<Directive> {
    d.0.into_iter().map(|x| Directive {
        position: conv_pos(x.position),
        name: x.name,
        arguments: conv_arguments(ArgumentsNode(x.arguments)),
    }).collect()
}

/// Converts the variable definitions of an operation.
#[verifier::external_body]
fn conv_variable_definitions<'a>(v: VariableDefinitionsNode<'a>) -> Vec<q::VariableDefinition> {
    v.0.into_iter().map(|x| q::VariableDefinition {
        position: conv_pos(x.position),
        name: x.name,
        var_type: conv_type(TypeNode(x.var_type)),
        default_value: x.default_value.map(|d| conv_value(ValueNode(d))),
    }).collect()
}

/// Converts a selection set.
#[verifier::external_body]
fn conv_selection_set<'a>(ss: SelectionSetNode<'a>) -> q::SelectionSet {
    q::SelectionSet {
        span: q::Span(conv_pos(ss.0.span.0), conv_pos(ss.0.span.1)),
        items: ss.0.items.into_iter().map(|x| conv_selection(SelectionNode(x))).collect(),
    }
}

/// Converts a field selection.
#[verifier::external_body]
fn conv_field<'a>(f: QueryFieldNode<'a>) -> q::Field {
    let x = f.0;
    q::Field {
        position: conv_pos(x.position),
        alias: x.alias,
        name: x.name,
        arguments: conv_arguments(ArgumentsNode(x.arguments)),
        directives: conv_directives(DirectivesNode(x.directives)),
        selection_set: conv_selection_set(SelectionSetNode(x.selection_set)),
    }
}

/// Converts an inline fragment.
#[verifier::external_body]
fn conv_inline_fragment<'a>(f: InlineFragmentNode<'a>) -> q::InlineFragment {
    let x = f.0;
    q::InlineFragment {
        position: conv_pos(x.position),
        type_condition: x.type_condition.map(|gq::TypeCondition::On(n)| q::TypeCondition::On(n)),
        directives: conv_directives(DirectivesNode(x.directives)),
        selection_set: conv_selection_set(SelectionSetNode(x.selection_set)),
    }
}

/// Converts a selection: a field, a fragment spread or an inline fragment.
#[verifier::external_body]
fn conv_selection<'a>(sel: SelectionNode<'a>) -> q::Selection {
    match sel.0 {
        gq::Selection::Field(f) => q::Selection::Field(conv_field(QueryFieldNode(f))),
        gq::Selection::FragmentSpread(x) => q::Selection::FragmentSpread(q::FragmentSpread {
            position: conv_pos(x.position),
            fragment_name: x.fragment_name,
            directives: conv_directives(DirectivesNode(x.directives)),
        }),
        gq::Selection::InlineFragment(f) => q::Selection::InlineFragment(
            conv_inline_fragment(InlineFragmentNode(f)),
        ),
    }
}

/// Converts a query.
#[verifier::external_body]
fn conv_query<'a>(op: QueryNode<'a>) -> q::Query {
    let x = op.0;
    q::Query {
        position: conv_pos(x.position),
        name: x.name,
        variable_definitions: conv_variable_definitions(VariableDefinitionsNode(x.variable_definitions)),
        directives: conv_directives(DirectivesNode(x.directives)),
        selection_set: conv_selection_set(SelectionSetNode(x.selection_set)),
    }
}

/// Converts a mutation.
#[verifier::external_body]
fn conv_mutation<'a>(op: MutationNode<'a>) -> q::Mutation {
    let x = op.0;
    q::Mutation {
        position: conv_pos(x.position),
        name: x.name,
        variable_definitions: conv_variable_definitions(VariableDefinitionsNode(x.variable_definitions)),
        directives: conv_directives(DirectivesNode(x.directives)),
        selection_set: conv_selection_set(SelectionSetNode(x.selection_set)),
    }
}

/// Converts a subscription.
#[verifier::external_body]
fn conv_subscription<'a>(op: SubscriptionNode<'a>) -> q::Subscription {
    let x = op.0;
    q::Subscription {
        position: conv_pos(x.position),
        name: x.name,
        variable_definitions: conv_variable_definitions(VariableDefinitionsNode(x.variable_definitions)),
        directives: conv_directives(DirectivesNode(x.directives)),
        selection_set: conv_selection_set(SelectionSetNode(x.selection_set)),
    }
}

/// Converts an operation definition.
#[verifier::external_body]
fn conv_operation<'a>(op: OperationNode<'a>) -> q::OperationDefinition {
    match op.0 {
        gq::OperationDefinition::SelectionSet(ss) => q::OperationDefinition::SelectionSet(
            conv_selection_set(SelectionSetNode(ss)),
        ),
        gq::OperationDefinition::Query(x) => q::OperationDefinition::Query(conv_query(QueryNode(x))),
        gq::OperationDefinition::Mutation(x) => q::OperationDefinition::Mutation(conv_mutation(MutationNode(x))),
        gq::OperationDefinition::Subscription(x) => q::OperationDefinition::Subscription(
            conv_subscription(SubscriptionNode(x)),
        ),
    }
}

/// Converts a fragment definition.
#[verifier::external_body]
fn conv_fragment_definition<'a>(f: FragmentDefinitionNode<'a>) -> q::FragmentDefinition {
    let x = f.0;
    q::FragmentDefinition {
        position: conv_pos(x.position),
        name: x.name,
        type_condition: match x.type_condition { gq::TypeCondition::On(n) => q::TypeCondition::On(n) },
        directives: conv_directives(DirectivesNode(x.directives)),
        selection_set: conv_selection_set(SelectionSetNode(x.selection_set)),
    }
}

/// Converts a definition of an executable document.
#[verifier::external_body]
fn conv_query_definition<'a>(d: QueryDefinitionNode<'a>) -> q::Definition {
    match d.0 {
        gq::Definition::Operation(op) => q::Definition::Operation(conv_operation(OperationNode(op))),
        gq::Definition::Fragment(f) => q::Definition::Fragment(
            conv_fragment_definition(FragmentDefinitionNode(f)),
        ),
    }
}

/// Converts argument or input field definitions.
#[verifier::external_body]
fn conv_input_values<'a>(v: InputValuesNode<'a>) -> Vec<s::InputValue> {
    v.0.into_iter().map(|x| s::InputValue {
        position: conv_pos(x.position),
        description: x.description,
        name: x.name,
        value_type: conv_type(TypeNode(x.value_type)),
        default_value: x.default_value.map(|d| conv_value(ValueNode(d))),
        directives: conv_directives(DirectivesNode(x.directives)),
    }).collect()
}

/// Converts the field definitions of a type.
#[verifier::external_body]
fn conv_schema_fields<'a>(f: SchemaFieldsNode<'a>) -> Vec<s::Field> {
    f.0.into_iter().map(|x| s::Field {
        position: conv_pos(x.position),
        description: x.description,
        name: x.name,
        arguments: conv_input_values(InputValuesNode(x.arguments)),
        field_type: conv_type(TypeNode(x.field_type)),
        directives: conv_directives(DirectivesNode(x.directives)),
    }).collect()
}

/// Converts the values of an enum type.
#[verifier::external_body]
fn conv_enum_values<'a>(v: EnumValuesNode<'a>) -> Vec<s::EnumValue> {
    v.0.into_iter().map(|x| s::EnumValue {
        position: conv_pos(x.position),
        description: x.description,
        name: x.name,
        directives: conv_directives(DirectivesNode(x.directives)),
    }).collect()
}

/// Converts a scalar type definition.
#[verifier::external_body]
fn conv_scalar<'a>(t: ScalarNode<'a>) -> s::ScalarType {
    let x = t.0;
    s::ScalarType {
        position: conv_pos(x.position),
        description: x.description,
        name: x.name,
        directives: conv_directives(DirectivesNode(x.directives)),
    }
}

/// Converts a scalar type extension; an extension carries no description.
#[verifier::external_body]
fn conv_scalar_extension<'a>(t: ScalarExtensionNode<'a>) -> s::ScalarType {
    let x = t.0;
    s::ScalarType {
        position: conv_pos(x.position),
        description: None,
        name: x.name,
        directives: conv_directives(DirectivesNode(x.directives)),
    }
}

/// Converts an object type definition.
#[verifier::external_body]
fn conv_object<'a>(t: ObjectNode<'a>) -> s::ObjectType {
    let x = t.0;
    s::ObjectType {
        position: conv_pos(x.position),
        description: x.description,
        name: x.name,
        implements_interfaces: x.implements_interfaces,
        directives: conv_directives(DirectivesNode(x.directives)),
        fields: conv_schema_fields(SchemaFieldsNode(x.fields)),
    }
}

/// Converts an object type extension; an extension carries no description.
#[verifier::external_body]
fn conv_object_extension<'a>(t: ObjectExtensionNode<'a>) -> s::ObjectType {
    let x = t.0;
    s::ObjectType {
        position: conv_pos(x.position),
        description: None,
        name: x.name,
        implements_interfaces: x.implements_interfaces,
        directives: conv_directives(DirectivesNode(x.directives)),
        fields: conv_schema_fields(SchemaFieldsNode(x.fields)),
    }
}

/// Converts an interface type definition.
#[verifier::external_body]
fn conv_interface<'a>(t: InterfaceNode<'a>) -> s::InterfaceType {
    let x = t.0;
    s::InterfaceType {
        position: conv_pos(x.position),
        description: x.description,
        name: x.name,
        implements_interfaces: x.implements_interfaces,
        directives: conv_directives(DirectivesNode(x.directives)),
        fields: conv_schema_fields(SchemaFieldsNode(x.fields)),
    }
}

/// Converts an interface type extension; an extension carries no description.
#[verifier::external_body]
fn conv_interface_extension<'a>(t: InterfaceExtensionNode<'a>) -> s::InterfaceType {
    let x = t.0;
    s::InterfaceType {
        position: conv_pos(x.position),
        description: None,
        name: x.name,
        implements_interfaces: x.implements_interfaces,
        directives: conv_directives(DirectivesNode(x.directives)),
        fields: conv_schema_fields(SchemaFieldsNode(x.fields)),
    }
}

/// Converts a union type definition.
#[verifier::external_body]
fn conv_union<'a>(t: UnionNode<'a>) -> s::UnionType {
    let x = t.0;
    s::UnionType {
        position: conv_pos(x.position),
        description: x.description,
        name: x.name,
        directives: conv_directives(DirectivesNode(x.directives)),
        types: x.types,
    }
}

/// Converts a union type extension; an extension carries no description.
#[verifier::external_body]
fn conv_union_extension<'a>(t: UnionExtensionNode<'a>) -> s::UnionType {
    let x = t.0;
    s::UnionType {
        position: conv_pos(x.position),
        description: None,
        name: x.name,
        directives: conv_directives(DirectivesNode(x.directives)),
        types: x.types,
    }
}

/// Converts an enum type definition.
#[verifier::external_body]
fn conv_enum<'a>(t: EnumNode<'a>) -> s::EnumType {
    let x = t.0;
    s::EnumType {
        position: conv_pos(x.position),
        description: x.description,
        name: x.name,
        directives: conv_directives(DirectivesNode(x.directives)),
        values: conv_enum_values(EnumValuesNode(x.values)),
    }
}

/// Converts an enum type extension; an extension carries no description.
#[verifier::external_body]
fn conv_enum_extension<'a>(t: EnumExtensionNode<'a>) -> s::EnumType {
    let x = t.0;
    s::EnumType {
        position: conv_pos(x.position),
        description: None,
        name: x.name,
        directives: conv_directives(DirectivesNode(x.directives)),
        values: conv_enum_values(EnumValuesNode(x.values)),
    }
}

/// Converts an input object type definition.
#[verifier::external_body]
fn conv_input_object<'a>(t: InputObjectNode<'a>) -> s::InputObjectType {
    let x = t.0;
    s::InputObjectType {
        position: conv_pos(x.position),
        description: x.description,
        name: x.name,
        directives: conv_directives(DirectivesNode(x.directives)),
        fields: conv_input_values(InputValuesNode(x.fields)),
    }
}

/// Converts an input object type extension; an extension carries no description.
#[verifier::external_body]
fn conv_input_object_extension<'a>(t: InputObjectExtensionNode<'a>) -> s::InputObjectType {
    let x = t.0;
    s::InputObjectType {
        position: conv_pos(x.position),
        description: None,
        name: x.name,
        directives: conv_directives(DirectivesNode(x.directives)),
        fields: conv_input_values(InputValuesNode(x.fields)),
    }
}

/// Converts a type definition.
#[verifier::external_body]
fn conv_type_definition<'a>(t: TypeDefinitionNode<'a>) -> s::TypeDefinition {
    match t.0 {
        gs::TypeDefinition::Scalar(x) => s::TypeDefinition::Scalar(conv_scalar(ScalarNode(x))),
        gs::TypeDefinition::Object(x) => s::TypeDefinition::Object(conv_object(ObjectNode(x))),
        gs::TypeDefinition::Interface(x) => s::TypeDefinition::Interface(conv_interface(InterfaceNode(x))),
        gs::TypeDefinition::Union(x) => s::TypeDefinition::Union(conv_union(UnionNode(x))),
        gs::TypeDefinition::Enum(x) => s::TypeDefinition::Enum(conv_enum(EnumNode(x))),
        gs::TypeDefinition::InputObject(x) => s::TypeDefinition::InputObject(conv_input_object(InputObjectNode(x))),
    }
}

/// Converts a type extension.
#[verifier::external_body]
fn conv_type_extension<'a>(t: TypeExtensionNode<'a>) -> s::TypeExtension {
    match t.0 {
        gs::TypeExtension::Scalar(x) => s::TypeExtension::Scalar(conv_scalar_extension(ScalarExtensionNode(x))),
        gs::TypeExtension::Object(x) => s::TypeExtension::Object(conv_object_extension(ObjectExtensionNode(x))),
        gs::TypeExtension::Interface(x) => s::TypeExtension::Interface(conv_interface_extension(InterfaceExtensionNode(x))),
        gs::TypeExtension::Union(x) => s::TypeExtension::Union(conv_union_extension(UnionExtensionNode(x))),
        gs::TypeExtension::Enum(x) => s::TypeExtension::Enum(conv_enum_extension(EnumExtensionNode(x))),
        gs::TypeExtension::InputObject(x) => s::TypeExtension::InputObject(conv_input_object_extension(InputObjectExtensionNode(x))),
    }
}

/// Converts a directive location, variant for variant.
#[verifier::external_body]
fn conv_location(l: LocationNode) -> DirectiveLocation {
    match l.0 {
        ParsedLocation::Query => DirectiveLocation::Query, ParsedLocation::Mutation => DirectiveLocation::Mutation,
        ParsedLocation::Subscription => DirectiveLocation::Subscription, ParsedLocation::Field => DirectiveLocation::Field,
        ParsedLocation::FragmentDefinition => DirectiveLocation::FragmentDefinition, ParsedLocation::FragmentSpread => DirectiveLocation::FragmentSpread,
        ParsedLocation::InlineFragment => DirectiveLocation::InlineFragment, ParsedLocation::Schema => DirectiveLocation::Schema,
        ParsedLocation::Scalar => DirectiveLocation::Scalar, ParsedLocation::Object => DirectiveLocation::Object,
        ParsedLocation::FieldDefinition => DirectiveLocation::FieldDefinition, ParsedLocation::ArgumentDefinition => DirectiveLocation::ArgumentDefinition,
        ParsedLocation::Interface => DirectiveLocation::Interface, ParsedLocation::Union => DirectiveLocation::Union,
        ParsedLocation::Enum => DirectiveLocation::Enum, ParsedLocation::EnumValue => DirectiveLocation::EnumValue,
        ParsedLocation::InputObject => DirectiveLocation::InputObject, ParsedLocation::InputFieldDefinition => DirectiveLocation::InputFieldDefinition,
        ParsedLocation::VariableDefinition => DirectiveLocation::VariableDefinition,
    }
}

/// Converts a directive definition.
#[verifier::external_body]
fn conv_directive_definition<'a>(d: DirectiveDefinitionNode<'a>) -> s::DirectiveDefinition {
    let x = d.0;
    s::DirectiveDefinition {
        position: conv_pos(x.position),
        description: x.description,
        name: x.name,
        arguments: conv_input_values(InputValuesNode(x.arguments)),
        repeatable: x.repeatable,
        locations: x.locations.into_iter().map(|l| conv_location(LocationNode(l))).collect(),
    }
}

/// Converts a schema definition.
#[verifier::external_body]
fn conv_schema_block<'a>(b: SchemaBlockNode<'a>) -> s::SchemaDefinition {
    let x = b.0;
    s::SchemaDefinition {
        position: conv_pos(x.position),
        directives: conv_directives(DirectivesNode(x.directives)),
        query: x.query,
        mutation: x.mutation,
        subscription: x.subscription,
    }
}

/// Converts a definition of a type system document.
#[verifier::external_body]
fn conv_schema_definition<'a>(d: SchemaDefinitionNode<'a>) -> s::Definition {
    match d.0 {
        gs::Definition::SchemaDefinition(x) => s::Definition::SchemaDefinition(conv_schema_block(SchemaBlockNode(x))),
        gs::Definition::TypeDefinition(t) => s::Definition::TypeDefinition(conv_type_definition(TypeDefinitionNode(t))),
        gs::Definition::TypeExtension(t) => s::Definition::TypeExtension(conv_type_extension(TypeExtensionNode(t))),
        gs::Definition::DirectiveDefinition(x) => s::Definition::DirectiveDefinition(
            conv_directive_definition(DirectiveDefinitionNode(x)),
        ),
    }
}

} // verus!
