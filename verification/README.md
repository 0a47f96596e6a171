# graphql_tools

Tooling around GraphQL documents, with machine-checked contracts: an owned
GraphQL syntax tree, helpers over it, and the validation rules of the GraphQL
specification. The library is written in Verus; the functions in `src/` state
in their contracts what they return or change, and Verus proves it. Calls
into `graphql_parser` sit behind a few trusted wrappers whose contracts say
what the parser's source shows. A visitor states, as `after_query_event`,
`after_schema_event` or `after_operation_event`, what each of its hooks does;
a walk then ends with the context that folding those steps over the events of
the walk, in order, gives.

## Layout

- `src/static_graphql/` — the syntax tree of operation and schema documents.
- `src/parser.rs` — reading documents with `graphql_parser`, node for node,
  and the text forms of values that messages quote.
- `src/ast/` — extension helpers over the tree, the traversal of operation
  documents with type information (`operation_visitor`), syntax-only and
  schema visitors, `TypeInfo`, and field collection.
- `src/validation/` — validation plans, `validate`, and one module per rule
  under `rules/`; each rule states the errors it reports as a function of the
  schema and the document.
- `src/introspection/`, `src/utilities/` — introspection result types and
  building schema type definitions from them.
- `src/language/` — source texts and line/column positions in them.
- `app/` — what stays outside the verified library: serde forms of the
  result types, reading introspection JSON, validating documents given as text.
- `tests/` — the rule scenarios and tests of the library's laws and helpers.

The walk that carries type information is `OperationVisitor`'s: its hooks
receive the parent type, type, input type and field definition known at each
node. There is no separate syntax visitor that keeps a `TypeInfo` up to date
as it goes; `TypeInfo` stands on its own, for callers that keep one
themselves.

## Laws

Besides each function's contract, the library proves properties that relate
several functions, for example: running two plans one after the other reports
the errors of the joined plan; a pair of fragments recorded as compared is
remembered in both orders; the uniqueness rules report nothing exactly when the
names are unique; whether two composite types overlap does not depend on their
order when type names are unique; every value compares as equal to itself;
an operation visitor's walk enters exactly the nodes that the rules' traversal
steps through, in the same order and with the same states; the walks of the
query, schema and operation visitors leave every node that they enter, in
properly nested pairs; inside nested `with_*` calls on a visitor context,
each `current_*` function returns what the innermost call of its kind
entered; after any history of inserts, `PairSet::contains` answers by the
last insert of the pair; entering and then leaving a type, field,
input type, or default value in `TypeInfo` restores its whole state.
