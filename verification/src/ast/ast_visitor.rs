//! Visiting either kind of document with one visitor.
use vstd::prelude::*;

use crate::ast::query_visitor::{document_events, QueryVisitor};
use crate::ast::schema_visitor::{schema_document_events, without_extensions, SchemaVisitor};
use crate::ast::utils::{fold_events, DefaultVisitorContext};
use crate::static_graphql::{query, schema};

verus! {

/// A document of either kind.
pub enum ASTKind {
    Schema(schema::Document),
    Operation(query::Document),
}

/// A visitor of both schemas and operation documents.
pub trait ASTVisitor<T = DefaultVisitorContext>: QueryVisitor<T> + SchemaVisitor<T> {
    /// Walks a document with the visitor of its kind; a schema must hold no
    /// type extension.
    fn visit_ast(&mut self, ast: ASTKind, visitor_context: &mut T)
        requires
            match ast {
                ASTKind::Schema(s) => without_extensions(&s),
                ASTKind::Operation(_) => true,
            },
        ensures
            match ast {
                ASTKind::Schema(s) => *final(visitor_context) == fold_events(
                    (|c: T, e| old(self).after_schema_event(c, e)),
                    schema_document_events(&s),
                    *old(visitor_context),
                ),
                ASTKind::Operation(o) => *final(visitor_context) == fold_events(
                    (|c: T, e| old(self).after_query_event(c, e)),
                    document_events(&o),
                    *old(visitor_context),
                ),
            },
    {
        match ast {
            ASTKind::Schema(schema) => self.visit_schema_document(&schema, visitor_context),
            ASTKind::Operation(operation) => self.visit_document(&operation, visitor_context),
        }
    }
}

} // verus!
