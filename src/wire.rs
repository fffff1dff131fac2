use vstd::prelude::*;

use crate::ast::{Ast, ID};
use crate::shape::Shape;

verus! {

/// The fields of a node as read from its wire object: each is absent when
/// the object lacks its key. An absent `id` is the node's absent identity.
pub struct AstFields {
    pub shape: Option<Shape>,
    pub id: Option<ID>,
    pub span: Option<usize>,
}

/// The fields of a node to write as its wire object. The `id` key is left
/// out entirely when `id` is `None`.
pub struct AstFieldsRef<'a> {
    pub shape: &'a Shape,
    pub id: Option<ID>,
    pub span: usize,
}

/// Raised when a wire object lacks a field that a node cannot do without.
pub struct MissingWireField {
    pub field: String,
}

/// What decoding `f` gives: the node when `shape` and `span` are both
/// there, else the first of them that is missing.
pub open spec fn decodes_to(f: AstFields, r: Result<Ast, MissingWireField>) -> bool {
    match f.shape {
        None => r is Err && r->Err_0.field@ == "shape"@,
        Some(shape) => match f.span {
            None => r is Err && r->Err_0.field@ == "span"@,
            Some(span) => r is Ok && r->Ok_0.spec_shape() == shape && r->Ok_0.spec_id() == f.id
                && r->Ok_0.wrapped.wrapped.span == span,
        },
    }
}

/// The wire fields of a node, as owned values.
pub open spec fn encoded(x: Ast) -> AstFields {
    AstFields { shape: Some(x.spec_shape()), id: x.spec_id(), span: Some(x.wrapped.wrapped.span) }
}

/// Builds a node from its wire fields. The span is taken as written: a
/// decoder trusts its peer to have computed it.
pub fn decode(f: AstFields) -> (r: Result<Ast, MissingWireField>)
    ensures
        decodes_to(f, r),
{
    match f.shape {
        None => Err(MissingWireField { field: "shape".to_owned() }),
        Some(shape) => match f.span {
            None => Err(MissingWireField { field: "span".to_owned() }),
            Some(span) => Ok(Ast::new_with_span(shape, f.id, span)),
        },
    }
}

impl Ast {
    /// The fields to write for this node.
    pub fn wire_fields(&self) -> (r: AstFieldsRef<'_>)
        ensures
            *r.shape == self.spec_shape(),
            r.id == self.spec_id(),
            r.span == self.wrapped.wrapped.span,
    {
        AstFieldsRef { shape: self.shape(), id: self.id(), span: self.wrapped.wrapped.span }
    }
}

/// Decoding what a node encodes to gives the node back.
pub proof fn lemma_wire_round_trip(x: Ast, r: Result<Ast, MissingWireField>)
    requires
        decodes_to(encoded(x), r),
    ensures
        r matches Ok(y) && y == x,
{
}

/// Decoding fails, and builds no node, when `shape` or `span` is missing,
/// whatever else the object holds.
pub proof fn lemma_wire_missing_field(f: AstFields, r: Result<Ast, MissingWireField>)
    requires
        decodes_to(f, r),
        f.shape is None || f.span is None,
    ensures
        r is Err,
{
}

} // verus!
