use vstd::prelude::*;
use std::rc::Rc;

use crate::shape::{lemma_children_decrease, Shape, ShapeVariant, Var};
use crate::span::HasSpan;
use vstd::string::StrSliceExecFns;

verus! {

/// Stable identity of a node: the 128 bits of a UUID.
pub type ID = u128;

/// A value and the length of its source text.
pub struct WithSpan<T> {
    pub wrapped: T,
    pub span: usize,
}

/// A value and its optional identity.
pub struct WithID<T> {
    pub wrapped: T,
    pub id: Option<ID>,
}

/// An immutable syntax-tree node, shared by every parent that holds it.
pub struct Ast {
    pub wrapped: Rc<WithID<WithSpan<Shape>>>,
}

impl Ast {
    pub open spec fn spec_shape(&self) -> Shape {
        self.wrapped.wrapped.wrapped
    }

    pub open spec fn spec_id(&self) -> Option<ID> {
        self.wrapped.id
    }

    /// The cached span is the one that the shape's span rule gives.
    pub open spec fn span_is_computed(&self) -> bool {
        self.spec_shape().span_defined() && self.spec_span() == self.spec_shape().spec_span()
    }
}

/// Relies on Rc::clone: the new handle points to the same node.
#[verifier::external_body]
fn share(node: &Rc<WithID<WithSpan<Shape>>>) -> (r: Rc<WithID<WithSpan<Shape>>>)
    ensures
        r == *node,
{
    Rc::clone(node)
}

/// A clone shares the node: no subtree is copied.
impl Clone for Ast {
    fn clone(&self) -> (r: Ast)
        ensures
            r == *self,
    {
        Ast { wrapped: share(&self.wrapped) }
    }
}

impl HasSpan for Ast {
    open spec fn spec_span(&self) -> nat {
        self.wrapped.wrapped.span as nat
    }

    fn span(&self) -> (r: usize) {
        self.wrapped.wrapped.span
    }
}


// === Construction and access ===

impl Ast {
    /// Wraps a shape into a node; the span is computed from the shape.
    pub fn new(shape: Shape, id: Option<ID>) -> (r: Ast)
        requires
            shape.span_defined(),
            shape.spec_span() <= usize::MAX,
        ensures
            r.spec_shape() == shape,
            r.spec_id() == id,
            r.spec_span() == shape.spec_span(),
            r.span_is_computed(),
    {
        let span = shape.span();
        Ast::new_with_span(shape, id, span)
    }

    /// Wraps a shape into a node with a span that the caller has already
    /// checked, as a decoder has.
    pub fn new_with_span(shape: Shape, id: Option<ID>, span: usize) -> (r: Ast)
        ensures
            r.spec_shape() == shape,
            r.spec_id() == id,
            r.spec_span() == span,
    {
        let with_span = WithSpan { wrapped: shape, span };
        let with_id = WithID { wrapped: with_span, id };
        Ast { wrapped: Rc::new(with_id) }
    }

    /// Wraps a variant record into a node without identity.
    pub fn from_variant<V: ShapeVariant>(v: V) -> (r: Ast)
        requires
            v.spec_widen().span_defined(),
            v.spec_widen().spec_span() <= usize::MAX,
        ensures
            r.spec_shape() == v.spec_widen(),
            r.spec_id() is None,
            r.spec_span() == v.spec_widen().spec_span(),
            r.span_is_computed(),
    {
        Ast::new(v.widen(), None)
    }

    /// A variable node without identity.
    pub fn var(name: String) -> (r: Ast)
        ensures
            r.spec_shape() == Shape::Var(Var { name }),
            r.spec_id() is None,
            r.spec_span() == name@.len(),
            r.span_is_computed(),
    {
        let span = name.as_str().unicode_len();
        Ast::new_with_span(Shape::Var(Var { name }), None, span)
    }

    pub fn shape(&self) -> (r: &Shape)
        ensures
            *r == self.spec_shape(),
    {
        &self.wrapped.wrapped.wrapped
    }

    pub fn id(&self) -> (r: Option<ID>)
        ensures
            r == self.spec_id(),
    {
        self.wrapped.id
    }
}

// === Traversal ===

/// The nodes of the subtree rooted at `a`, depth-first: each node before its
/// children, the children left to right.
pub open spec fn preorder(a: Ast) -> Seq<Ast>
    decreases a, 1nat, 0nat,
{
    seq![a] + subtrees_within(a, a.spec_shape().spec_children())
}

/// The pre-orders of the trees of `s` that lie inside `a`, one after the
/// other, up to the first that does not.
pub open spec fn subtrees_within(a: Ast, s: Seq<Ast>) -> Seq<Ast>
    decreases a, 0nat, s.len(),
{
    if s.len() == 0 {
        seq![]
    } else if decreases_to!(a => s[0]) {
        preorder(s[0]) + subtrees_within(a, s.drop_first())
    } else {
        seq![]
    }
}

/// The pre-orders of a sequence of trees, one after the other.
pub open spec fn forest(s: Seq<Ast>) -> Seq<Ast>
    decreases s.len(),
{
    if s.len() == 0 {
        seq![]
    } else {
        preorder(s[0]) + forest(s.drop_first())
    }
}

/// What a stack of pending subtrees yields: top of the stack first.
pub open spec fn stack_order(s: Seq<Ast>) -> Seq<Ast>
    decreases s.len(),
{
    if s.len() == 0 {
        seq![]
    } else {
        preorder(s.last()) + stack_order(s.drop_last())
    }
}

proof fn lemma_subtrees_within(a: Ast, s: Seq<Ast>)
    requires
        forall|i: int| 0 <= i < s.len() ==> decreases_to!(a => #[trigger] s[i]),
    ensures
        subtrees_within(a, s) == forest(s),
    decreases s.len(),
{
    if s.len() > 0 {
        assert(decreases_to!(a => s[0]));
        lemma_subtrees_within(a, s.drop_first());
    }
}

/// A node comes first in its pre-order, followed by its children's
/// pre-orders, left to right.
pub proof fn lemma_preorder_unfold(a: Ast)
    ensures
        preorder(a) == seq![a] + forest(a.spec_shape().spec_children()),
{
    let kids = a.spec_shape().spec_children();
    assert forall|i: int| 0 <= i < kids.len() implies decreases_to!(a => #[trigger] kids[i]) by {
        lemma_children_decrease(a, i);
    }
    lemma_subtrees_within(a, kids);
}

/// A node without children yields exactly itself.
pub proof fn lemma_preorder_leaf(a: Ast)
    requires
        a.spec_shape().spec_children().len() == 0,
    ensures
        preorder(a) == seq![a],
{
    lemma_preorder_unfold(a);
    assert(preorder(a) =~= seq![a]);
}

/// A pre-order starts with its root.
pub proof fn lemma_preorder_root_first(a: Ast)
    ensures
        preorder(a).len() >= 1,
        preorder(a)[0] == a,
{
    lemma_preorder_unfold(a);
}

impl Ast {
    /// All nodes of the subtree, this one included, in depth-first
    /// pre-order: each node before its children, children left to right.
    /// Works with an explicit stack, so deep trees do not exhaust the call
    /// stack.
    pub fn traverse(&self) -> (r: Vec<Ast>)
        ensures
            r@ == preorder(*self),
    {
        let mut out: Vec<Ast> = Vec::new();
        let mut stack: Vec<Ast> = Vec::new();
        stack.push(self.clone());
        proof {
            assert(stack@.drop_last() =~= Seq::<Ast>::empty());
            assert(stack@.last() == *self);
            assert(stack_order(Seq::<Ast>::empty()) == Seq::<Ast>::empty());
            assert(stack_order(stack@) == preorder(*self) + stack_order(stack@.drop_last()));
            assert(stack_order(stack@) =~= preorder(*self));
            assert(out@ + stack_order(stack@) =~= preorder(*self));
        }
        while stack.len() > 0
            invariant
                out@ + stack_order(stack@) == preorder(*self),
            decreases preorder(*self).len() - out@.len(),
        {
            let node = stack.pop().unwrap();
            let ghost rest = stack@;
            proof {
                lemma_preorder_unfold(node);
            }
            let kids = node.shape().children();
            let mut j: usize = kids.len();
            while j > 0
                invariant
                    j <= kids.len(),
                    stack_order(stack@) == forest(kids@.subrange(j as int, kids@.len() as int))
                        + stack_order(rest),
                decreases j,
            {
                j = j - 1;
                let ghost before = stack@;
                stack.push(kids[j].clone());
                proof {
                    assert(stack@.drop_last() =~= before);
                    assert(kids@.subrange(j as int, kids@.len() as int).drop_first() =~= kids@.subrange(
                        j + 1,
                        kids@.len() as int,
                    ));
                }
            }
            proof {
                assert(kids@.subrange(0, kids@.len() as int) =~= kids@);
                assert(out@.push(node) + stack_order(stack@) =~= out@ + (preorder(node)
                    + stack_order(rest)));
            }
            out.push(node);
        }
        proof {
            assert(out@ + Seq::<Ast>::empty() =~= out@);
        }
        out
    }
}

} // verus!
