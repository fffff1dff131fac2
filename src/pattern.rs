use vstd::prelude::*;
use std::rc::Rc;

use crate::ast::Ast;

verus! {

// === Tree ===

/// A tree whose nodes may hold a value and have any number of children,
/// each reached by a key. Records the admissible segmentations of an
/// ambiguous macro; branch order is the order of insertion.
pub struct Tree<K, V> {
    pub value: Option<V>,
    pub branches: Vec<(K, Tree<K, V>)>,
}

impl<K, V> Tree<K, V> {
    /// Whether this is the leaf that records no ambiguity: no value and no
    /// branches.
    pub fn is_leaf(&self) -> (r: bool)
        ensures
            r == (self.value is None && self.branches@.len() == 0),
    {
        self.value.is_none() && self.branches.len() == 0
    }
}

// === Shifted ===

/// A value preceded by `off` skipped code points.
pub struct Shifted<T> {
    pub wrapped: T,
    pub off: usize,
}

/// A non-empty sequence of values with an offset before each but the first.
pub struct ShiftedVec1<T> {
    pub head: T,
    pub tail: Vec<Shifted<T>>,
}

/// An empty record, written as an empty object on the wire.
pub struct Unit {}

// === Pattern ===

/// Whether a token must be preceded by a space: `None` when either is fine.
pub type Spaced = Option<bool>;

pub type MacroPattern = Rc<MacroPatternRaw>;

/// The grammar of macro segments.
pub enum MacroPatternRaw {
    Begin {},
    End {},
    Nothing {},
    Sequence { pat1: MacroPattern, pat2: MacroPattern },
    Or { pat1: MacroPattern, pat2: MacroPattern },
    Many { pat: MacroPattern },
    Except { not: MacroPattern, pat: MacroPattern },
    Build { pat: MacroPattern },
    Error { msg: String, pat: MacroPattern },
    Tag { tag: String, pat: MacroPattern },
    Cls { cls: PatternClass, pat: MacroPattern },
    Tok { spaced: Spaced, ast: Ast },
    Blank { spaced: Spaced },
    Var { spaced: Spaced },
    Cons { spaced: Spaced },
    Opr { spaced: Spaced, max_prec: Option<usize> },
    Mod { spaced: Spaced },
    Num { spaced: Spaced },
    Text { spaced: Spaced },
    Block { spaced: Spaced },
    Macro { spaced: Spaced },
    Invalid { spaced: Spaced },
}

pub enum PatternClass {
    Normal,
    Pattern,
}

#[allow(inconsistent_fields)]
pub enum Either<L, R> {
    Left { value: L },
    Right { value: R },
}

pub type Switch<T> = Either<T, T>;

pub type MacroPatternMatch<T> = Rc<MacroPatternMatchRaw<T>>;

/// What a pattern matched: the pattern itself and what it captured.
#[allow(inconsistent_fields)]
pub enum MacroPatternMatchRaw<T> {
    Begin { pat: MacroPattern },
    End { pat: MacroPattern },
    Nothing { pat: MacroPattern },
    Sequence { pat: MacroPattern, elem: (MacroPatternMatch<T>, MacroPatternMatch<T>) },
    Or { pat: MacroPattern, elem: Switch<MacroPatternMatch<T>> },
    Many { pat: MacroPattern, elem: Vec<MacroPatternMatch<T>> },
    Except { pat: MacroPattern, elem: MacroPatternMatch<T> },
    Build { pat: MacroPattern, elem: T },
    Error { pat: MacroPattern, elem: T },
    Tag { pat: MacroPattern, elem: MacroPatternMatch<T> },
    Cls { pat: MacroPattern, elem: MacroPatternMatch<T> },
    Tok { pat: MacroPattern, elem: T },
    Blank { pat: MacroPattern, elem: T },
    Var { pat: MacroPattern, elem: T },
    Cons { pat: MacroPattern, elem: T },
    Opr { pat: MacroPattern, elem: T },
    Mod { pat: MacroPattern, elem: T },
    Num { pat: MacroPattern, elem: T },
    Text { pat: MacroPattern, elem: T },
    Block { pat: MacroPattern, elem: T },
    Macro { pat: MacroPattern, elem: T },
    Invalid { pat: MacroPattern, elem: T },
}

impl<T> MacroPatternMatchRaw<T> {
    pub open spec fn spec_pattern(&self) -> MacroPatternRaw {
        match self {
            MacroPatternMatchRaw::Begin { pat } => **pat,
            MacroPatternMatchRaw::End { pat } => **pat,
            MacroPatternMatchRaw::Nothing { pat } => **pat,
            MacroPatternMatchRaw::Sequence { pat, .. } => **pat,
            MacroPatternMatchRaw::Or { pat, .. } => **pat,
            MacroPatternMatchRaw::Many { pat, .. } => **pat,
            MacroPatternMatchRaw::Except { pat, .. } => **pat,
            MacroPatternMatchRaw::Build { pat, .. } => **pat,
            MacroPatternMatchRaw::Error { pat, .. } => **pat,
            MacroPatternMatchRaw::Tag { pat, .. } => **pat,
            MacroPatternMatchRaw::Cls { pat, .. } => **pat,
            MacroPatternMatchRaw::Tok { pat, .. } => **pat,
            MacroPatternMatchRaw::Blank { pat, .. } => **pat,
            MacroPatternMatchRaw::Var { pat, .. } => **pat,
            MacroPatternMatchRaw::Cons { pat, .. } => **pat,
            MacroPatternMatchRaw::Opr { pat, .. } => **pat,
            MacroPatternMatchRaw::Mod { pat, .. } => **pat,
            MacroPatternMatchRaw::Num { pat, .. } => **pat,
            MacroPatternMatchRaw::Text { pat, .. } => **pat,
            MacroPatternMatchRaw::Block { pat, .. } => **pat,
            MacroPatternMatchRaw::Macro { pat, .. } => **pat,
            MacroPatternMatchRaw::Invalid { pat, .. } => **pat,
        }
    }

    /// The grammar node that produced this match.
    pub fn pattern(&self) -> (r: &MacroPattern)
        ensures
            **r == self.spec_pattern(),
    {
        match self {
            MacroPatternMatchRaw::Begin { pat } => pat,
            MacroPatternMatchRaw::End { pat } => pat,
            MacroPatternMatchRaw::Nothing { pat } => pat,
            MacroPatternMatchRaw::Sequence { pat, .. } => pat,
            MacroPatternMatchRaw::Or { pat, .. } => pat,
            MacroPatternMatchRaw::Many { pat, .. } => pat,
            MacroPatternMatchRaw::Except { pat, .. } => pat,
            MacroPatternMatchRaw::Build { pat, .. } => pat,
            MacroPatternMatchRaw::Error { pat, .. } => pat,
            MacroPatternMatchRaw::Tag { pat, .. } => pat,
            MacroPatternMatchRaw::Cls { pat, .. } => pat,
            MacroPatternMatchRaw::Tok { pat, .. } => pat,
            MacroPatternMatchRaw::Blank { pat, .. } => pat,
            MacroPatternMatchRaw::Var { pat, .. } => pat,
            MacroPatternMatchRaw::Cons { pat, .. } => pat,
            MacroPatternMatchRaw::Opr { pat, .. } => pat,
            MacroPatternMatchRaw::Mod { pat, .. } => pat,
            MacroPatternMatchRaw::Num { pat, .. } => pat,
            MacroPatternMatchRaw::Text { pat, .. } => pat,
            MacroPatternMatchRaw::Block { pat, .. } => pat,
            MacroPatternMatchRaw::Macro { pat, .. } => pat,
            MacroPatternMatchRaw::Invalid { pat, .. } => pat,
        }
    }

    /// The grammar node held is of the kind of this match, and each
    /// sub-match was produced by the sub-pattern in its place.
    pub open spec fn is_consistent(&self) -> bool {
        match self {
            MacroPatternMatchRaw::Begin { pat } => **pat is Begin,
            MacroPatternMatchRaw::End { pat } => **pat is End,
            MacroPatternMatchRaw::Nothing { pat } => **pat is Nothing,
            MacroPatternMatchRaw::Sequence { pat, elem } => match **pat {
                MacroPatternRaw::Sequence { pat1, pat2 } => elem.0.spec_pattern() == *pat1
                    && elem.1.spec_pattern() == *pat2,
                _ => false,
            },
            MacroPatternMatchRaw::Or { pat, elem } => match **pat {
                MacroPatternRaw::Or { pat1, pat2 } => match elem {
                    Either::Left { value } => value.spec_pattern() == *pat1,
                    Either::Right { value } => value.spec_pattern() == *pat2,
                },
                _ => false,
            },
            MacroPatternMatchRaw::Many { pat, elem } => match **pat {
                MacroPatternRaw::Many { pat } => forall|i: int|
                    0 <= i < elem@.len() ==> (#[trigger] elem@[i]).spec_pattern() == *pat,
                _ => false,
            },
            MacroPatternMatchRaw::Except { pat, elem } => match **pat {
                MacroPatternRaw::Except { pat, .. } => elem.spec_pattern() == *pat,
                _ => false,
            },
            MacroPatternMatchRaw::Tag { pat, elem } => match **pat {
                MacroPatternRaw::Tag { pat, .. } => elem.spec_pattern() == *pat,
                _ => false,
            },
            MacroPatternMatchRaw::Cls { pat, elem } => match **pat {
                MacroPatternRaw::Cls { pat, .. } => elem.spec_pattern() == *pat,
                _ => false,
            },
            MacroPatternMatchRaw::Build { pat, .. } => **pat is Build,
            MacroPatternMatchRaw::Error { pat, .. } => **pat is Error,
            MacroPatternMatchRaw::Tok { pat, .. } => **pat is Tok,
            MacroPatternMatchRaw::Blank { pat, .. } => **pat is Blank,
            MacroPatternMatchRaw::Var { pat, .. } => **pat is Var,
            MacroPatternMatchRaw::Cons { pat, .. } => **pat is Cons,
            MacroPatternMatchRaw::Opr { pat, .. } => **pat is Opr,
            MacroPatternMatchRaw::Mod { pat, .. } => **pat is Mod,
            MacroPatternMatchRaw::Num { pat, .. } => **pat is Num,
            MacroPatternMatchRaw::Text { pat, .. } => **pat is Text,
            MacroPatternMatchRaw::Block { pat, .. } => **pat is Block,
            MacroPatternMatchRaw::Macro { pat, .. } => **pat is Macro,
            MacroPatternMatchRaw::Invalid { pat, .. } => **pat is Invalid,
        }
    }
}

/// A segment of a resolved macro: its head token and what its body matched.
pub struct MacroMatchSegment {
    pub head: Ast,
    pub body: MacroPatternMatch<Shifted<Ast>>,
}

/// A segment of an unresolved macro: its head token and its raw body.
pub struct MacroAmbiguousSegment {
    pub head: Ast,
    pub body: Option<Shifted<Ast>>,
}


// === Captured elements ===

/// The match that a shared handle points to.
pub open spec fn inner(r: MacroPatternMatch<Shifted<Ast>>) -> MacroPatternMatchRaw<Shifted<Ast>> {
    *r
}

/// The nodes that a match captured, left to right.
pub open spec fn match_elems(m: MacroPatternMatchRaw<Shifted<Ast>>) -> Seq<Ast>
    decreases m, 1nat, 0nat,
{
    match m {
        MacroPatternMatchRaw::Sequence { elem, .. } => if decreases_to!(m => *elem.0)
            && decreases_to!(m => *elem.1) {
            match_elems(*elem.0) + match_elems(*elem.1)
        } else {
            seq![]
        },
        MacroPatternMatchRaw::Or { elem, .. } => match elem {
            Either::Left { value } => if decreases_to!(m => *value) {
                match_elems(*value)
            } else {
                seq![]
            },
            Either::Right { value } => if decreases_to!(m => *value) {
                match_elems(*value)
            } else {
                seq![]
            },
        },
        MacroPatternMatchRaw::Many { elem, .. } => many_elems(m, elem@),
        MacroPatternMatchRaw::Except { elem, .. } | MacroPatternMatchRaw::Tag { elem, .. }
        | MacroPatternMatchRaw::Cls { elem, .. } => if decreases_to!(m => *elem) {
            match_elems(*elem)
        } else {
            seq![]
        },
        MacroPatternMatchRaw::Build { elem, .. } | MacroPatternMatchRaw::Error { elem, .. }
        | MacroPatternMatchRaw::Tok { elem, .. } | MacroPatternMatchRaw::Blank { elem, .. }
        | MacroPatternMatchRaw::Var { elem, .. } | MacroPatternMatchRaw::Cons { elem, .. }
        | MacroPatternMatchRaw::Opr { elem, .. } | MacroPatternMatchRaw::Mod { elem, .. }
        | MacroPatternMatchRaw::Num { elem, .. } | MacroPatternMatchRaw::Text { elem, .. }
        | MacroPatternMatchRaw::Block { elem, .. } | MacroPatternMatchRaw::Macro { elem, .. }
        | MacroPatternMatchRaw::Invalid { elem, .. } => seq![elem.wrapped],
        _ => seq![],
    }
}

/// The nodes captured by the repetitions `s` of the match `m`, in order.
pub open spec fn many_elems(
    m: MacroPatternMatchRaw<Shifted<Ast>>,
    s: Seq<MacroPatternMatch<Shifted<Ast>>>,
) -> Seq<Ast>
    decreases m, 0nat, s.len(),
{
    if s.len() == 0 {
        seq![]
    } else if decreases_to!(m => *s.last()) {
        many_elems(m, s.drop_last()) + match_elems(*s.last())
    } else {
        seq![]
    }
}

/// Appends the nodes that `m` captured.
pub fn push_match_elems(m: &MacroPatternMatchRaw<Shifted<Ast>>, out: &mut Vec<Ast>)
    ensures
        final(out)@ == old(out)@ + match_elems(*m),
    decreases *m,
{
    match m {
        MacroPatternMatchRaw::Sequence { elem, .. } => {
            push_match_elems(&*elem.0, out);
            push_match_elems(&*elem.1, out);
            proof {
                assert(final(out)@ =~= old(out)@ + match_elems(*m));
            }
        },
        MacroPatternMatchRaw::Or { elem, .. } => match elem {
            Either::Left { value } => push_match_elems(&**value, out),
            Either::Right { value } => push_match_elems(&**value, out),
        },
        MacroPatternMatchRaw::Many { elem, .. } => {
            let mut i: usize = 0;
            while i < elem.len()
                invariant
                    i <= elem.len(),
                    *m matches MacroPatternMatchRaw::Many { elem: e, .. } && e == *elem,
                    out@ == old(out)@ + many_elems(*m, elem@.take(i as int)),
                decreases elem.len() - i,
            {
                proof {
                    assert(decreases_to!(*elem => elem[i as int]));
                    assert(elem@.take(i + 1).drop_last() =~= elem@.take(i as int));
                    assert(elem@.take(i + 1).last() == elem@[i as int]);
                }
                push_match_elems(&*elem[i], out);
                i = i + 1;
            }
            proof {
                assert(elem@.take(elem.len() as int) =~= elem@);
            }
        },
        MacroPatternMatchRaw::Except { elem, .. } => push_match_elems(&**elem, out),
        MacroPatternMatchRaw::Tag { elem, .. } => push_match_elems(&**elem, out),
        MacroPatternMatchRaw::Cls { elem, .. } => push_match_elems(&**elem, out),
        MacroPatternMatchRaw::Build { elem, .. } | MacroPatternMatchRaw::Error { elem, .. }
        | MacroPatternMatchRaw::Tok { elem, .. } | MacroPatternMatchRaw::Blank { elem, .. }
        | MacroPatternMatchRaw::Var { elem, .. } | MacroPatternMatchRaw::Cons { elem, .. }
        | MacroPatternMatchRaw::Opr { elem, .. } | MacroPatternMatchRaw::Mod { elem, .. }
        | MacroPatternMatchRaw::Num { elem, .. } | MacroPatternMatchRaw::Text { elem, .. }
        | MacroPatternMatchRaw::Block { elem, .. } | MacroPatternMatchRaw::Macro { elem, .. }
        | MacroPatternMatchRaw::Invalid { elem, .. } => {
            out.push(elem.wrapped.clone());
            proof {
                assert(final(out)@ =~= old(out)@ + match_elems(*m));
            }
        },
        _ => {
            proof {
                assert(final(out)@ =~= old(out)@ + match_elems(*m));
            }
        },
    }
}


/// Every captured node lies strictly inside the match.
pub proof fn lemma_match_elems_decrease(m: MacroPatternMatchRaw<Shifted<Ast>>, k: int)
    requires
        0 <= k < match_elems(m).len(),
    ensures
        decreases_to!(m => match_elems(m)[k]),
    decreases m, 1nat, 0nat,
{
    match m {
        MacroPatternMatchRaw::Sequence { elem, .. } => {
            let n = match_elems(inner(elem.0)).len();
            if k < n {
                lemma_match_elems_decrease(inner(elem.0), k);
            } else {
                lemma_match_elems_decrease(inner(elem.1), k - n);
            }
        },
        MacroPatternMatchRaw::Or { elem, .. } => match elem {
            Either::Left { value } => lemma_match_elems_decrease(inner(value), k),
            Either::Right { value } => lemma_match_elems_decrease(inner(value), k),
        },
        MacroPatternMatchRaw::Many { elem, .. } => lemma_many_elems_decrease(m, elem@, k),
        MacroPatternMatchRaw::Except { elem, .. } | MacroPatternMatchRaw::Tag { elem, .. }
        | MacroPatternMatchRaw::Cls { elem, .. } => lemma_match_elems_decrease(inner(elem), k),
        _ => {},
    }
}

proof fn lemma_many_elems_decrease(
    m: MacroPatternMatchRaw<Shifted<Ast>>,
    s: Seq<MacroPatternMatch<Shifted<Ast>>>,
    k: int,
)
    requires
        0 <= k < many_elems(m, s).len(),
    ensures
        decreases_to!(m => many_elems(m, s)[k]),
    decreases m, 0nat, s.len(),
{
    let n = many_elems(m, s.drop_last()).len();
    if k < n {
        lemma_many_elems_decrease(m, s.drop_last(), k);
    } else {
        lemma_match_elems_decrease(inner(s.last()), k - n);
    }
}

} // verus!
