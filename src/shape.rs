use vstd::prelude::*;

use crate::ast::Ast;
use crate::pattern::{
    inner, lemma_match_elems_decrease, match_elems, push_match_elems, MacroAmbiguousSegment, MacroMatchSegment, MacroPatternMatch, Shifted, ShiftedVec1, Tree, Unit,
};
use crate::span::{
    HasSpan, lemma_sum_prefix_le, lemma_sum_take_step, seq_span, sum_counts, sum_nat, vec_span,
    vec_sum,
};
use crate::text::{
    Builder, SegmentFmt, TextBlockLine, TextBlockFmt, TextBlockRaw, TextLine, TextLineFmt, TextLineRaw, TextUnclosed,
};

verus! {

// === Identifiers and invalid input ===

pub struct Unrecognized {
    pub str: String,
}

pub struct InvalidQuote {
    pub quote: Builder,
}

pub struct InlineBlock {
    pub quote: Builder,
}

/// The blank identifier `_`.
pub struct Blank {}

pub struct Var {
    pub name: String,
}

pub struct Cons {
    pub name: String,
}

pub struct Opr {
    pub name: String,
}

pub struct Mod {
    pub name: String,
}

pub struct InvalidSuffix {
    pub elem: Ast,
    pub suffix: String,
}

// === Numbers ===

/// Digits with an optional base, written `base_digits`.
pub struct Number {
    pub base: Option<String>,
    pub int: String,
}

/// A base followed by its separator and no digits.
pub struct DanglingBase {
    pub base: String,
}

// === Applications ===

pub struct Prefix {
    pub func: Ast,
    pub off: usize,
    pub arg: Ast,
}

pub struct Infix {
    pub larg: Ast,
    pub loff: usize,
    pub opr: Ast,
    pub roff: usize,
    pub rarg: Ast,
}

pub struct SectionLeft {
    pub arg: Ast,
    pub off: usize,
    pub opr: Ast,
}

pub struct SectionRight {
    pub opr: Ast,
    pub off: usize,
    pub arg: Ast,
}

pub struct SectionSides {
    pub opr: Ast,
}

// === Module and blocks ===

pub enum BlockType {
    Continuous {},
    Discontinuous {},
}

/// A line of a module or block: its element and the offset after it.
pub struct BlockLine<T> {
    pub elem: T,
    pub off: usize,
}

impl<T: HasSpan> HasSpan for BlockLine<T> {
    open spec fn spec_span(&self) -> nat {
        self.elem.spec_span() + self.off as nat
    }

    fn span(&self) -> (r: usize) {
        self.elem.span() + self.off
    }
}

pub struct Module {
    pub lines: Vec<BlockLine<Option<Ast>>>,
}

pub struct Block {
    pub ty: BlockType,
    pub indent: usize,
    pub empty_lines: Vec<usize>,
    pub first_line: BlockLine<Ast>,
    pub lines: Vec<BlockLine<Option<Ast>>>,
    pub is_orphan: bool,
}

/// Span of a block line after the first: a newline, the indentation when the
/// line holds an element, and the line itself.
pub open spec fn block_tail_line_span(line: BlockLine<Option<Ast>>, indent: usize) -> nat {
    1 + (if line.elem is Some { indent as nat } else { 0 }) + line.spec_span()
}

pub open spec fn block_tail_spans(lines: Seq<BlockLine<Option<Ast>>>, indent: usize) -> Seq<nat> {
    lines.map_values(|l: BlockLine<Option<Ast>>| block_tail_line_span(l, indent))
}

impl Block {
    pub open spec fn spec_span(&self) -> nat {
        (if self.is_orphan { 0nat } else { 1nat }) + sum_counts(self.empty_lines@)
            + self.empty_lines@.len() + self.indent as nat + self.first_line.spec_span()
            + sum_nat(block_tail_spans(self.lines@, self.indent))
    }

    /// Span of the lines after the first.
    fn tail_span(&self) -> (r: usize)
        requires
            sum_nat(block_tail_spans(self.lines@, self.indent)) <= usize::MAX,
        ensures
            r == sum_nat(block_tail_spans(self.lines@, self.indent)),
    {
        let ghost spans = block_tail_spans(self.lines@, self.indent);
        let mut acc: usize = 0;
        let mut i: usize = 0;
        while i < self.lines.len()
            invariant
                i <= self.lines.len(),
                spans == block_tail_spans(self.lines@, self.indent),
                acc == sum_nat(spans.take(i as int)),
                sum_nat(spans) <= usize::MAX,
            decreases self.lines.len() - i,
        {
            proof {
                lemma_sum_take_step(spans, i as int);
                lemma_sum_prefix_le(spans, i + 1);
            }
            let line = &self.lines[i];
            let indent = match &line.elem {
                Some(_) => self.indent,
                None => 0,
            };
            acc = acc + 1 + indent + line.span();
            i = i + 1;
        }
        proof {
            assert(spans.take(self.lines.len() as int) =~= spans);
        }
        acc
    }

    pub fn span(&self) -> (r: usize)
        requires
            self.spec_span() <= usize::MAX,
        ensures
            r == self.spec_span(),
    {
        let head: usize = if self.is_orphan { 0 } else { 1 };
        let gaps = vec_sum(&self.empty_lines) + self.empty_lines.len();
        let first = self.indent + self.first_line.span();
        head + gaps + first + self.tail_span()
    }
}

// === Macros ===

pub struct Match {
    pub pfx: Option<MacroPatternMatch<Shifted<Ast>>>,
    pub segs: ShiftedVec1<MacroMatchSegment>,
    pub resolved: Ast,
}

pub struct Ambiguous {
    pub segs: ShiftedVec1<MacroAmbiguousSegment>,
    pub paths: Tree<Ast, Unit>,
}

// === Spaceless forms ===

pub struct Comment {
    pub lines: Vec<String>,
}

pub struct Import {
    pub path: Vec<Ast>,
}

pub struct Mixfix {
    pub name: Vec<Ast>,
    pub args: Vec<Ast>,
}

pub struct Group {
    pub body: Option<Ast>,
}

pub struct Def {
    pub name: Ast,
    pub args: Vec<Ast>,
    pub body: Option<Ast>,
}

pub struct Foreign {
    pub indent: usize,
    pub lang: String,
    pub code: Vec<String>,
}

// === Shape ===

/// The kind of a syntax-tree node and its fields, without span or identity.
pub enum Shape {
    Unrecognized(Unrecognized),
    InvalidQuote(InvalidQuote),
    InlineBlock(InlineBlock),
    Blank(Blank),
    Var(Var),
    Cons(Cons),
    Opr(Opr),
    Mod(Mod),
    InvalidSuffix(InvalidSuffix),
    Number(Number),
    DanglingBase(DanglingBase),
    TextLineRaw(TextLineRaw),
    TextLineFmt(TextLineFmt),
    TextBlockRaw(TextBlockRaw),
    TextBlockFmt(TextBlockFmt),
    TextUnclosed(TextUnclosed),
    Prefix(Prefix),
    Infix(Infix),
    SectionLeft(SectionLeft),
    SectionRight(SectionRight),
    SectionSides(SectionSides),
    Module(Module),
    Block(Block),
    Match(Match),
    Ambiguous(Ambiguous),
    Comment(Comment),
    Import(Import),
    Mixfix(Mixfix),
    Group(Group),
    Def(Def),
    Foreign(Foreign),
}

/// Raised for a shape whose span has no rule: macro results and the
/// spaceless forms.
pub struct UnspecifiedSpan {}

impl Shape {
    /// Whether the span of this shape has a rule. A module has one only when
    /// it holds at least one line.
    pub open spec fn span_defined(&self) -> bool {
        match self {
            Shape::Module(m) => m.lines@.len() >= 1,
            Shape::Match(_) | Shape::Ambiguous(_) | Shape::Comment(_) | Shape::Import(_)
            | Shape::Mixfix(_) | Shape::Group(_) | Shape::Def(_) | Shape::Foreign(_) => false,
            _ => true,
        }
    }

    /// Length of the node's source text in code points, where defined.
    pub open spec fn spec_span(&self) -> nat {
        match self {
            Shape::Unrecognized(v) => v.str@.len(),
            Shape::InvalidQuote(v) => v.quote.spec_span(),
            Shape::InlineBlock(v) => v.quote.spec_span(),
            Shape::Blank(_) => 1,
            Shape::Var(v) => v.name@.len(),
            Shape::Cons(v) => v.name@.len(),
            Shape::Opr(v) => v.name@.len(),
            Shape::Mod(v) => v.name@.len(),
            Shape::InvalidSuffix(v) => v.elem.spec_span() + v.suffix@.len(),
            Shape::Number(v) => match v.base {
                Some(b) => b@.len() + 1 + v.int@.len(),
                None => v.int@.len(),
            },
            Shape::DanglingBase(v) => v.base@.len() + 1,
            Shape::TextLineRaw(v) => v.spec_span(),
            Shape::TextLineFmt(v) => v.spec_span(),
            Shape::TextBlockRaw(v) => v.spec_span(),
            Shape::TextBlockFmt(v) => v.spec_span(),
            Shape::TextUnclosed(v) => v.spec_span(),
            Shape::Prefix(v) => v.func.spec_span() + v.off as nat + v.arg.spec_span(),
            Shape::Infix(v) => v.larg.spec_span() + v.loff as nat + v.opr.spec_span()
                + v.roff as nat + v.rarg.spec_span(),
            Shape::SectionLeft(v) => v.arg.spec_span() + v.off as nat + v.opr.spec_span(),
            Shape::SectionRight(v) => v.opr.spec_span() + v.off as nat + v.arg.spec_span(),
            Shape::SectionSides(v) => v.opr.spec_span(),
            Shape::Module(v) => (seq_span(v.lines@) + v.lines@.len() - 1) as nat,
            Shape::Block(v) => v.spec_span(),
            _ => 0,
        }
    }

    /// Computes the span of a shape that has a rule for it.
    pub fn span(&self) -> (r: usize)
        requires
            self.span_defined(),
            self.spec_span() <= usize::MAX,
        ensures
            r == self.spec_span(),
    {
        match self {
            Shape::Unrecognized(v) => v.str.span(),
            Shape::InvalidQuote(v) => v.quote.span(),
            Shape::InlineBlock(v) => v.quote.span(),
            Shape::Blank(_) => 1,
            Shape::Var(v) => v.name.span(),
            Shape::Cons(v) => v.name.span(),
            Shape::Opr(v) => v.name.span(),
            Shape::Mod(v) => v.name.span(),
            Shape::InvalidSuffix(v) => v.elem.span() + v.suffix.span(),
            Shape::Number(v) => {
                let base = match &v.base {
                    Some(b) => b.span() + 1,
                    None => 0,
                };
                base + v.int.span()
            },
            Shape::DanglingBase(v) => v.base.span() + 1,
            Shape::TextLineRaw(v) => v.span(),
            Shape::TextLineFmt(v) => v.span(),
            Shape::TextBlockRaw(v) => v.span(),
            Shape::TextBlockFmt(v) => v.span(),
            Shape::TextUnclosed(v) => v.span(),
            Shape::Prefix(v) => v.func.span() + v.off + v.arg.span(),
            Shape::Infix(v) => v.larg.span() + v.loff + v.opr.span() + v.roff + v.rarg.span(),
            Shape::SectionLeft(v) => v.arg.span() + v.off + v.opr.span(),
            Shape::SectionRight(v) => v.opr.span() + v.off + v.arg.span(),
            Shape::SectionSides(v) => v.opr.span(),
            Shape::Module(v) => vec_span(&v.lines) + (v.lines.len() - 1),
            Shape::Block(v) => v.span(),
            _ => 0,
        }
    }

    /// Computes the span, or reports that this shape has no rule for it.
    pub fn try_span(&self) -> (r: Result<usize, UnspecifiedSpan>)
        requires
            self.span_defined() ==> self.spec_span() <= usize::MAX,
        ensures
            r is Ok <==> self.span_defined(),
            r is Ok ==> r->Ok_0 == self.spec_span(),
    {
        if self.has_span_rule() {
            Ok(self.span())
        } else {
            Err(UnspecifiedSpan {  })
        }
    }

    /// Whether this shape has a rule for its span.
    pub fn has_span_rule(&self) -> (r: bool)
        ensures
            r == self.span_defined(),
    {
        match self {
            Shape::Module(m) => m.lines.len() >= 1,
            Shape::Match(_) | Shape::Ambiguous(_) | Shape::Comment(_) | Shape::Import(_)
            | Shape::Mixfix(_) | Shape::Group(_) | Shape::Def(_) | Shape::Foreign(_) => false,
            _ => true,
        }
    }
}


// === Variants ===

/// Raised when a shape is narrowed to a variant that it does not hold.
pub struct WrongEnum {
    pub expected_con: String,
}

/// A record that stands for one variant of `Shape`: it widens into the
/// shape, and a shape narrows back into it when it holds that variant.
pub trait ShapeVariant: Sized {
    spec fn spec_widen(self) -> Shape;

    spec fn spec_narrow(shape: Shape) -> Option<Self>;

    /// Name of the variant.
    spec fn spec_name() -> Seq<char>;

    fn widen(self) -> (r: Shape)
        ensures
            r == self.spec_widen(),
    ;

    fn narrow(shape: Shape) -> (r: Result<Self, WrongEnum>)
        ensures
            match Self::spec_narrow(shape) {
                Some(v) => r == Ok::<Self, WrongEnum>(v),
                None => r is Err && r->Err_0.expected_con@ == Self::spec_name(),
            },
    ;

    proof fn lemma_narrow_widen(v: Self)
        ensures
            Self::spec_narrow(v.spec_widen()) == Some(v),
    ;

    proof fn lemma_widen_narrow(shape: Shape)
        ensures
            Self::spec_narrow(shape) matches Some(v) ==> v.spec_widen() == shape,
    ;
}

impl ShapeVariant for Unrecognized {
    open spec fn spec_widen(self) -> Shape {
        Shape::Unrecognized(self)
    }

    open spec fn spec_narrow(shape: Shape) -> Option<Self> {
        match shape {
            Shape::Unrecognized(v) => Some(v),
            _ => None,
        }
    }

    open spec fn spec_name() -> Seq<char> {
        "Unrecognized"@
    }

    fn widen(self) -> (r: Shape) {
        Shape::Unrecognized(self)
    }

    fn narrow(shape: Shape) -> (r: Result<Self, WrongEnum>) {
        match shape {
            Shape::Unrecognized(v) => Ok(v),
            _ => Err(WrongEnum { expected_con: "Unrecognized".to_owned() }),
        }
    }

    proof fn lemma_narrow_widen(v: Self) {
    }

    proof fn lemma_widen_narrow(shape: Shape) {
    }
}

impl ShapeVariant for InvalidQuote {
    open spec fn spec_widen(self) -> Shape {
        Shape::InvalidQuote(self)
    }

    open spec fn spec_narrow(shape: Shape) -> Option<Self> {
        match shape {
            Shape::InvalidQuote(v) => Some(v),
            _ => None,
        }
    }

    open spec fn spec_name() -> Seq<char> {
        "InvalidQuote"@
    }

    fn widen(self) -> (r: Shape) {
        Shape::InvalidQuote(self)
    }

    fn narrow(shape: Shape) -> (r: Result<Self, WrongEnum>) {
        match shape {
            Shape::InvalidQuote(v) => Ok(v),
            _ => Err(WrongEnum { expected_con: "InvalidQuote".to_owned() }),
        }
    }

    proof fn lemma_narrow_widen(v: Self) {
    }

    proof fn lemma_widen_narrow(shape: Shape) {
    }
}

impl ShapeVariant for InlineBlock {
    open spec fn spec_widen(self) -> Shape {
        Shape::InlineBlock(self)
    }

    open spec fn spec_narrow(shape: Shape) -> Option<Self> {
        match shape {
            Shape::InlineBlock(v) => Some(v),
            _ => None,
        }
    }

    open spec fn spec_name() -> Seq<char> {
        "InlineBlock"@
    }

    fn widen(self) -> (r: Shape) {
        Shape::InlineBlock(self)
    }

    fn narrow(shape: Shape) -> (r: Result<Self, WrongEnum>) {
        match shape {
            Shape::InlineBlock(v) => Ok(v),
            _ => Err(WrongEnum { expected_con: "InlineBlock".to_owned() }),
        }
    }

    proof fn lemma_narrow_widen(v: Self) {
    }

    proof fn lemma_widen_narrow(shape: Shape) {
    }
}

impl ShapeVariant for Blank {
    open spec fn spec_widen(self) -> Shape {
        Shape::Blank(self)
    }

    open spec fn spec_narrow(shape: Shape) -> Option<Self> {
        match shape {
            Shape::Blank(v) => Some(v),
            _ => None,
        }
    }

    open spec fn spec_name() -> Seq<char> {
        "Blank"@
    }

    fn widen(self) -> (r: Shape) {
        Shape::Blank(self)
    }

    fn narrow(shape: Shape) -> (r: Result<Self, WrongEnum>) {
        match shape {
            Shape::Blank(v) => Ok(v),
            _ => Err(WrongEnum { expected_con: "Blank".to_owned() }),
        }
    }

    proof fn lemma_narrow_widen(v: Self) {
    }

    proof fn lemma_widen_narrow(shape: Shape) {
    }
}

impl ShapeVariant for Var {
    open spec fn spec_widen(self) -> Shape {
        Shape::Var(self)
    }

    open spec fn spec_narrow(shape: Shape) -> Option<Self> {
        match shape {
            Shape::Var(v) => Some(v),
            _ => None,
        }
    }

    open spec fn spec_name() -> Seq<char> {
        "Var"@
    }

    fn widen(self) -> (r: Shape) {
        Shape::Var(self)
    }

    fn narrow(shape: Shape) -> (r: Result<Self, WrongEnum>) {
        match shape {
            Shape::Var(v) => Ok(v),
            _ => Err(WrongEnum { expected_con: "Var".to_owned() }),
        }
    }

    proof fn lemma_narrow_widen(v: Self) {
    }

    proof fn lemma_widen_narrow(shape: Shape) {
    }
}

impl ShapeVariant for Cons {
    open spec fn spec_widen(self) -> Shape {
        Shape::Cons(self)
    }

    open spec fn spec_narrow(shape: Shape) -> Option<Self> {
        match shape {
            Shape::Cons(v) => Some(v),
            _ => None,
        }
    }

    open spec fn spec_name() -> Seq<char> {
        "Cons"@
    }

    fn widen(self) -> (r: Shape) {
        Shape::Cons(self)
    }

    fn narrow(shape: Shape) -> (r: Result<Self, WrongEnum>) {
        match shape {
            Shape::Cons(v) => Ok(v),
            _ => Err(WrongEnum { expected_con: "Cons".to_owned() }),
        }
    }

    proof fn lemma_narrow_widen(v: Self) {
    }

    proof fn lemma_widen_narrow(shape: Shape) {
    }
}

impl ShapeVariant for Opr {
    open spec fn spec_widen(self) -> Shape {
        Shape::Opr(self)
    }

    open spec fn spec_narrow(shape: Shape) -> Option<Self> {
        match shape {
            Shape::Opr(v) => Some(v),
            _ => None,
        }
    }

    open spec fn spec_name() -> Seq<char> {
        "Opr"@
    }

    fn widen(self) -> (r: Shape) {
        Shape::Opr(self)
    }

    fn narrow(shape: Shape) -> (r: Result<Self, WrongEnum>) {
        match shape {
            Shape::Opr(v) => Ok(v),
            _ => Err(WrongEnum { expected_con: "Opr".to_owned() }),
        }
    }

    proof fn lemma_narrow_widen(v: Self) {
    }

    proof fn lemma_widen_narrow(shape: Shape) {
    }
}

impl ShapeVariant for Mod {
    open spec fn spec_widen(self) -> Shape {
        Shape::Mod(self)
    }

    open spec fn spec_narrow(shape: Shape) -> Option<Self> {
        match shape {
            Shape::Mod(v) => Some(v),
            _ => None,
        }
    }

    open spec fn spec_name() -> Seq<char> {
        "Mod"@
    }

    fn widen(self) -> (r: Shape) {
        Shape::Mod(self)
    }

    fn narrow(shape: Shape) -> (r: Result<Self, WrongEnum>) {
        match shape {
            Shape::Mod(v) => Ok(v),
            _ => Err(WrongEnum { expected_con: "Mod".to_owned() }),
        }
    }

    proof fn lemma_narrow_widen(v: Self) {
    }

    proof fn lemma_widen_narrow(shape: Shape) {
    }
}

impl ShapeVariant for InvalidSuffix {
    open spec fn spec_widen(self) -> Shape {
        Shape::InvalidSuffix(self)
    }

    open spec fn spec_narrow(shape: Shape) -> Option<Self> {
        match shape {
            Shape::InvalidSuffix(v) => Some(v),
            _ => None,
        }
    }

    open spec fn spec_name() -> Seq<char> {
        "InvalidSuffix"@
    }

    fn widen(self) -> (r: Shape) {
        Shape::InvalidSuffix(self)
    }

    fn narrow(shape: Shape) -> (r: Result<Self, WrongEnum>) {
        match shape {
            Shape::InvalidSuffix(v) => Ok(v),
            _ => Err(WrongEnum { expected_con: "InvalidSuffix".to_owned() }),
        }
    }

    proof fn lemma_narrow_widen(v: Self) {
    }

    proof fn lemma_widen_narrow(shape: Shape) {
    }
}

impl ShapeVariant for Number {
    open spec fn spec_widen(self) -> Shape {
        Shape::Number(self)
    }

    open spec fn spec_narrow(shape: Shape) -> Option<Self> {
        match shape {
            Shape::Number(v) => Some(v),
            _ => None,
        }
    }

    open spec fn spec_name() -> Seq<char> {
        "Number"@
    }

    fn widen(self) -> (r: Shape) {
        Shape::Number(self)
    }

    fn narrow(shape: Shape) -> (r: Result<Self, WrongEnum>) {
        match shape {
            Shape::Number(v) => Ok(v),
            _ => Err(WrongEnum { expected_con: "Number".to_owned() }),
        }
    }

    proof fn lemma_narrow_widen(v: Self) {
    }

    proof fn lemma_widen_narrow(shape: Shape) {
    }
}

impl ShapeVariant for DanglingBase {
    open spec fn spec_widen(self) -> Shape {
        Shape::DanglingBase(self)
    }

    open spec fn spec_narrow(shape: Shape) -> Option<Self> {
        match shape {
            Shape::DanglingBase(v) => Some(v),
            _ => None,
        }
    }

    open spec fn spec_name() -> Seq<char> {
        "DanglingBase"@
    }

    fn widen(self) -> (r: Shape) {
        Shape::DanglingBase(self)
    }

    fn narrow(shape: Shape) -> (r: Result<Self, WrongEnum>) {
        match shape {
            Shape::DanglingBase(v) => Ok(v),
            _ => Err(WrongEnum { expected_con: "DanglingBase".to_owned() }),
        }
    }

    proof fn lemma_narrow_widen(v: Self) {
    }

    proof fn lemma_widen_narrow(shape: Shape) {
    }
}

impl ShapeVariant for TextLineRaw {
    open spec fn spec_widen(self) -> Shape {
        Shape::TextLineRaw(self)
    }

    open spec fn spec_narrow(shape: Shape) -> Option<Self> {
        match shape {
            Shape::TextLineRaw(v) => Some(v),
            _ => None,
        }
    }

    open spec fn spec_name() -> Seq<char> {
        "TextLineRaw"@
    }

    fn widen(self) -> (r: Shape) {
        Shape::TextLineRaw(self)
    }

    fn narrow(shape: Shape) -> (r: Result<Self, WrongEnum>) {
        match shape {
            Shape::TextLineRaw(v) => Ok(v),
            _ => Err(WrongEnum { expected_con: "TextLineRaw".to_owned() }),
        }
    }

    proof fn lemma_narrow_widen(v: Self) {
    }

    proof fn lemma_widen_narrow(shape: Shape) {
    }
}

impl ShapeVariant for TextLineFmt {
    open spec fn spec_widen(self) -> Shape {
        Shape::TextLineFmt(self)
    }

    open spec fn spec_narrow(shape: Shape) -> Option<Self> {
        match shape {
            Shape::TextLineFmt(v) => Some(v),
            _ => None,
        }
    }

    open spec fn spec_name() -> Seq<char> {
        "TextLineFmt"@
    }

    fn widen(self) -> (r: Shape) {
        Shape::TextLineFmt(self)
    }

    fn narrow(shape: Shape) -> (r: Result<Self, WrongEnum>) {
        match shape {
            Shape::TextLineFmt(v) => Ok(v),
            _ => Err(WrongEnum { expected_con: "TextLineFmt".to_owned() }),
        }
    }

    proof fn lemma_narrow_widen(v: Self) {
    }

    proof fn lemma_widen_narrow(shape: Shape) {
    }
}

impl ShapeVariant for TextBlockRaw {
    open spec fn spec_widen(self) -> Shape {
        Shape::TextBlockRaw(self)
    }

    open spec fn spec_narrow(shape: Shape) -> Option<Self> {
        match shape {
            Shape::TextBlockRaw(v) => Some(v),
            _ => None,
        }
    }

    open spec fn spec_name() -> Seq<char> {
        "TextBlockRaw"@
    }

    fn widen(self) -> (r: Shape) {
        Shape::TextBlockRaw(self)
    }

    fn narrow(shape: Shape) -> (r: Result<Self, WrongEnum>) {
        match shape {
            Shape::TextBlockRaw(v) => Ok(v),
            _ => Err(WrongEnum { expected_con: "TextBlockRaw".to_owned() }),
        }
    }

    proof fn lemma_narrow_widen(v: Self) {
    }

    proof fn lemma_widen_narrow(shape: Shape) {
    }
}

impl ShapeVariant for TextBlockFmt {
    open spec fn spec_widen(self) -> Shape {
        Shape::TextBlockFmt(self)
    }

    open spec fn spec_narrow(shape: Shape) -> Option<Self> {
        match shape {
            Shape::TextBlockFmt(v) => Some(v),
            _ => None,
        }
    }

    open spec fn spec_name() -> Seq<char> {
        "TextBlockFmt"@
    }

    fn widen(self) -> (r: Shape) {
        Shape::TextBlockFmt(self)
    }

    fn narrow(shape: Shape) -> (r: Result<Self, WrongEnum>) {
        match shape {
            Shape::TextBlockFmt(v) => Ok(v),
            _ => Err(WrongEnum { expected_con: "TextBlockFmt".to_owned() }),
        }
    }

    proof fn lemma_narrow_widen(v: Self) {
    }

    proof fn lemma_widen_narrow(shape: Shape) {
    }
}

impl ShapeVariant for TextUnclosed {
    open spec fn spec_widen(self) -> Shape {
        Shape::TextUnclosed(self)
    }

    open spec fn spec_narrow(shape: Shape) -> Option<Self> {
        match shape {
            Shape::TextUnclosed(v) => Some(v),
            _ => None,
        }
    }

    open spec fn spec_name() -> Seq<char> {
        "TextUnclosed"@
    }

    fn widen(self) -> (r: Shape) {
        Shape::TextUnclosed(self)
    }

    fn narrow(shape: Shape) -> (r: Result<Self, WrongEnum>) {
        match shape {
            Shape::TextUnclosed(v) => Ok(v),
            _ => Err(WrongEnum { expected_con: "TextUnclosed".to_owned() }),
        }
    }

    proof fn lemma_narrow_widen(v: Self) {
    }

    proof fn lemma_widen_narrow(shape: Shape) {
    }
}

impl ShapeVariant for Prefix {
    open spec fn spec_widen(self) -> Shape {
        Shape::Prefix(self)
    }

    open spec fn spec_narrow(shape: Shape) -> Option<Self> {
        match shape {
            Shape::Prefix(v) => Some(v),
            _ => None,
        }
    }

    open spec fn spec_name() -> Seq<char> {
        "Prefix"@
    }

    fn widen(self) -> (r: Shape) {
        Shape::Prefix(self)
    }

    fn narrow(shape: Shape) -> (r: Result<Self, WrongEnum>) {
        match shape {
            Shape::Prefix(v) => Ok(v),
            _ => Err(WrongEnum { expected_con: "Prefix".to_owned() }),
        }
    }

    proof fn lemma_narrow_widen(v: Self) {
    }

    proof fn lemma_widen_narrow(shape: Shape) {
    }
}

impl ShapeVariant for Infix {
    open spec fn spec_widen(self) -> Shape {
        Shape::Infix(self)
    }

    open spec fn spec_narrow(shape: Shape) -> Option<Self> {
        match shape {
            Shape::Infix(v) => Some(v),
            _ => None,
        }
    }

    open spec fn spec_name() -> Seq<char> {
        "Infix"@
    }

    fn widen(self) -> (r: Shape) {
        Shape::Infix(self)
    }

    fn narrow(shape: Shape) -> (r: Result<Self, WrongEnum>) {
        match shape {
            Shape::Infix(v) => Ok(v),
            _ => Err(WrongEnum { expected_con: "Infix".to_owned() }),
        }
    }

    proof fn lemma_narrow_widen(v: Self) {
    }

    proof fn lemma_widen_narrow(shape: Shape) {
    }
}

impl ShapeVariant for SectionLeft {
    open spec fn spec_widen(self) -> Shape {
        Shape::SectionLeft(self)
    }

    open spec fn spec_narrow(shape: Shape) -> Option<Self> {
        match shape {
            Shape::SectionLeft(v) => Some(v),
            _ => None,
        }
    }

    open spec fn spec_name() -> Seq<char> {
        "SectionLeft"@
    }

    fn widen(self) -> (r: Shape) {
        Shape::SectionLeft(self)
    }

    fn narrow(shape: Shape) -> (r: Result<Self, WrongEnum>) {
        match shape {
            Shape::SectionLeft(v) => Ok(v),
            _ => Err(WrongEnum { expected_con: "SectionLeft".to_owned() }),
        }
    }

    proof fn lemma_narrow_widen(v: Self) {
    }

    proof fn lemma_widen_narrow(shape: Shape) {
    }
}

impl ShapeVariant for SectionRight {
    open spec fn spec_widen(self) -> Shape {
        Shape::SectionRight(self)
    }

    open spec fn spec_narrow(shape: Shape) -> Option<Self> {
        match shape {
            Shape::SectionRight(v) => Some(v),
            _ => None,
        }
    }

    open spec fn spec_name() -> Seq<char> {
        "SectionRight"@
    }

    fn widen(self) -> (r: Shape) {
        Shape::SectionRight(self)
    }

    fn narrow(shape: Shape) -> (r: Result<Self, WrongEnum>) {
        match shape {
            Shape::SectionRight(v) => Ok(v),
            _ => Err(WrongEnum { expected_con: "SectionRight".to_owned() }),
        }
    }

    proof fn lemma_narrow_widen(v: Self) {
    }

    proof fn lemma_widen_narrow(shape: Shape) {
    }
}

impl ShapeVariant for SectionSides {
    open spec fn spec_widen(self) -> Shape {
        Shape::SectionSides(self)
    }

    open spec fn spec_narrow(shape: Shape) -> Option<Self> {
        match shape {
            Shape::SectionSides(v) => Some(v),
            _ => None,
        }
    }

    open spec fn spec_name() -> Seq<char> {
        "SectionSides"@
    }

    fn widen(self) -> (r: Shape) {
        Shape::SectionSides(self)
    }

    fn narrow(shape: Shape) -> (r: Result<Self, WrongEnum>) {
        match shape {
            Shape::SectionSides(v) => Ok(v),
            _ => Err(WrongEnum { expected_con: "SectionSides".to_owned() }),
        }
    }

    proof fn lemma_narrow_widen(v: Self) {
    }

    proof fn lemma_widen_narrow(shape: Shape) {
    }
}

impl ShapeVariant for Module {
    open spec fn spec_widen(self) -> Shape {
        Shape::Module(self)
    }

    open spec fn spec_narrow(shape: Shape) -> Option<Self> {
        match shape {
            Shape::Module(v) => Some(v),
            _ => None,
        }
    }

    open spec fn spec_name() -> Seq<char> {
        "Module"@
    }

    fn widen(self) -> (r: Shape) {
        Shape::Module(self)
    }

    fn narrow(shape: Shape) -> (r: Result<Self, WrongEnum>) {
        match shape {
            Shape::Module(v) => Ok(v),
            _ => Err(WrongEnum { expected_con: "Module".to_owned() }),
        }
    }

    proof fn lemma_narrow_widen(v: Self) {
    }

    proof fn lemma_widen_narrow(shape: Shape) {
    }
}

impl ShapeVariant for Block {
    open spec fn spec_widen(self) -> Shape {
        Shape::Block(self)
    }

    open spec fn spec_narrow(shape: Shape) -> Option<Self> {
        match shape {
            Shape::Block(v) => Some(v),
            _ => None,
        }
    }

    open spec fn spec_name() -> Seq<char> {
        "Block"@
    }

    fn widen(self) -> (r: Shape) {
        Shape::Block(self)
    }

    fn narrow(shape: Shape) -> (r: Result<Self, WrongEnum>) {
        match shape {
            Shape::Block(v) => Ok(v),
            _ => Err(WrongEnum { expected_con: "Block".to_owned() }),
        }
    }

    proof fn lemma_narrow_widen(v: Self) {
    }

    proof fn lemma_widen_narrow(shape: Shape) {
    }
}

impl ShapeVariant for Match {
    open spec fn spec_widen(self) -> Shape {
        Shape::Match(self)
    }

    open spec fn spec_narrow(shape: Shape) -> Option<Self> {
        match shape {
            Shape::Match(v) => Some(v),
            _ => None,
        }
    }

    open spec fn spec_name() -> Seq<char> {
        "Match"@
    }

    fn widen(self) -> (r: Shape) {
        Shape::Match(self)
    }

    fn narrow(shape: Shape) -> (r: Result<Self, WrongEnum>) {
        match shape {
            Shape::Match(v) => Ok(v),
            _ => Err(WrongEnum { expected_con: "Match".to_owned() }),
        }
    }

    proof fn lemma_narrow_widen(v: Self) {
    }

    proof fn lemma_widen_narrow(shape: Shape) {
    }
}

impl ShapeVariant for Ambiguous {
    open spec fn spec_widen(self) -> Shape {
        Shape::Ambiguous(self)
    }

    open spec fn spec_narrow(shape: Shape) -> Option<Self> {
        match shape {
            Shape::Ambiguous(v) => Some(v),
            _ => None,
        }
    }

    open spec fn spec_name() -> Seq<char> {
        "Ambiguous"@
    }

    fn widen(self) -> (r: Shape) {
        Shape::Ambiguous(self)
    }

    fn narrow(shape: Shape) -> (r: Result<Self, WrongEnum>) {
        match shape {
            Shape::Ambiguous(v) => Ok(v),
            _ => Err(WrongEnum { expected_con: "Ambiguous".to_owned() }),
        }
    }

    proof fn lemma_narrow_widen(v: Self) {
    }

    proof fn lemma_widen_narrow(shape: Shape) {
    }
}

impl ShapeVariant for Comment {
    open spec fn spec_widen(self) -> Shape {
        Shape::Comment(self)
    }

    open spec fn spec_narrow(shape: Shape) -> Option<Self> {
        match shape {
            Shape::Comment(v) => Some(v),
            _ => None,
        }
    }

    open spec fn spec_name() -> Seq<char> {
        "Comment"@
    }

    fn widen(self) -> (r: Shape) {
        Shape::Comment(self)
    }

    fn narrow(shape: Shape) -> (r: Result<Self, WrongEnum>) {
        match shape {
            Shape::Comment(v) => Ok(v),
            _ => Err(WrongEnum { expected_con: "Comment".to_owned() }),
        }
    }

    proof fn lemma_narrow_widen(v: Self) {
    }

    proof fn lemma_widen_narrow(shape: Shape) {
    }
}

impl ShapeVariant for Import {
    open spec fn spec_widen(self) -> Shape {
        Shape::Import(self)
    }

    open spec fn spec_narrow(shape: Shape) -> Option<Self> {
        match shape {
            Shape::Import(v) => Some(v),
            _ => None,
        }
    }

    open spec fn spec_name() -> Seq<char> {
        "Import"@
    }

    fn widen(self) -> (r: Shape) {
        Shape::Import(self)
    }

    fn narrow(shape: Shape) -> (r: Result<Self, WrongEnum>) {
        match shape {
            Shape::Import(v) => Ok(v),
            _ => Err(WrongEnum { expected_con: "Import".to_owned() }),
        }
    }

    proof fn lemma_narrow_widen(v: Self) {
    }

    proof fn lemma_widen_narrow(shape: Shape) {
    }
}

impl ShapeVariant for Mixfix {
    open spec fn spec_widen(self) -> Shape {
        Shape::Mixfix(self)
    }

    open spec fn spec_narrow(shape: Shape) -> Option<Self> {
        match shape {
            Shape::Mixfix(v) => Some(v),
            _ => None,
        }
    }

    open spec fn spec_name() -> Seq<char> {
        "Mixfix"@
    }

    fn widen(self) -> (r: Shape) {
        Shape::Mixfix(self)
    }

    fn narrow(shape: Shape) -> (r: Result<Self, WrongEnum>) {
        match shape {
            Shape::Mixfix(v) => Ok(v),
            _ => Err(WrongEnum { expected_con: "Mixfix".to_owned() }),
        }
    }

    proof fn lemma_narrow_widen(v: Self) {
    }

    proof fn lemma_widen_narrow(shape: Shape) {
    }
}

impl ShapeVariant for Group {
    open spec fn spec_widen(self) -> Shape {
        Shape::Group(self)
    }

    open spec fn spec_narrow(shape: Shape) -> Option<Self> {
        match shape {
            Shape::Group(v) => Some(v),
            _ => None,
        }
    }

    open spec fn spec_name() -> Seq<char> {
        "Group"@
    }

    fn widen(self) -> (r: Shape) {
        Shape::Group(self)
    }

    fn narrow(shape: Shape) -> (r: Result<Self, WrongEnum>) {
        match shape {
            Shape::Group(v) => Ok(v),
            _ => Err(WrongEnum { expected_con: "Group".to_owned() }),
        }
    }

    proof fn lemma_narrow_widen(v: Self) {
    }

    proof fn lemma_widen_narrow(shape: Shape) {
    }
}

impl ShapeVariant for Def {
    open spec fn spec_widen(self) -> Shape {
        Shape::Def(self)
    }

    open spec fn spec_narrow(shape: Shape) -> Option<Self> {
        match shape {
            Shape::Def(v) => Some(v),
            _ => None,
        }
    }

    open spec fn spec_name() -> Seq<char> {
        "Def"@
    }

    fn widen(self) -> (r: Shape) {
        Shape::Def(self)
    }

    fn narrow(shape: Shape) -> (r: Result<Self, WrongEnum>) {
        match shape {
            Shape::Def(v) => Ok(v),
            _ => Err(WrongEnum { expected_con: "Def".to_owned() }),
        }
    }

    proof fn lemma_narrow_widen(v: Self) {
    }

    proof fn lemma_widen_narrow(shape: Shape) {
    }
}

impl ShapeVariant for Foreign {
    open spec fn spec_widen(self) -> Shape {
        Shape::Foreign(self)
    }

    open spec fn spec_narrow(shape: Shape) -> Option<Self> {
        match shape {
            Shape::Foreign(v) => Some(v),
            _ => None,
        }
    }

    open spec fn spec_name() -> Seq<char> {
        "Foreign"@
    }

    fn widen(self) -> (r: Shape) {
        Shape::Foreign(self)
    }

    fn narrow(shape: Shape) -> (r: Result<Self, WrongEnum>) {
        match shape {
            Shape::Foreign(v) => Ok(v),
            _ => Err(WrongEnum { expected_con: "Foreign".to_owned() }),
        }
    }

    proof fn lemma_narrow_widen(v: Self) {
    }

    proof fn lemma_widen_narrow(shape: Shape) {
    }
}


/// Narrowing a widened record gives the record back; a shape that narrows
/// to a record is that record widened.
pub proof fn lemma_narrowing<V: ShapeVariant>(v: V, shape: Shape)
    ensures
        V::spec_narrow(v.spec_widen()) == Some(v),
        V::spec_narrow(shape) matches Some(w) ==> w.spec_widen() == shape,
{
    V::lemma_narrow_widen(v);
    V::lemma_widen_narrow(shape);
}

// === Children ===

pub open spec fn opt_children(o: Option<Ast>) -> Seq<Ast> {
    match o {
        Some(a) => seq![a],
        None => seq![],
    }
}

/// The elements of block lines, in order, skipping empty lines.
pub open spec fn lines_children(ls: Seq<BlockLine<Option<Ast>>>) -> Seq<Ast>
    decreases ls.len(),
{
    if ls.len() == 0 {
        seq![]
    } else {
        lines_children(ls.drop_last()) + opt_children(ls.last().elem)
    }
}

pub open spec fn segment_children(seg: SegmentFmt) -> Seq<Ast> {
    match seg {
        SegmentFmt::SegmentExpr(e) => opt_children(e.value),
        _ => seq![],
    }
}

/// The nodes captured by the bodies of shifted macro segments, in order.
pub open spec fn segs_elems(ss: Seq<Shifted<MacroMatchSegment>>) -> Seq<Ast>
    decreases ss.len(),
{
    if ss.len() == 0 {
        seq![]
    } else {
        segs_elems(ss.drop_last()) + match_elems(*ss.last().wrapped.body)
    }
}

proof fn lemma_segs_elems_origin(ss: Seq<Shifted<MacroMatchSegment>>, k: int)
    requires
        0 <= k < segs_elems(ss).len(),
    ensures
        exists|j: int, i: int| 0 <= j < ss.len() && 0 <= i < match_elems(*ss[j].wrapped.body).len()
            && (#[trigger] match_elems(*ss[j].wrapped.body)[i]) == segs_elems(ss)[k],
    decreases ss.len(),
{
    let init = segs_elems(ss.drop_last());
    if k < init.len() {
        lemma_segs_elems_origin(ss.drop_last(), k);
        let (j, i) = choose|j: int, i: int| 0 <= j < ss.drop_last().len() && 0 <= i < match_elems(*ss.drop_last()[j].wrapped.body).len()
            && (#[trigger] match_elems(*ss.drop_last()[j].wrapped.body)[i]) == init[k];
        assert(ss[j] == ss.drop_last()[j]);
    } else {
        assert(ss[ss.len() - 1] == ss.last());
        assert(match_elems(*ss[ss.len() - 1].wrapped.body)[k - init.len()] == segs_elems(ss)[k]);
    }
}

fn push_segs_elems(ss: &Vec<Shifted<MacroMatchSegment>>, out: &mut Vec<Ast>)
    ensures
        final(out)@ == old(out)@ + segs_elems(ss@),
{
    let mut i: usize = 0;
    while i < ss.len()
        invariant
            i <= ss.len(),
            out@ == old(out)@ + segs_elems(ss@.take(i as int)),
        decreases ss.len() - i,
    {
        proof {
            assert(ss@.take(i + 1).drop_last() =~= ss@.take(i as int));
        }
        push_match_elems(&*ss[i].wrapped.body, out);
        i = i + 1;
        proof {
            assert(out@ =~= old(out)@ + segs_elems(ss@.take(i as int)));
        }
    }
    proof {
        assert(ss@.take(ss.len() as int) =~= ss@);
    }
}

/// Whether a segment embeds exactly the expression `c`.
pub open spec fn holds_expr(seg: SegmentFmt, c: Ast) -> bool {
    match seg {
        SegmentFmt::SegmentExpr(e) => e.value == Some(c),
        _ => false,
    }
}

/// The expressions embedded in formatted text segments, in order.
pub open spec fn segments_children(ss: Seq<SegmentFmt>) -> Seq<Ast>
    decreases ss.len(),
{
    if ss.len() == 0 {
        seq![]
    } else {
        segments_children(ss.drop_last()) + segment_children(ss.last())
    }
}

/// The expressions embedded in the lines of a formatted text block.
pub open spec fn text_block_children(ls: Seq<TextBlockLine<SegmentFmt>>) -> Seq<Ast>
    decreases ls.len(),
{
    if ls.len() == 0 {
        seq![]
    } else {
        text_block_children(ls.drop_last()) + segments_children(ls.last().text@)
    }
}

proof fn lemma_lines_children_origin(ls: Seq<BlockLine<Option<Ast>>>, k: int)
    requires
        0 <= k < lines_children(ls).len(),
    ensures
        exists|j: int| 0 <= j < ls.len() && ls[j].elem == Some(lines_children(ls)[k]),
    decreases ls.len(),
{
    let init = lines_children(ls.drop_last());
    if k < init.len() {
        lemma_lines_children_origin(ls.drop_last(), k);
        let j = choose|j: int| 0 <= j < ls.drop_last().len() && ls.drop_last()[j].elem == Some(init[k]);
        assert(ls[j] == ls.drop_last()[j]);
    } else {
        assert(ls[ls.len() - 1].elem == Some(lines_children(ls)[k]));
    }
}

proof fn lemma_segments_children_origin(ss: Seq<SegmentFmt>, k: int)
    requires
        0 <= k < segments_children(ss).len(),
    ensures
        exists|j: int| 0 <= j < ss.len() && holds_expr(#[trigger] ss[j], segments_children(ss)[k]),
    decreases ss.len(),
{
    let init = segments_children(ss.drop_last());
    if k < init.len() {
        lemma_segments_children_origin(ss.drop_last(), k);
        let j = choose|j: int| 0 <= j < ss.drop_last().len() && holds_expr(#[trigger] ss.drop_last()[j], init[k]);
        assert(ss[j] == ss.drop_last()[j]);
    } else {
        assert(ss[ss.len() - 1] == ss.last());
    }
}

proof fn lemma_text_block_children_origin(ls: Seq<TextBlockLine<SegmentFmt>>, k: int)
    requires
        0 <= k < text_block_children(ls).len(),
    ensures
        exists|j: int, m: int| 0 <= j < ls.len() && 0 <= m < ls[j].text@.len()
            && holds_expr(#[trigger] ls[j].text@[m], text_block_children(ls)[k]),
    decreases ls.len(),
{
    let init = text_block_children(ls.drop_last());
    if k < init.len() {
        lemma_text_block_children_origin(ls.drop_last(), k);
        let (j, m) = choose|j: int, m: int| 0 <= j < ls.drop_last().len() && 0 <= m < ls.drop_last()[j].text@.len()
            && holds_expr(#[trigger] ls.drop_last()[j].text@[m], init[k]);
        assert(ls[j] == ls.drop_last()[j]);
    } else {
        let last = ls[ls.len() - 1];
        lemma_segments_children_origin(last.text@, k - init.len());
    }
}

impl Shape {
    /// The child nodes of a shape, in field order. Those of a resolved macro
    /// are what its segment bodies captured; an unresolved macro has none.
    pub open spec fn spec_children(&self) -> Seq<Ast> {
        match self {
            Shape::InvalidSuffix(v) => seq![v.elem],
            Shape::TextLineFmt(v) => segments_children(v.text@),
            Shape::TextBlockFmt(v) => text_block_children(v.text@),
            Shape::TextUnclosed(v) => match v.line {
                TextLine::TextLineFmt(l) => segments_children(l.text@),
                TextLine::TextLineRaw(_) => seq![],
            },
            Shape::Prefix(v) => seq![v.func, v.arg],
            Shape::Infix(v) => seq![v.larg, v.opr, v.rarg],
            Shape::SectionLeft(v) => seq![v.arg, v.opr],
            Shape::SectionRight(v) => seq![v.opr, v.arg],
            Shape::SectionSides(v) => seq![v.opr],
            Shape::Module(v) => lines_children(v.lines@),
            Shape::Block(v) => seq![v.first_line.elem] + lines_children(v.lines@),
            Shape::Match(v) => match_elems(*v.segs.head.body) + segs_elems(v.segs.tail@),
            Shape::Import(v) => v.path@,
            Shape::Mixfix(v) => v.name@ + v.args@,
            Shape::Group(v) => opt_children(v.body),
            Shape::Def(v) => seq![v.name] + v.args@ + opt_children(v.body),
            _ => seq![],
        }
    }
}

/// Each child of a node lies strictly inside it.
pub proof fn lemma_children_decrease(a: Ast, k: int)
    requires
        0 <= k < a.spec_shape().spec_children().len(),
    ensures
        decreases_to!(a => a.spec_shape().spec_children()[k]),
{
    let c = a.spec_shape().spec_children()[k];
    match a.spec_shape() {
        Shape::TextLineFmt(v) => {
            lemma_segments_children_origin(v.text@, k);
            let j = choose|j: int| 0 <= j < v.text@.len() && holds_expr(#[trigger] v.text@[j], c);
            assert(decreases_to!(v.text => v.text[j]));
            assert(holds_expr(v.text@[j], c));
            if let SegmentFmt::SegmentExpr(e) = v.text@[j] {
                assert(decreases_to!(v.text[j] => e));
                assert(decreases_to!(e => e.value));
                assert(decreases_to!(e.value => e.value->Some_0));
                assert(decreases_to!(a => v.text));
            }
            assert(decreases_to!(a => c));
        },
        Shape::TextBlockFmt(v) => {
            lemma_text_block_children_origin(v.text@, k);
            let (j, m) = choose|j: int, m: int| 0 <= j < v.text@.len() && 0 <= m < v.text@[j].text@.len()
                && holds_expr(#[trigger] v.text@[j].text@[m], c);
            assert(decreases_to!(v.text => v.text[j]));
            assert(decreases_to!(v.text[j].text => v.text[j].text[m]));
            assert(holds_expr(v.text@[j].text@[m], c));
            if let SegmentFmt::SegmentExpr(e) = v.text@[j].text@[m] {
                assert(decreases_to!(v.text[j].text[m] => e));
                assert(decreases_to!(e => e.value));
                assert(decreases_to!(e.value => e.value->Some_0));
            }
            assert(decreases_to!(a => c));
        },
        Shape::TextUnclosed(v) => match v.line {
            TextLine::TextLineFmt(l) => {
                lemma_segments_children_origin(l.text@, k);
                let j = choose|j: int| 0 <= j < l.text@.len() && holds_expr(#[trigger] l.text@[j], c);
                assert(decreases_to!(l.text => l.text[j]));
                assert(holds_expr(l.text@[j], c));
                if let SegmentFmt::SegmentExpr(e) = l.text@[j] {
                    assert(decreases_to!(l.text[j] => e));
                    assert(decreases_to!(e => e.value));
                    assert(decreases_to!(e.value => e.value->Some_0));
                }
                assert(decreases_to!(a => c));
            },
            TextLine::TextLineRaw(_) => {},
        },
        Shape::Module(v) => {
            lemma_lines_children_origin(v.lines@, k);
            let j = choose|j: int| 0 <= j < v.lines@.len() && v.lines@[j].elem == Some(c);
            assert(decreases_to!(v.lines => v.lines[j]));
            assert(decreases_to!(v.lines[j] => v.lines[j].elem));
            assert(decreases_to!(v.lines[j].elem => v.lines[j].elem->Some_0));
        },
        Shape::Block(v) => {
            if k > 0 {
                lemma_lines_children_origin(v.lines@, k - 1);
                let j = choose|j: int| 0 <= j < v.lines@.len() && v.lines@[j].elem == Some(c);
                assert(decreases_to!(v.lines => v.lines[j]));
                assert(decreases_to!(v.lines[j] => v.lines[j].elem));
                assert(decreases_to!(v.lines[j].elem => v.lines[j].elem->Some_0));
            }
        },
        Shape::Group(v) => {
            assert(decreases_to!(v.body => v.body->Some_0));
        },
        Shape::Match(v) => {
            let n = match_elems(inner(v.segs.head.body)).len();
            if k < n {
                lemma_match_elems_decrease(inner(v.segs.head.body), k);
            } else {
                let ss = v.segs.tail@;
                lemma_segs_elems_origin(ss, k - n);
                let (j, i) = choose|j: int, i: int| 0 <= j < ss.len() && 0 <= i < match_elems(*ss[j].wrapped.body).len()
                    && (#[trigger] match_elems(*ss[j].wrapped.body)[i]) == c;
                lemma_match_elems_decrease(inner(ss[j].wrapped.body), i);
                assert(decreases_to!(v.segs.tail => v.segs.tail[j]));
            }
        },
        Shape::Import(v) => {
            assert(decreases_to!(v.path => v.path[k]));
        },
        Shape::Mixfix(v) => {
            if k < v.name@.len() {
                assert(decreases_to!(v.name => v.name[k]));
            } else {
                assert(decreases_to!(v.args => v.args[k - v.name@.len()]));
            }
        },
        Shape::Def(v) => {
            if 0 < k < 1 + v.args@.len() {
                assert(decreases_to!(v.args => v.args[k - 1]));
            } else if k > 0 {
                assert(decreases_to!(v.body => v.body->Some_0));
            }
        },
        _ => {},
    }
}


// === Collecting children ===

fn push_opt(o: &Option<Ast>, out: &mut Vec<Ast>)
    ensures
        final(out)@ == old(out)@ + opt_children(*o),
{
    match o {
        Some(a) => {
            out.push(a.clone());
        },
        None => {},
    }
    proof {
        assert(final(out)@ =~= old(out)@ + opt_children(*o));
    }
}

fn push_all(v: &Vec<Ast>, out: &mut Vec<Ast>)
    ensures
        final(out)@ == old(out)@ + v@,
{
    let mut i: usize = 0;
    while i < v.len()
        invariant
            i <= v.len(),
            out@ == old(out)@ + v@.take(i as int),
        decreases v.len() - i,
    {
        out.push(v[i].clone());
        i = i + 1;
        proof {
            assert(out@ =~= old(out)@ + v@.take(i as int));
        }
    }
    proof {
        assert(v@.take(v.len() as int) =~= v@);
    }
}

fn push_lines(ls: &Vec<BlockLine<Option<Ast>>>, out: &mut Vec<Ast>)
    ensures
        final(out)@ == old(out)@ + lines_children(ls@),
{
    let mut i: usize = 0;
    while i < ls.len()
        invariant
            i <= ls.len(),
            out@ == old(out)@ + lines_children(ls@.take(i as int)),
        decreases ls.len() - i,
    {
        proof {
            assert(ls@.take(i + 1).drop_last() =~= ls@.take(i as int));
        }
        push_opt(&ls[i].elem, out);
        i = i + 1;
        proof {
            assert(out@ =~= old(out)@ + lines_children(ls@.take(i as int)));
        }
    }
    proof {
        assert(ls@.take(ls.len() as int) =~= ls@);
    }
}

fn push_segments(ss: &Vec<SegmentFmt>, out: &mut Vec<Ast>)
    ensures
        final(out)@ == old(out)@ + segments_children(ss@),
{
    let mut i: usize = 0;
    while i < ss.len()
        invariant
            i <= ss.len(),
            out@ == old(out)@ + segments_children(ss@.take(i as int)),
        decreases ss.len() - i,
    {
        proof {
            assert(ss@.take(i + 1).drop_last() =~= ss@.take(i as int));
        }
        match &ss[i] {
            SegmentFmt::SegmentExpr(e) => push_opt(&e.value, out),
            _ => {},
        }
        i = i + 1;
        proof {
            assert(out@ =~= old(out)@ + segments_children(ss@.take(i as int)));
        }
    }
    proof {
        assert(ss@.take(ss.len() as int) =~= ss@);
    }
}

fn push_text_block(ls: &Vec<TextBlockLine<SegmentFmt>>, out: &mut Vec<Ast>)
    ensures
        final(out)@ == old(out)@ + text_block_children(ls@),
{
    let mut i: usize = 0;
    while i < ls.len()
        invariant
            i <= ls.len(),
            out@ == old(out)@ + text_block_children(ls@.take(i as int)),
        decreases ls.len() - i,
    {
        proof {
            assert(ls@.take(i + 1).drop_last() =~= ls@.take(i as int));
        }
        push_segments(&ls[i].text, out);
        i = i + 1;
        proof {
            assert(out@ =~= old(out)@ + text_block_children(ls@.take(i as int)));
        }
    }
    proof {
        assert(ls@.take(ls.len() as int) =~= ls@);
    }
}

impl Shape {
    /// The child nodes, shared with this shape, in field order.
    pub fn children(&self) -> (r: Vec<Ast>)
        ensures
            r@ == self.spec_children(),
    {
        let mut out: Vec<Ast> = Vec::new();
        match self {
            Shape::InvalidSuffix(v) => {
                out.push(v.elem.clone());
            },
            Shape::TextLineFmt(v) => push_segments(&v.text, &mut out),
            Shape::TextBlockFmt(v) => push_text_block(&v.text, &mut out),
            Shape::TextUnclosed(v) => match &v.line {
                TextLine::TextLineFmt(l) => push_segments(&l.text, &mut out),
                TextLine::TextLineRaw(_) => {},
            },
            Shape::Prefix(v) => {
                out.push(v.func.clone());
                out.push(v.arg.clone());
            },
            Shape::Infix(v) => {
                out.push(v.larg.clone());
                out.push(v.opr.clone());
                out.push(v.rarg.clone());
            },
            Shape::SectionLeft(v) => {
                out.push(v.arg.clone());
                out.push(v.opr.clone());
            },
            Shape::SectionRight(v) => {
                out.push(v.opr.clone());
                out.push(v.arg.clone());
            },
            Shape::SectionSides(v) => {
                out.push(v.opr.clone());
            },
            Shape::Module(v) => push_lines(&v.lines, &mut out),
            Shape::Block(v) => {
                out.push(v.first_line.elem.clone());
                push_lines(&v.lines, &mut out);
            },
            Shape::Match(v) => {
                push_match_elems(&*v.segs.head.body, &mut out);
                push_segs_elems(&v.segs.tail, &mut out);
            },
            Shape::Import(v) => push_all(&v.path, &mut out),
            Shape::Mixfix(v) => {
                push_all(&v.name, &mut out);
                push_all(&v.args, &mut out);
            },
            Shape::Group(v) => push_opt(&v.body, &mut out),
            Shape::Def(v) => {
                out.push(v.name.clone());
                push_all(&v.args, &mut out);
                push_opt(&v.body, &mut out);
            },
            _ => {},
        }
        proof {
            assert(out@ =~= self.spec_children());
        }
        out
    }
}

} // verus!
