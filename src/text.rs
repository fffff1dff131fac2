use vstd::prelude::*;
use std::rc::Rc;

use crate::ast::Ast;
use crate::span::{
    HasSpan, lemma_sum_prefix_le, lemma_sum_take_step, seq_span, sum_counts, sum_nat, vec_span,
    vec_sum,
};

verus! {

// === Builder ===

/// A piece of source text accumulated without eager concatenation.
pub enum Builder {
    Empty,
    Letter { char: char },
    Space { span: usize },
    Text { str: String },
    Concat { first: Rc<Builder>, second: Rc<Builder> },
}

pub open spec fn builder_span(b: Builder) -> nat
    decreases b,
{
    match b {
        Builder::Empty => 0,
        Builder::Letter { .. } => 1,
        Builder::Space { span } => span as nat,
        Builder::Text { str } => str@.len(),
        Builder::Concat { first, second } => builder_span(*first) + builder_span(*second),
    }
}

impl HasSpan for Builder {
    open spec fn spec_span(&self) -> nat {
        builder_span(*self)
    }

    fn span(&self) -> (r: usize)
        decreases self,
    {
        match self {
            Builder::Empty => 0,
            Builder::Letter { char } => char.span(),
            Builder::Space { span } => *span,
            Builder::Text { str } => str.span(),
            Builder::Concat { first, second } => {
                let a = (**first).span();
                let b = (**second).span();
                a + b
            },
        }
    }
}


// === Escapes ===

/// Escape that may appear in raw text.
pub enum RawEscape {
    Unfinished {},
    Invalid { str: char },
    Slash {},
    Quote {},
    RawQuote {},
}

impl HasSpan for RawEscape {
    open spec fn spec_span(&self) -> nat {
        match self {
            RawEscape::Unfinished {  } => 0,
            _ => 1,
        }
    }

    fn span(&self) -> (r: usize) {
        match self {
            RawEscape::Unfinished {  } => 0,
            RawEscape::Invalid { str } => str.span(),
            _ => 1,
        }
    }
}

/// Escape that may appear in formatted text, after the backslash.
pub enum Escape {
    Character { c: char },
    Control { name: String, code: u8 },
    Number { digits: String },
    Unicode16 { digits: String },
    Unicode21 { digits: String },
    Unicode32 { digits: String },
}

impl HasSpan for Escape {
    /// Introducers: `u` for 16-bit codes, `u{` and `}` around 21-bit codes,
    /// `U` for 32-bit codes.
    open spec fn spec_span(&self) -> nat {
        match self {
            Escape::Character { .. } => 1,
            Escape::Control { name, .. } => name@.len(),
            Escape::Number { digits } => digits@.len(),
            Escape::Unicode16 { digits } => 1 + digits@.len(),
            Escape::Unicode21 { digits } => 2 + digits@.len() + 1,
            Escape::Unicode32 { digits } => 1 + digits@.len(),
        }
    }

    fn span(&self) -> (r: usize) {
        match self {
            Escape::Character { c } => c.span(),
            Escape::Control { name, .. } => name.span(),
            Escape::Number { digits } => digits.span(),
            Escape::Unicode16 { digits } => 1 + digits.span(),
            Escape::Unicode21 { digits } => 2 + digits.span() + 1,
            Escape::Unicode32 { digits } => 1 + digits.span(),
        }
    }
}

// === Segments ===

pub struct SegmentPlain {
    pub value: String,
}

pub struct SegmentRawEscape {
    pub code: RawEscape,
}

pub struct SegmentExpr {
    pub value: Option<Ast>,
}

pub struct SegmentEscape {
    pub code: Escape,
}

impl HasSpan for SegmentPlain {
    open spec fn spec_span(&self) -> nat {
        self.value@.len()
    }

    fn span(&self) -> (r: usize) {
        self.value.span()
    }
}

/// A backslash and the escape code.
impl HasSpan for SegmentRawEscape {
    open spec fn spec_span(&self) -> nat {
        self.code.spec_span() + 1
    }

    fn span(&self) -> (r: usize) {
        self.code.span() + 1
    }
}

/// The expression between two backticks.
impl HasSpan for SegmentExpr {
    open spec fn spec_span(&self) -> nat {
        self.value.spec_span() + 2
    }

    fn span(&self) -> (r: usize) {
        self.value.span() + 2
    }
}

/// A backslash and the escape code.
impl HasSpan for SegmentEscape {
    open spec fn spec_span(&self) -> nat {
        1 + self.code.spec_span()
    }

    fn span(&self) -> (r: usize) {
        1 + self.code.span()
    }
}

/// Segment of a raw text line.
pub enum SegmentRaw {
    SegmentPlain(SegmentPlain),
    SegmentRawEscape(SegmentRawEscape),
}

/// Segment of a formatted text line.
pub enum SegmentFmt {
    SegmentPlain(SegmentPlain),
    SegmentRawEscape(SegmentRawEscape),
    SegmentExpr(SegmentExpr),
    SegmentEscape(SegmentEscape),
}

impl HasSpan for SegmentRaw {
    open spec fn spec_span(&self) -> nat {
        match self {
            SegmentRaw::SegmentPlain(v) => v.spec_span(),
            SegmentRaw::SegmentRawEscape(v) => v.spec_span(),
        }
    }

    fn span(&self) -> (r: usize) {
        match self {
            SegmentRaw::SegmentPlain(v) => v.span(),
            SegmentRaw::SegmentRawEscape(v) => v.span(),
        }
    }
}

impl HasSpan for SegmentFmt {
    open spec fn spec_span(&self) -> nat {
        match self {
            SegmentFmt::SegmentPlain(v) => v.spec_span(),
            SegmentFmt::SegmentRawEscape(v) => v.spec_span(),
            SegmentFmt::SegmentExpr(v) => v.spec_span(),
            SegmentFmt::SegmentEscape(v) => v.spec_span(),
        }
    }

    fn span(&self) -> (r: usize) {
        match self {
            SegmentFmt::SegmentPlain(v) => v.span(),
            SegmentFmt::SegmentRawEscape(v) => v.span(),
            SegmentFmt::SegmentExpr(v) => v.span(),
            SegmentFmt::SegmentEscape(v) => v.span(),
        }
    }
}

// === Lines ===

/// Text between two single quotes.
pub struct TextLineRaw {
    pub text: Vec<SegmentRaw>,
}

/// Text between two double quotes.
pub struct TextLineFmt {
    pub text: Vec<SegmentFmt>,
}

impl HasSpan for TextLineRaw {
    open spec fn spec_span(&self) -> nat {
        2 + seq_span(self.text@)
    }

    fn span(&self) -> (r: usize) {
        2 + vec_span(&self.text)
    }
}

impl HasSpan for TextLineFmt {
    open spec fn spec_span(&self) -> nat {
        2 + seq_span(self.text@)
    }

    fn span(&self) -> (r: usize) {
        2 + vec_span(&self.text)
    }
}

pub enum TextLine {
    TextLineRaw(TextLineRaw),
    TextLineFmt(TextLineFmt),
}

impl HasSpan for TextLine {
    open spec fn spec_span(&self) -> nat {
        match self {
            TextLine::TextLineRaw(v) => v.spec_span(),
            TextLine::TextLineFmt(v) => v.spec_span(),
        }
    }

    fn span(&self) -> (r: usize) {
        match self {
            TextLine::TextLineRaw(v) => v.span(),
            TextLine::TextLineFmt(v) => v.span(),
        }
    }
}

// === Blocks ===

/// One physical line of a text block, preceded by its blank lines.
pub struct TextBlockLine<T> {
    pub empty_lines: Vec<usize>,
    pub text: Vec<T>,
}

impl<T: HasSpan> TextBlockLine<T> {
    /// Blank-line widths, one newline per physical line, the block's offset,
    /// and the segments.
    pub open spec fn spec_span_at(&self, block_offset: usize) -> nat {
        sum_counts(self.empty_lines@) + (self.empty_lines@.len() + 1) + block_offset as nat
            + seq_span(self.text@)
    }

    pub fn span(&self, block_offset: usize) -> (r: usize)
        requires
            self.spec_span_at(block_offset) <= usize::MAX,
        ensures
            r == self.spec_span_at(block_offset),
    {
        let gaps = vec_sum(&self.empty_lines);
        let breaks = self.empty_lines.len() + 1;
        let text = vec_span(&self.text);
        gaps + breaks + block_offset + text
    }
}

pub open spec fn block_lines_spans<T: HasSpan>(lines: Seq<TextBlockLine<T>>, offset: usize) -> Seq<nat> {
    lines.map_values(|l: TextBlockLine<T>| l.spec_span_at(offset))
}

/// The total span of the lines of a text block.
pub fn block_lines_span<T: HasSpan>(lines: &Vec<TextBlockLine<T>>, offset: usize) -> (r: usize)
    requires
        sum_nat(block_lines_spans(lines@, offset)) <= usize::MAX,
    ensures
        r == sum_nat(block_lines_spans(lines@, offset)),
{
    let ghost spans = block_lines_spans(lines@, offset);
    let mut acc: usize = 0;
    let mut i: usize = 0;
    while i < lines.len()
        invariant
            i <= lines.len(),
            spans == block_lines_spans(lines@, offset),
            acc == sum_nat(spans.take(i as int)),
            sum_nat(spans) <= usize::MAX,
        decreases lines.len() - i,
    {
        proof {
            lemma_sum_take_step(spans, i as int);
            lemma_sum_prefix_le(spans, i + 1);
        }
        let s = lines[i].span(offset);
        acc = acc + s;
        i = i + 1;
    }
    proof {
        assert(spans.take(lines.len() as int) =~= spans);
    }
    acc
}

/// Raw text block, opened by three double quotes.
pub struct TextBlockRaw {
    pub text: Vec<TextBlockLine<SegmentRaw>>,
    pub spaces: usize,
    pub offset: usize,
}

/// Formatted text block, opened by three single quotes.
pub struct TextBlockFmt {
    pub text: Vec<TextBlockLine<SegmentFmt>>,
    pub spaces: usize,
    pub offset: usize,
}

impl HasSpan for TextBlockRaw {
    open spec fn spec_span(&self) -> nat {
        3 + self.spaces as nat + sum_nat(block_lines_spans(self.text@, self.offset))
    }

    fn span(&self) -> (r: usize) {
        3 + self.spaces + block_lines_span(&self.text, self.offset)
    }
}

impl HasSpan for TextBlockFmt {
    open spec fn spec_span(&self) -> nat {
        3 + self.spaces as nat + sum_nat(block_lines_spans(self.text@, self.offset))
    }

    fn span(&self) -> (r: usize) {
        3 + self.spaces + block_lines_span(&self.text, self.offset)
    }
}

/// A text line whose closing quote is missing.
pub struct TextUnclosed {
    pub line: TextLine,
}

impl HasSpan for TextUnclosed {
    /// The line's span without the closing quote.
    open spec fn spec_span(&self) -> nat {
        (self.line.spec_span() - 1) as nat
    }

    fn span(&self) -> (r: usize) {
        match &self.line {
            TextLine::TextLineRaw(l) => 1 + vec_span(&l.text),
            TextLine::TextLineFmt(l) => 1 + vec_span(&l.text),
        }
    }
}

} // verus!
