use vstd::prelude::*;
use vstd::string::StrSliceExecFns;

verus! {

/// Sum of a sequence of naturals, folded from the back.
pub open spec fn sum_nat(s: Seq<nat>) -> nat
    decreases s.len(),
{
    if s.len() == 0 {
        0
    } else {
        sum_nat(s.drop_last()) + s.last()
    }
}

pub proof fn lemma_sum_take_step(s: Seq<nat>, i: int)
    requires
        0 <= i < s.len(),
    ensures
        sum_nat(s.take(i + 1)) == sum_nat(s.take(i)) + s[i],
{
    assert(s.take(i + 1).drop_last() =~= s.take(i));
}

pub proof fn lemma_sum_prefix_le(s: Seq<nat>, i: int)
    requires
        0 <= i <= s.len(),
    ensures
        sum_nat(s.take(i)) <= sum_nat(s),
    decreases s.len(),
{
    if i == s.len() {
        assert(s.take(i) =~= s);
    } else {
        assert(s.drop_last().take(i) =~= s.take(i));
        lemma_sum_prefix_le(s.drop_last(), i);
    }
}

/// Things whose length in source code points can be asked for.
pub trait HasSpan {
    spec fn spec_span(&self) -> nat;

    fn span(&self) -> (r: usize)
        requires
            self.spec_span() <= usize::MAX,
        ensures
            r == self.spec_span(),
    ;
}

/// The spans of each element of a sequence.
pub open spec fn spans_of<T: HasSpan>(s: Seq<T>) -> Seq<nat> {
    s.map_values(|x: T| x.spec_span())
}

/// Total span of a sequence of spanned elements.
pub open spec fn seq_span<T: HasSpan>(s: Seq<T>) -> nat {
    sum_nat(spans_of(s))
}

/// Sum of a sequence of machine counts.
pub open spec fn sum_counts(s: Seq<usize>) -> nat {
    sum_nat(s.map_values(|x: usize| x as nat))
}

/// Adds up the spans of the elements of `v`.
pub fn vec_span<T: HasSpan>(v: &Vec<T>) -> (r: usize)
    requires
        seq_span(v@) <= usize::MAX,
    ensures
        r == seq_span(v@),
{
    let ghost spans = spans_of(v@);
    let mut acc: usize = 0;
    let mut i: usize = 0;
    while i < v.len()
        invariant
            i <= v.len(),
            spans == spans_of(v@),
            acc == sum_nat(spans.take(i as int)),
            sum_nat(spans) <= usize::MAX,
        decreases v.len() - i,
    {
        proof {
            lemma_sum_take_step(spans, i as int);
            lemma_sum_prefix_le(spans, i + 1);
        }
        let s = v[i].span();
        acc = acc + s;
        i = i + 1;
    }
    proof {
        assert(spans.take(v.len() as int) =~= spans);
    }
    acc
}

/// Adds up a vector of counts.
pub fn vec_sum(v: &Vec<usize>) -> (r: usize)
    requires
        sum_counts(v@) <= usize::MAX,
    ensures
        r == sum_counts(v@),
{
    let ghost counts = v@.map_values(|x: usize| x as nat);
    let mut acc: usize = 0;
    let mut i: usize = 0;
    while i < v.len()
        invariant
            i <= v.len(),
            counts == v@.map_values(|x: usize| x as nat),
            acc == sum_nat(counts.take(i as int)),
            sum_nat(counts) <= usize::MAX,
        decreases v.len() - i,
    {
        proof {
            lemma_sum_take_step(counts, i as int);
            lemma_sum_prefix_le(counts, i + 1);
        }
        acc = acc + v[i];
        i = i + 1;
    }
    proof {
        assert(counts.take(v.len() as int) =~= counts);
    }
    acc
}

/// A character occupies one code point.
impl HasSpan for char {
    open spec fn spec_span(&self) -> nat {
        1
    }

    fn span(&self) -> (r: usize) {
        1
    }
}

/// A string occupies one code point per character.
impl HasSpan for String {
    open spec fn spec_span(&self) -> nat {
        self@.len()
    }

    fn span(&self) -> (r: usize) {
        self.as_str().unicode_len()
    }
}

/// An absent value occupies nothing.
impl<T: HasSpan> HasSpan for Option<T> {
    open spec fn spec_span(&self) -> nat {
        match self {
            Some(t) => t.spec_span(),
            None => 0,
        }
    }

    fn span(&self) -> (r: usize) {
        match self {
            Some(t) => t.span(),
            None => 0,
        }
    }
}

} // verus!
