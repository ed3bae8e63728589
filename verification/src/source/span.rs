//! A [`Span`] is a half-open range of the source text.  Every node of the
//! syntax tree and every instruction of the control-flow graph carries the
//! span of the text that it stands for.
use vstd::prelude::*;

verus! {

/// A position in the global source map.
#[derive(Clone, Copy, Debug, PartialEq, Eq, Structural)]
pub struct Offset(pub u32);

impl Offset {
    pub fn new(o: u32) -> (r: Offset)
        ensures
            r == Offset(o),
    {
        Offset(o)
    }

    pub fn as_u32(&self) -> (r: u32)
        ensures
            r == self.0,
    {
        self.0
    }
}

/// The text from `low` up to, but not including, `high`.
#[derive(Clone, Copy, Debug, PartialEq, Eq, Structural)]
pub struct Span {
    low: Offset,
    high: Offset,
}

/// What the tree and the graph need from a value that stands for source
/// text.
pub trait HasSpan {
    spec fn spec_span(&self) -> Span;

    /// The span of source text that this value covers.
    fn span(&self) -> (r: Span)
        ensures
            r == self.spec_span(),
    ;
}

impl Span {
    #[verifier::type_invariant]
    spec fn ordered(self) -> bool {
        self.low.0 <= self.high.0
    }

    /// The span from `low` to `high` as a value of specifications.
    pub closed spec fn of(low: nat, high: nat) -> Span {
        Span { low: Offset(low as u32), high: Offset(high as u32) }
    }

    /// The lower bound of the span.
    pub closed spec fn start(self) -> nat {
        self.low.0 as nat
    }

    /// The upper bound of the span, which the span does not include.
    pub closed spec fn end(self) -> nat {
        self.high.0 as nat
    }

    /// A span is the pair of its bounds.
    pub broadcast proof fn lemma_of_bounds(low: nat, high: nat)
        requires
            low <= u32::MAX,
            high <= u32::MAX,
        ensures
            (#[trigger] Span::of(low, high)).start() == low,
            Span::of(low, high).end() == high,
    {
    }

    /// Two spans with the same bounds are the same span.
    pub proof fn lemma_ext(a: Span, b: Span)
        requires
            a.start() == b.start(),
            a.end() == b.end(),
        ensures
            a == b,
    {
    }

    pub fn new(low: Offset, high: Offset) -> (r: Span)
        requires
            low.0 <= high.0,
        ensures
            r == Span::of(low.0 as nat, high.0 as nat),
            r.start() == low.0,
            r.end() == high.0,
            r.start() <= r.end(),
    {
        Span { low, high }
    }

    /// Returns the lower bound of this span.
    pub fn low(&self) -> (r: Offset)
        ensures
            r.0 == self.start(),
    {
        self.low
    }

    /// Returns the upper bound of this span.
    pub fn high(&self) -> (r: Offset)
        ensures
            r.0 == self.end(),
    {
        self.high
    }

    /// The empty span at the start of the source map.
    pub fn zero() -> (r: Span)
        ensures
            r == Span::of(0, 0),
            r.start() == 0,
            r.end() == 0,
    {
        Span::new(Offset(0), Offset(0))
    }

    /// The smaller of two bounds.
    pub open spec fn least(a: nat, b: nat) -> nat {
        if a < b {
            a
        } else {
            b
        }
    }

    /// The larger of two bounds.
    pub open spec fn greatest(a: nat, b: nat) -> nat {
        if a < b {
            b
        } else {
            a
        }
    }

    /// Creates the smallest span that covers the two given spans.
    pub fn cover(a: Span, b: Span) -> (r: Span)
        ensures
            r.start() == Span::least(a.start(), b.start()),
            r.end() == Span::greatest(a.end(), b.end()),
    {
        proof {
            use_type_invariant(a);
            use_type_invariant(b);
        }
        let low = if a.low.0 < b.low.0 {
            a.low
        } else {
            b.low
        };
        let high = if a.high.0 < b.high.0 {
            b.high
        } else {
            a.high
        };
        Span::new(low, high)
    }

    /// Whether the two spans share at least one position.
    pub open spec fn overlaps(self, b: Span) -> bool {
        Span::greatest(self.start(), b.start()) < Span::least(self.end(), b.end())
    }

    /// Returns true if this span and the span `b` intersect.
    pub fn intersects(&self, b: Span) -> (r: bool)
        ensures
            r == self.overlaps(b),
    {
        self.intersection(b).is_some()
    }

    /// If this span and `b` intersect, returns the span that covers exactly
    /// the positions that both hold.
    pub fn intersection(&self, b: Span) -> (r: Option<Span>)
        ensures
            r is Some <==> self.overlaps(b),
            r is Some ==> r->0.start() == Span::greatest(self.start(), b.start()) && r->0.end()
                == Span::least(self.end(), b.end()),
    {
        let low = if self.low.0 < b.low.0 {
            b.low
        } else {
            self.low
        };
        let high = if self.high.0 < b.high.0 {
            self.high
        } else {
            b.high
        };
        if low.0 < high.0 {
            Some(Span::new(low, high))
        } else {
            None
        }
    }

    /// The empty span at the upper bound of `self`.  Instructions that the
    /// compiler inserts after a construct, and that no source text stands
    /// for, are tagged with it.
    pub fn end_point(&self) -> (r: Span)
        ensures
            r == Span::of(self.end(), self.end()),
            r.start() == self.end(),
            r.end() == self.end(),
    {
        Span::new(self.high, self.high)
    }
}

} // verus!
