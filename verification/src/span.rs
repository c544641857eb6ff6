//! Lengths of time with nanosecond resolution.

use vstd::prelude::*;

verus! {

/// Nanoseconds in one second.
pub const NANOS_PER_SEC: u32 = 1_000_000_000;

/// Nanoseconds in one second, as a mathematical number.
pub open spec fn nanos_per_sec() -> nat {
    1_000_000_000
}

/// The largest number of nanoseconds that a [`Span`] can hold.
pub open spec fn span_limit() -> nat {
    (u64::MAX as nat) * 1_000_000_000 + 999_999_999
}

/// A non-negative length of time: whole seconds and a sub-second part
/// counted in nanoseconds. Its view is the total number of nanoseconds.
#[derive(Clone, Copy, Debug, PartialEq, Eq, Structural)]
pub struct Span {
    secs: u64,
    nanos: u32,
}

impl View for Span {
    type V = nat;

    closed spec fn view(&self) -> nat {
        (self.secs as nat) * 1_000_000_000 + (self.nanos as nat)
    }
}

impl Span {
    /// The sub-second part stays below one second.
    #[verifier::type_invariant]
    pub closed spec fn wf(self) -> bool {
        self.nanos < NANOS_PER_SEC
    }

    /// The empty span.
    pub fn zero() -> (r: Span)
        ensures
            r@ == 0,
            r.wf(),
    {
        Span { secs: 0, nanos: 0 }
    }

    /// A span of whole seconds.
    pub fn from_secs(secs: u64) -> (r: Span)
        ensures
            r@ == (secs as nat) * nanos_per_sec(),
            r.wf(),
    {
        Span { secs, nanos: 0 }
    }

    /// A span of `secs` seconds and `nanos` nanoseconds. A sub-second part of
    /// a second or more is carried into the seconds; the result is `None`
    /// exactly when the total does not fit.
    pub fn new(secs: u64, nanos: u32) -> (r: Option<Span>)
        ensures
            r is Some <==> (secs as nat) * nanos_per_sec() + (nanos as nat) <= span_limit(),
            r matches Some(s) ==> s@ == (secs as nat) * nanos_per_sec() + (nanos as nat) && s.wf(),
    {
        let carry: u64 = (nanos / NANOS_PER_SEC) as u64;
        let rest: u32 = nanos % NANOS_PER_SEC;
        match secs.checked_add(carry) {
            Some(total) => Some(Span { secs: total, nanos: rest }),
            None => None,
        }
    }

    /// The whole seconds of the span.
    pub fn as_secs(&self) -> (r: u64)
        ensures
            r as nat == self@ / nanos_per_sec(),
    {
        proof {
            use_type_invariant(self);
        }
        self.secs
    }

    /// The part of the span below one second, in nanoseconds.
    pub fn subsec_nanos(&self) -> (r: u32)
        ensures
            r as nat == self@ % nanos_per_sec(),
            r < NANOS_PER_SEC,
    {
        proof {
            use_type_invariant(self);
        }
        self.nanos
    }

    /// Whether the span is empty.
    pub fn is_zero(&self) -> (r: bool)
        ensures
            r == (self@ == 0),
    {
        self.secs == 0 && self.nanos == 0
    }

    /// Whether this span is at most as long as `other`.
    pub fn at_most(&self, other: Span) -> (r: bool)
        ensures
            r == (self@ <= other@),
    {
        proof {
            use_type_invariant(self);
            use_type_invariant(other);
        }
        self.secs < other.secs || (self.secs == other.secs && self.nanos <= other.nanos)
    }

    /// The sum of two spans, or `None` exactly when it does not fit.
    pub fn checked_add(&self, other: Span) -> (r: Option<Span>)
        ensures
            r is Some <==> self@ + other@ <= span_limit(),
            r matches Some(s) ==> s@ == self@ + other@ && s.wf(),
    {
        proof {
            use_type_invariant(self);
            use_type_invariant(other);
        }
        let low: u32 = self.nanos + other.nanos;
        let carry: u64 = if low >= NANOS_PER_SEC { 1 } else { 0 };
        let rest: u32 = if low >= NANOS_PER_SEC { low - NANOS_PER_SEC } else { low };
        match self.secs.checked_add(other.secs) {
            Some(whole) => match whole.checked_add(carry) {
                Some(total) => Some(Span { secs: total, nanos: rest }),
                None => None,
            },
            None => None,
        }
    }

    /// The difference of two spans, or the empty span where `other` is the longer.
    pub fn saturating_sub(&self, other: Span) -> (r: Span)
        ensures
            r@ == if self@ >= other@ { self@ - other@ } else { 0 },
            r.wf(),
    {
        proof {
            use_type_invariant(self);
            use_type_invariant(other);
        }
        if self.secs < other.secs || (self.secs == other.secs && self.nanos < other.nanos) {
            Span { secs: 0, nanos: 0 }
        } else if self.nanos >= other.nanos {
            Span { secs: self.secs - other.secs, nanos: self.nanos - other.nanos }
        } else {
            Span {
                secs: self.secs - other.secs - 1,
                nanos: self.nanos + NANOS_PER_SEC - other.nanos,
            }
        }
    }
}

/// A span is nothing but its length: two well-formed spans of the same
/// length are the same span.
pub proof fn law_span_is_its_length(a: Span, b: Span)
    requires
        a.wf(),
        b.wf(),
        a@ == b@,
    ensures
        a == b,
{
}

/// A well-formed span is never longer than [`span_limit`].
pub proof fn lemma_span_within_limit(a: Span)
    requires
        a.wf(),
    ensures
        a@ <= span_limit(),
{
}

} // verus!
