//! Lengths of time.

use vstd::prelude::*;

verus! {

/// Nanoseconds in a second.
pub const NANOS_PER_SEC: u128 = 1_000_000_000;

/// Nanoseconds in a millisecond.
pub const NANOS_PER_MILLI: u128 = 1_000_000;

/// The longest length of time, in nanoseconds: `u64::MAX` seconds and one
/// nanosecond short of another.
pub const SPAN_MAX: u128 = 18_446_744_073_709_551_615_999_999_999;

/// A length of time with nanosecond resolution. Its view is the number of
/// nanoseconds, which never exceeds [`SPAN_MAX`].
#[derive(Clone, Copy, Debug)]
pub struct Span {
    nanos: u128,
}

impl View for Span {
    type V = nat;

    closed spec fn view(&self) -> nat {
        self.nanos as nat
    }
}

/// `Duration::new` made from whole seconds and the nanoseconds beyond them,
/// rendered by its `Debug` format.
pub uninterp spec fn duration_debug(secs: u64, subsec_nanos: u32) -> Seq<char>;

/// Renders a length of time with the `Debug` format of `std::time::Duration`.
/// The claim is only that the text depends on nothing but the two numbers.
#[verifier::external_body]
fn duration_debug_text(secs: u64, subsec_nanos: u32) -> (r: String)
    requires
        subsec_nanos < 1_000_000_000,
    ensures
        r@ == duration_debug(secs, subsec_nanos),
{
    format!("{:?}", std::time::Duration::new(secs, subsec_nanos))
}

/// The `Debug` text of a length of time of `nanos` nanoseconds.
pub open spec fn span_text(nanos: nat) -> Seq<char> {
    duration_debug((nanos / 1_000_000_000) as u64, (nanos % 1_000_000_000) as u32)
}

/// Whole milliseconds of `nanos`, kept to the low 64 bits.
pub open spec fn millis(nanos: nat) -> nat {
    (nanos / 1_000_000) % 0x1_0000_0000_0000_0000
}

impl Span {
    #[verifier::type_invariant]
    spec fn in_range(self) -> bool {
        self.nanos <= SPAN_MAX
    }

    /// `secs` seconds and `subsec_nanos` nanoseconds.
    pub fn new(secs: u64, subsec_nanos: u32) -> (r: Self)
        requires
            subsec_nanos < 1_000_000_000,
        ensures
            r@ == secs * 1_000_000_000 + subsec_nanos,
    {
        Span { nanos: (secs as u128) * NANOS_PER_SEC + (subsec_nanos as u128) }
    }

    /// `secs` seconds.
    pub fn from_secs(secs: u64) -> (r: Self)
        ensures
            r@ == secs * 1_000_000_000,
    {
        Span::new(secs, 0)
    }

    /// `ms` milliseconds.
    pub fn from_millis(ms: u64) -> (r: Self)
        ensures
            r@ == ms * 1_000_000,
    {
        Span { nanos: (ms as u128) * NANOS_PER_MILLI }
    }

    /// The whole length in nanoseconds.
    pub fn as_nanos(&self) -> (r: u128)
        ensures
            r == self@,
            r <= SPAN_MAX,
    {
        proof {
            use_type_invariant(self);
        }
        self.nanos
    }

    /// The whole seconds.
    pub fn as_secs(&self) -> (r: u64)
        ensures
            r == self@ / 1_000_000_000,
    {
        proof {
            use_type_invariant(self);
        }
        (self.nanos / NANOS_PER_SEC) as u64
    }

    /// The nanoseconds beyond the whole seconds.
    pub fn subsec_nanos(&self) -> (r: u32)
        ensures
            r == self@ % 1_000_000_000,
            r < 1_000_000_000,
    {
        (self.nanos % NANOS_PER_SEC) as u32
    }

    /// The whole milliseconds, kept to the low 64 bits.
    pub fn as_millis(&self) -> (r: u64)
        ensures
            r == millis(self@),
    {
        let ms: u128 = self.nanos / NANOS_PER_MILLI;
        proof {
            assert(ms as u64 == ms % 0x1_0000_0000_0000_0000u128) by (bit_vector);
        }
        ms as u64
    }

    /// Whether this is shorter than `other`.
    pub fn less_than(&self, other: &Span) -> (r: bool)
        ensures
            r == (self@ < other@),
    {
        self.nanos < other.nanos
    }

    /// The shorter of the two.
    pub fn min(self, other: Span) -> (r: Span)
        ensures
            r@ == if self@ <= other@ { self@ } else { other@ },
    {
        if self.nanos <= other.nanos {
            self
        } else {
            other
        }
    }

    /// One `parts`-th, rounded down.
    pub fn divided_by(&self, parts: u32) -> (r: Span)
        requires
            parts > 0,
        ensures
            r@ == self@ / (parts as nat),
    {
        proof {
            use_type_invariant(self);
            let n = self.nanos as int;
            let p = parts as int;
            assert(n / p <= n) by (nonlinear_arith)
                requires
                    n >= 0,
                    p > 0,
            ;
        }
        Span { nanos: self.nanos / (parts as u128) }
    }

    /// The text of the length, such as `150ms`.
    pub fn debug_text(&self) -> (r: String)
        ensures
            r@ == span_text(self@),
    {
        duration_debug_text(self.as_secs(), self.subsec_nanos())
    }
}

/// The time from `earlier` to `later` on one clock, none when `later` is not
/// later; the clock counts nanoseconds.
pub fn elapsed_between(earlier: u128, later: u128) -> (r: u128)
    ensures
        r == if later >= earlier { later - earlier } else { 0 },
{
    if later >= earlier {
        later - earlier
    } else {
        0
    }
}

} // verus!
