//! Points on the monotonic clock, and how two optional deadlines combine.

use vstd::prelude::*;

verus! {

/// A point on the monotonic clock, counted in nanoseconds from the clock's
/// origin. A later instant has the larger count.
#[derive(Clone, Copy, PartialEq, Eq, Structural, Debug)]
pub struct Instant {
    pub nanos: u64,
}

impl Instant {
    /// The instant `nanos` nanoseconds after the clock's origin.
    pub fn from_nanos(nanos: u64) -> (t: Instant)
        ensures
            t.nanos == nanos,
    {
        Instant { nanos }
    }

    /// The nanoseconds between the clock's origin and this instant.
    pub fn as_nanos(self) -> (n: u64)
        ensures
            n == self.nanos,
    {
        self.nanos
    }

    /// Whether this instant is `other` or comes after it.
    pub open spec fn reached(self, other: Instant) -> bool {
        self.nanos >= other.nanos
    }

    /// Whether this instant is `other` or comes after it.
    pub fn has_reached(self, other: Instant) -> (r: bool)
        ensures
            r == self.reached(other),
    {
        self.nanos >= other.nanos
    }

    /// The earlier of two instants.
    pub open spec fn earlier(self, other: Instant) -> Instant {
        if self.nanos <= other.nanos {
            self
        } else {
            other
        }
    }
}

/// The sooner of two optional deadlines, where a missing deadline stands for
/// "never": it does not shorten the other one.
pub open spec fn spec_min_timeout(a: Option<Instant>, b: Option<Instant>) -> Option<Instant> {
    match (a, b) {
        (None, _) => b,
        (Some(_), None) => a,
        (Some(x), Some(y)) => Some(x.earlier(y)),
    }
}

/// Combines two optional deadlines into the one that comes first.
///
/// `None` is an infinite timeout, not a zero one, so this is not the minimum
/// of two `Option`s: a deadline on one side always wins over `None` on the
/// other.
pub fn min_timeout(a: Option<Instant>, b: Option<Instant>) -> (r: Option<Instant>)
    ensures
        r == spec_min_timeout(a, b),
{
    match a {
        None => b,
        Some(a_timeout) => match b {
            None => Some(a_timeout),
            Some(b_timeout) => if a_timeout.nanos <= b_timeout.nanos {
                Some(a_timeout)
            } else {
                Some(b_timeout)
            },
        },
    }
}

/// A missing deadline is neutral: combined with any value, on either side,
/// it gives that value back, and two missing deadlines give none. Two
/// deadlines combine to the one with the smaller count.
pub proof fn min_timeout_treats_none_as_never(a: Instant, b: Instant, v: Option<Instant>)
    ensures
        spec_min_timeout(None, v) == v,
        spec_min_timeout(v, None) == v,
        spec_min_timeout(None, None) == None::<Instant>,
        spec_min_timeout(Some(a), Some(b)) == Some(
            Instant { nanos: if a.nanos <= b.nanos { a.nanos } else { b.nanos } },
        ),
        spec_min_timeout(Some(a), Some(b)) == Some(a) || spec_min_timeout(Some(a), Some(b)) == Some(b),
{
}

/// The order of the two deadlines does not matter, and the result is never
/// later than either of them.
pub proof fn min_timeout_is_a_minimum(a: Option<Instant>, b: Option<Instant>)
    ensures
        spec_min_timeout(a, b) == spec_min_timeout(b, a),
        a matches Some(x) ==> spec_min_timeout(a, b) matches Some(m) && m.nanos <= x.nanos,
        b matches Some(y) ==> spec_min_timeout(a, b) matches Some(m) && m.nanos <= y.nanos,
        spec_min_timeout(a, b) is None <==> a is None && b is None,
{
}

} // verus!
