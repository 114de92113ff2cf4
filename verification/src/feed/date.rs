//! Points in time, as feeds give them.

use vstd::prelude::*;

verus! {

/// A point in time: whole seconds since the start of 1970 in universal time,
/// which are negative before it, and the nanoseconds that follow them.
#[derive(Debug, Clone, Copy, PartialEq, Eq, PartialOrd, Ord, Hash, Structural)]
pub struct Timestamp {
    pub secs: i64,
    pub nanos: u32,
}

impl Timestamp {
    /// The distance from the start of 1970, in nanoseconds.
    pub open spec fn instant(self) -> int {
        self.secs * 1_000_000_000 + self.nanos
    }

    /// Whether `self` is strictly earlier than `other`.
    pub open spec fn earlier_than(self, other: Timestamp) -> bool {
        self.secs < other.secs || (self.secs == other.secs && self.nanos < other.nanos)
    }

    /// The whole seconds from the start of 1970 to `self`; none where `self`
    /// lies before it.
    pub open spec fn whole_seconds(self) -> Option<u64> {
        if self.instant() < 0 {
            None
        } else {
            Some((self.instant() / 1_000_000_000) as u64)
        }
    }

    pub fn new(secs: i64, nanos: u32) -> (t: Timestamp)
        ensures
            t.secs == secs,
            t.nanos == nanos,
    {
        Timestamp { secs, nanos }
    }

    /// Whether `self` is strictly earlier than `other`.
    pub fn is_before(&self, other: &Timestamp) -> (r: bool)
        ensures
            r == self.earlier_than(*other),
    {
        self.secs < other.secs || (self.secs == other.secs && self.nanos < other.nanos)
    }

    /// The whole seconds from the start of 1970 to `self`; none where `self`
    /// lies before it.
    pub fn epoch_seconds(&self) -> (seconds: Option<u64>)
        ensures
            seconds == self.whole_seconds(),
    {
        let total: i128 = (self.secs as i128) * 1_000_000_000 + (self.nanos as i128);
        if total < 0 {
            None
        } else {
            Some((total / 1_000_000_000) as u64)
        }
    }
}

/// The order of optional dates: a missing date is earlier than every date.
pub open spec fn date_earlier(a: Option<Timestamp>, b: Option<Timestamp>) -> bool {
    match (a, b) {
        (None, None) => false,
        (None, Some(_)) => true,
        (Some(_), None) => false,
        (Some(x), Some(y)) => x.earlier_than(y),
    }
}

/// Whether the date `a` is strictly earlier than `b`, a missing date being
/// earlier than every date.
pub fn is_date_earlier(a: &Option<Timestamp>, b: &Option<Timestamp>) -> (r: bool)
    ensures
        r == date_earlier(*a, *b),
{
    match (a, b) {
        (None, None) => false,
        (None, Some(_)) => true,
        (Some(_), None) => false,
        (Some(x), Some(y)) => x.is_before(y),
    }
}

/// No two dates are each earlier than the other, and of two different dates
/// one is the earlier.
pub proof fn lemma_date_order_total(a: Option<Timestamp>, b: Option<Timestamp>)
    ensures
        !(date_earlier(a, b) && date_earlier(b, a)),
        a != b ==> date_earlier(a, b) || date_earlier(b, a),
{
}

/// The order of dates is transitive.
pub proof fn lemma_date_order_transitive(
    a: Option<Timestamp>,
    b: Option<Timestamp>,
    c: Option<Timestamp>,
)
    requires
        !date_earlier(a, b),
        !date_earlier(b, c),
    ensures
        !date_earlier(a, c),
{
}

} // verus!
