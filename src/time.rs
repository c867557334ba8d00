//! Points in time as plain values, and the whole days between two of them.
use vstd::prelude::*;

verus! {

/// Nanoseconds in one second.
pub const NANOS_PER_SEC: i128 = 1_000_000_000;

/// Nanoseconds in one day of 86 400 seconds.
pub const NANOS_PER_DAY: i128 = 86_400_000_000_000;

/// A point in time in UTC: whole seconds since the Unix epoch and the
/// nanoseconds past that second.
#[derive(Clone, Copy, Debug, PartialEq, Eq, Structural)]
pub struct Timestamp {
    pub secs: i64,
    pub nanos: u32,
}

impl Timestamp {
    /// Nanoseconds since the Unix epoch.
    pub open spec fn total_nanos(self) -> int {
        self.secs * 1_000_000_000 + self.nanos
    }
}

/// Whole days from `earlier` to `later`, truncated toward zero.
pub open spec fn elapsed_days(later: Timestamp, earlier: Timestamp) -> int {
    let d = later.total_nanos() - earlier.total_nanos();
    if d >= 0 {
        d / 86_400_000_000_000
    } else {
        -((-d) / 86_400_000_000_000)
    }
}

/// Nanoseconds from `earlier` to `later`, exactly.
pub fn nanos_between(later: Timestamp, earlier: Timestamp) -> (r: i128)
    ensures
        r == later.total_nanos() - earlier.total_nanos(),
{
    let ds: i128 = later.secs as i128 - earlier.secs as i128;
    assert(-0x1_0000_0000_0000_0000 <= ds <= 0x1_0000_0000_0000_0000);
    let scaled: i128 = ds * NANOS_PER_SEC;
    assert(scaled == ds * 1_000_000_000);
    assert(later.total_nanos() - earlier.total_nanos() == ds * 1_000_000_000 + later.nanos
        - earlier.nanos) by (nonlinear_arith)
        requires
            ds == later.secs - earlier.secs,
    ;
    scaled + (later.nanos as i128 - earlier.nanos as i128)
}

proof fn lemma_days_at_least(d: int, k: int)
    requires
        k >= 1,
    ensures
        (if d >= 0 {
            d / 86_400_000_000_000
        } else {
            -((-d) / 86_400_000_000_000)
        }) >= k <==> d >= k * 86_400_000_000_000,
{
    let c: int = 86_400_000_000_000;
    if d >= 0 {
        let q = d / c;
        let r = d % c;
        assert(d == c * q + r && 0 <= r < c) by {
            vstd::arithmetic::div_mod::lemma_fundamental_div_mod(d, c);
        }
        assert(q >= k <==> d >= k * c) by (nonlinear_arith)
            requires
                d == c * q + r,
                0 <= r < c,
                c > 0,
        ;
    } else {
        assert((-d) / c >= 0) by {
            vstd::arithmetic::div_mod::lemma_div_pos_is_pos(-d, c);
        }
        assert(k * c > 0) by (nonlinear_arith)
            requires
                k >= 1,
                c > 0,
        ;
    }
}

/// Whether at least `days` whole days (one or more) lie between `earlier`
/// and `later`.
pub fn at_least_days_between(later: Timestamp, earlier: Timestamp, days: u32) -> (r: bool)
    requires
        days >= 1,
    ensures
        r == (elapsed_days(later, earlier) >= days),
{
    let d = nanos_between(later, earlier);
    proof {
        lemma_days_at_least(later.total_nanos() - earlier.total_nanos(), days as int);
    }
    d >= (days as i128) * NANOS_PER_DAY
}

/// Relies on chrono::Utc::now, read as seconds and subsecond nanoseconds
/// through DateTime::timestamp and DateTime::timestamp_subsec_nanos. Nothing
/// is known of the value: it is the clock's.
#[verifier::external_body]
pub(crate) fn now() -> (r: Timestamp) {
    let t = chrono::Utc::now();
    Timestamp { secs: t.timestamp(), nanos: t.timestamp_subsec_nanos() }
}

} // verus!
