//! Points in time and lengths of time, as whole seconds and nanoseconds.

use std::time::{Duration, SystemTime, SystemTimeError};
use vstd::prelude::*;

verus! {

/// Nanoseconds in one second.
pub const NANOS_PER_SEC: u32 = 1_000_000_000;

/// The largest number of seconds that the store keeps: it holds times as
/// signed 64-bit integers.
pub const MAX_STORED_SECS: u64 = 0x7fff_ffff_ffff_ffff;

/// A length of time: whole seconds and a fraction below one second.
#[derive(Clone, Copy, Debug, PartialEq, Eq, Structural)]
pub struct Span {
    pub secs: u64,
    pub nanos: u32,
}

/// A point in time: the time that has passed since the Unix epoch.
#[derive(Clone, Copy, Debug, PartialEq, Eq, Structural)]
pub struct Moment {
    pub secs: u64,
    pub nanos: u32,
}

/// Nanoseconds in `secs` whole seconds and `nanos` more.
pub open spec fn nanos_of(secs: u64, nanos: u32) -> nat {
    (secs as nat) * (NANOS_PER_SEC as nat) + (nanos as nat)
}

/// `a + b`, held at the largest `u64`.
pub open spec fn sat_add(a: int, b: int) -> int {
    if a + b > u64::MAX {
        u64::MAX as int
    } else {
        a + b
    }
}

/// Two lengths given by seconds and a fraction order as their seconds, then
/// their fractions.
pub proof fn lemma_nanos_order(s1: u64, n1: u32, s2: u64, n2: u32)
    requires
        n1 < NANOS_PER_SEC,
        n2 < NANOS_PER_SEC,
    ensures
        nanos_of(s1, n1) >= nanos_of(s2, n2) <==> (s1 > s2 || (s1 == s2 && n1 >= n2)),
        nanos_of(s1, n1) == nanos_of(s2, n2) <==> (s1 == s2 && n1 == n2),
{
    assert(s1 > s2 ==> (s1 as nat) * (NANOS_PER_SEC as nat) >= ((s2 as nat) + 1) * (
    NANOS_PER_SEC as nat)) by (nonlinear_arith);
    assert(s2 > s1 ==> (s2 as nat) * (NANOS_PER_SEC as nat) >= ((s1 as nat) + 1) * (
    NANOS_PER_SEC as nat)) by (nonlinear_arith);
    assert(((s2 as nat) + 1) * (NANOS_PER_SEC as nat) == (s2 as nat) * (NANOS_PER_SEC as nat)
        + NANOS_PER_SEC) by (nonlinear_arith);
    assert(((s1 as nat) + 1) * (NANOS_PER_SEC as nat) == (s1 as nat) * (NANOS_PER_SEC as nat)
        + NANOS_PER_SEC) by (nonlinear_arith);
}

impl Span {
    /// The fraction is below one second.
    pub open spec fn wf(&self) -> bool {
        self.nanos < NANOS_PER_SEC
    }

    /// The length in nanoseconds.
    pub open spec fn as_nanos(&self) -> nat {
        nanos_of(self.secs, self.nanos)
    }

    /// A span of whole seconds.
    pub fn from_secs(secs: u64) -> (s: Span)
        ensures
            s.wf(),
            s.secs == secs,
            s.nanos == 0,
    {
        Span { secs, nanos: 0 }
    }

    /// The span that a `Duration` holds: its whole seconds and its fraction.
    pub fn from_duration(d: &Duration) -> (s: Span)
        ensures
            s == span_of(*d),
            s.wf(),
    {
        Span { secs: d.as_secs(), nanos: d.subsec_nanos() }
    }

    /// Whether this span is at least as long as `other`: by the seconds,
    /// then by the fractions.
    pub open spec fn spec_at_least(&self, other: Span) -> bool {
        self.secs > other.secs || (self.secs == other.secs && self.nanos >= other.nanos)
    }

    /// Whether this span is at least as long as `other`.
    pub fn at_least(&self, other: &Span) -> (r: bool)
        ensures
            r == self.spec_at_least(*other),
            self.wf() && other.wf() ==> r == (self.as_nanos() >= other.as_nanos()),
    {
        proof {
            if self.wf() && other.wf() {
                lemma_nanos_order(self.secs, self.nanos, other.secs, other.nanos);
            }
        }
        self.secs > other.secs || (self.secs == other.secs && self.nanos >= other.nanos)
    }
}

impl Moment {
    /// The fraction is below one second.
    pub open spec fn wf(&self) -> bool {
        self.nanos < NANOS_PER_SEC
    }

    /// Nanoseconds since the epoch.
    pub open spec fn as_nanos(&self) -> nat {
        nanos_of(self.secs, self.nanos)
    }

    /// The second in which the moment `ttl` after `self` falls, held at the
    /// largest `u64`.
    pub open spec fn spec_expiry(&self, ttl: Span) -> int {
        if self.nanos + ttl.nanos >= NANOS_PER_SEC {
            sat_add(sat_add(self.secs as int, ttl.secs as int), 1)
        } else {
            sat_add(self.secs as int, ttl.secs as int)
        }
    }

    /// The second in which the moment `ttl` after `self` falls.
    pub fn expiry(&self, ttl: &Span) -> (exp: u64)
        ensures
            exp == self.spec_expiry(*ttl),
            self.wf() && ttl.wf() ==> exp as nat * (NANOS_PER_SEC as nat) <= self.as_nanos()
                + ttl.as_nanos(),
            self.wf() && ttl.wf() && exp < u64::MAX ==> self.as_nanos() + ttl.as_nanos() < (
            exp as nat + 1) * (NANOS_PER_SEC as nat),
    {
        let whole: u64 = self.secs.saturating_add(ttl.secs);
        let carry: u64 = if self.nanos as u64 + ttl.nanos as u64 >= NANOS_PER_SEC as u64 {
            1
        } else {
            0
        };
        let exp: u64 = whole.saturating_add(carry);
        proof {
            let n = NANOS_PER_SEC as nat;
            assert((self.secs as nat + ttl.secs as nat) * n == (self.secs as nat) * n + (
            ttl.secs as nat) * n) by (nonlinear_arith);
            assert((self.secs as nat + ttl.secs as nat + 1) * n == (self.secs as nat) * n + (
            ttl.secs as nat) * n + n) by (nonlinear_arith);
            assert((self.secs as nat + ttl.secs as nat + 2) * n == (self.secs as nat) * n + (
            ttl.secs as nat) * n + 2 * n) by (nonlinear_arith);
            assert(exp as nat <= self.secs as nat + ttl.secs as nat + carry as nat);
            assert((exp as nat) * n <= (self.secs as nat + ttl.secs as nat + carry as nat) * n)
                by (nonlinear_arith)
                requires
                    exp as nat <= self.secs as nat + ttl.secs as nat + carry as nat,
            ;
        }
        exp
    }

    /// The time from second `prev_secs` to this moment, if that second is
    /// not later than this moment.
    pub open spec fn spec_since(&self, prev_secs: u64) -> Option<Span> {
        if prev_secs <= self.secs {
            Some(Span { secs: (self.secs - prev_secs) as u64, nanos: self.nanos })
        } else {
            None
        }
    }

    /// The time from second `prev_secs` to this moment; `None` where that
    /// second lies after this moment.
    pub fn since(&self, prev_secs: u64) -> (r: Option<Span>)
        ensures
            r == self.spec_since(prev_secs),
            self.wf() ==> (r matches Some(s) ==> s.wf() && s.as_nanos() + nanos_of(prev_secs, 0)
                == self.as_nanos()),
            self.wf() ==> (r is None <==> nanos_of(prev_secs, 0) > self.as_nanos()),
    {
        proof {
            if self.wf() {
                lemma_nanos_order(self.secs, self.nanos, prev_secs, 0);
            }
            if prev_secs <= self.secs {
                assert((self.secs - prev_secs) as nat * (NANOS_PER_SEC as nat) + (
                prev_secs as nat) * (NANOS_PER_SEC as nat) == (self.secs as nat) * (
                NANOS_PER_SEC as nat)) by (nonlinear_arith)
                    requires
                        prev_secs <= self.secs,
                ;
            }
        }
        if prev_secs <= self.secs {
            Some(Span { secs: self.secs - prev_secs, nanos: self.nanos })
        } else {
            None
        }
    }

    /// The moment that a clock reading holds: the time from the epoch to
    /// the reading; std's error for a reading that lies before the epoch.
    pub fn from_system_time(t: &SystemTime) -> (r: Result<Moment, SystemTimeError>)
        ensures
            match epoch_offset(*t) {
                Some(offset) => r is Ok && r->Ok_0.secs == offset.secs && r->Ok_0.nanos
                    == offset.nanos,
                None => r is Err,
            },
            r matches Ok(m) ==> m.wf(),
    {
        match since_epoch(t) {
            Ok(d) => Ok(Moment { secs: d.as_secs(), nanos: d.subsec_nanos() }),
            Err(e) => Err(e),
        }
    }

    /// The moment the system clock shows; an error where it shows a time
    /// before the epoch.
    pub fn now() -> (r: Result<Moment, SystemTimeError>)
        ensures
            r matches Ok(m) ==> m.wf(),
    {
        let t = wall_clock();
        Moment::from_system_time(&t)
    }
}

/// `std::time::SystemTime`, a reading of the system clock. What a value
/// holds is seen through `epoch_offset` alone.
#[verifier::external_type_specification]
#[verifier::external_body]
pub struct ExSystemTime(SystemTime);

/// `std::time::SystemTimeError`, the error of a clock reading that lies
/// before the time it is measured from.
#[verifier::external_type_specification]
#[verifier::external_body]
pub struct ExSystemTimeError(SystemTimeError);

/// The whole seconds that a duration holds.
pub uninterp spec fn duration_secs(d: Duration) -> u64;

/// The fraction of a second that a duration holds beside its whole
/// seconds, in nanoseconds.
pub uninterp spec fn duration_subsec_nanos(d: Duration) -> u32;

/// The time from the Unix epoch to a clock reading; `None` for a reading
/// that lies before the epoch.
pub uninterp spec fn epoch_offset(t: SystemTime) -> Option<Span>;

/// The span that a duration holds.
pub open spec fn span_of(d: Duration) -> Span {
    Span { secs: duration_secs(d), nanos: duration_subsec_nanos(d) }
}

/// `Duration::as_secs`: the whole seconds of a duration. They depend on
/// the duration alone, so they have a name.
pub assume_specification[ Duration::as_secs ](d: &Duration) -> (secs: u64)
    ensures
        secs == duration_secs(*d),
;

/// `Duration::subsec_nanos`: the fraction of a duration in nanoseconds,
/// which std documents as always below one second. It depends on the
/// duration alone, so it has a name.
pub assume_specification[ Duration::subsec_nanos ](d: &Duration) -> (nanos: u32)
    ensures
        nanos == duration_subsec_nanos(*d),
        nanos < NANOS_PER_SEC,
;

/// `SystemTime::now`: reads the system clock. Nothing is claimed of the
/// reading.
#[verifier::external_body]
fn wall_clock() -> (t: SystemTime) {
    SystemTime::now()
}

/// `SystemTime::duration_since`, measured from the Unix epoch: the time
/// from the epoch to `t`, or std's error where `t` lies before the epoch.
/// The result depends on the reading alone, so it has a name.
#[verifier::external_body]
fn since_epoch(t: &SystemTime) -> (r: Result<Duration, SystemTimeError>)
    ensures
        r matches Ok(d) ==> epoch_offset(*t) == Some(span_of(d)),
        r is Err ==> epoch_offset(*t) is None,
{
    t.duration_since(std::time::UNIX_EPOCH)
}

} // verus!
