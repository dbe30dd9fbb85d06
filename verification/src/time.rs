//! Spans of time with nanosecond resolution.

use vstd::prelude::*;

verus! {

/// Nanoseconds in one second.
pub const NANOS_PER_SEC: u32 = 1_000_000_000;

/// Reads an `i64` field of a C `timespec` the way an `as u64` conversion does: negative values
/// wrap around to the upper half of the `u64` range.
pub open spec fn as_unsigned(x: i64) -> nat {
    if x >= 0 {
        x as nat
    } else {
        (x + 0x1_0000_0000_0000_0000int) as nat
    }
}

/// The whole seconds that a `timespec` of `tv_sec` seconds and `tv_nsec` nanoseconds, both read as
/// unsigned, amounts to.
pub open spec fn timespec_whole_secs(tv_sec: i64, tv_nsec: i64) -> nat {
    as_unsigned(tv_sec) + as_unsigned(tv_nsec) / 1_000_000_000
}

/// The nanoseconds that a `timespec`, read as unsigned, amounts to.
pub open spec fn timespec_nanos(tv_sec: i64, tv_nsec: i64) -> nat {
    as_unsigned(tv_sec) * 1_000_000_000 + as_unsigned(tv_nsec)
}

/// A span of time: whole seconds and the nanoseconds below a second. A point in time is the span
/// elapsed since the UNIX epoch.
pub struct TimeSpan {
    secs: u64,
    nanos: u32,
}

impl TimeSpan {
    #[verifier::type_invariant]
    spec fn sub_second(self) -> bool {
        self.nanos < NANOS_PER_SEC
    }

    /// The length of the span in nanoseconds.
    pub closed spec fn as_nanos(self) -> nat {
        self.secs as nat * 1_000_000_000 + self.nanos as nat
    }

    /// The span of `secs` seconds and `nanos` nanoseconds.
    pub fn from_parts(secs: u64, nanos: u32) -> (t: TimeSpan)
        requires
            nanos < NANOS_PER_SEC,
        ensures
            t.as_nanos() == secs as nat * 1_000_000_000 + nanos as nat,
    {
        TimeSpan { secs, nanos }
    }

    /// The point in time that a C `timespec` denotes, counted from the UNIX epoch: its seconds and
    /// its nanoseconds are each read as unsigned and added up. `None` when the result lies beyond
    /// the range of a system time, whose seconds are an `i64`.
    pub fn from_timespec(tv_sec: i64, tv_nsec: i64) -> (r: Option<TimeSpan>)
        ensures
            r is Some <==> timespec_whole_secs(tv_sec, tv_nsec) <= i64::MAX,
            r matches Some(t) ==> t.as_nanos() == timespec_nanos(tv_sec, tv_nsec),
    {
        let a: u64 = tv_sec as u64;
        let b: u64 = tv_nsec as u64;
        assert(tv_sec >= 0 ==> a == tv_sec) by (bit_vector)
            requires
                a == tv_sec as u64,
        ;
        assert(tv_sec < 0 ==> a == tv_sec + 0x1_0000_0000_0000_0000int) by (bit_vector)
            requires
                a == tv_sec as u64,
        ;
        assert(tv_nsec >= 0 ==> b == tv_nsec) by (bit_vector)
            requires
                b == tv_nsec as u64,
        ;
        assert(tv_nsec < 0 ==> b == tv_nsec + 0x1_0000_0000_0000_0000int) by (bit_vector)
            requires
                b == tv_nsec as u64,
        ;
        assert(a == as_unsigned(tv_sec));
        assert(b == as_unsigned(tv_nsec));
        let carry: u64 = b / 1_000_000_000;
        let rest: u64 = b % 1_000_000_000;
        assert(b == carry * 1_000_000_000 + rest);
        match a.checked_add(carry) {
            None => None,
            Some(secs) => {
                if secs > i64::MAX as u64 {
                    None
                } else {
                    Some(TimeSpan { secs, nanos: rest as u32 })
                }
            },
        }
    }

    /// Whole seconds of the span.
    pub fn secs(&self) -> (s: u64)
        ensures
            s as nat * 1_000_000_000 <= self.as_nanos() < (s as nat + 1) * 1_000_000_000,
    {
        proof {
            use_type_invariant(self);
        }
        self.secs
    }

    /// Nanoseconds of the span below its whole seconds.
    pub fn subsec_nanos(&self) -> (n: u32)
        ensures
            n < NANOS_PER_SEC,
            n as nat == self.as_nanos() % 1_000_000_000,
    {
        proof {
            use_type_invariant(self);
        }
        self.nanos
    }

    /// The span from `earlier` to `self`; `None` when `earlier` lies after `self`.
    pub fn duration_since(&self, earlier: &TimeSpan) -> (r: Option<TimeSpan>)
        ensures
            elapsed_between(*earlier, *self, r),
            r is Some <==> self.as_nanos() >= earlier.as_nanos(),
            r matches Some(d) ==> d.as_nanos() + earlier.as_nanos() == self.as_nanos(),
    {
        proof {
            use_type_invariant(self);
            use_type_invariant(earlier);
        }
        if self.secs > earlier.secs || (self.secs == earlier.secs && self.nanos >= earlier.nanos) {
            if self.nanos >= earlier.nanos {
                Some(TimeSpan { secs: self.secs - earlier.secs, nanos: self.nanos - earlier.nanos })
            } else {
                Some(
                    TimeSpan {
                        secs: self.secs - earlier.secs - 1,
                        nanos: self.nanos + (NANOS_PER_SEC - earlier.nanos),
                    },
                )
            }
        } else {
            None
        }
    }
}

/// A `timespec` with nonnegative fields denotes `tv_sec` seconds plus `tv_nsec` nanoseconds,
/// and it lies within the range of a system time exactly when those add up to at most `i64::MAX`
/// whole seconds.
pub proof fn lemma_nonnegative_timespec(tv_sec: i64, tv_nsec: i64)
    requires
        tv_sec >= 0,
        tv_nsec >= 0,
    ensures
        timespec_nanos(tv_sec, tv_nsec) == tv_sec * 1_000_000_000 + tv_nsec,
        timespec_whole_secs(tv_sec, tv_nsec) <= i64::MAX <==> tv_sec + tv_nsec / 1_000_000_000
            <= i64::MAX,
{
}

/// Any `timespec` denotes its seconds, read as unsigned, times a billion plus its nanoseconds,
/// read as unsigned; its whole seconds carry the nanoseconds beyond a second into the seconds.
pub proof fn lemma_timespec_value(tv_sec: i64, tv_nsec: i64)
    ensures
        timespec_nanos(tv_sec, tv_nsec) == (if tv_sec >= 0 {
            tv_sec as int
        } else {
            tv_sec + 0x1_0000_0000_0000_0000int
        }) * 1_000_000_000 + (if tv_nsec >= 0 {
            tv_nsec as int
        } else {
            tv_nsec + 0x1_0000_0000_0000_0000int
        }),
        timespec_whole_secs(tv_sec, tv_nsec) == timespec_nanos(tv_sec, tv_nsec) / 1_000_000_000,
{
    let a = as_unsigned(tv_sec) as int;
    let b = as_unsigned(tv_nsec) as int;
    assert((a * 1_000_000_000 + b) / 1_000_000_000 == a + b / 1_000_000_000) by (nonlinear_arith)
        requires
            a >= 0,
            b >= 0,
    ;
}

/// A negative `timespec` field is read as the `u64` with the same bits: it wraps to the upper
/// half of the `u64` range, which lies beyond any system time.
pub proof fn lemma_negative_field_wraps(x: i64)
    requires
        x < 0,
    ensures
        as_unsigned(x) == x + 0x1_0000_0000_0000_0000int,
        as_unsigned(x) > i64::MAX,
{
}

/// `r` is what measuring from `earlier` to `later` gives: the difference when `later` is not
/// before `earlier`, and nothing otherwise.
pub open spec fn elapsed_between(earlier: TimeSpan, later: TimeSpan, r: Option<TimeSpan>) -> bool {
    &&& r is Some <==> later.as_nanos() >= earlier.as_nanos()
    &&& r matches Some(d) ==> d.as_nanos() == later.as_nanos() - earlier.as_nanos()
}

} // verus!
