use vstd::prelude::*;

use core::cmp::Ordering;
use vstd::std_specs::cmp::PartialOrdSpec;

use crate::host::{Clock, Host, Timespec};
use crate::stubs::time::{clock_gettime, CTimespec, CLOCK_REALTIME};

verus! {

/// Nanoseconds in one second.
pub const NANOS_PER_SEC: u32 = 1_000_000_000;

/// The earliest instant that a `SystemTime` can hold, in nanoseconds since
/// the epoch.
pub open spec fn min_instant() -> int {
    i64::MIN * 1_000_000_000
}

/// The latest instant that a `SystemTime` can hold, in nanoseconds since
/// the epoch.
pub open spec fn max_instant() -> int {
    i64::MAX * 1_000_000_000 + 999_999_999
}

/// Whether an instant, in nanoseconds since the epoch, can be a `SystemTime`.
pub open spec fn representable(v: int) -> bool {
    min_instant() <= v <= max_instant()
}

/// The instant, in nanoseconds since the epoch, that a reading of the wall
/// clock gives: the reading, or the epoch when the clock failed.
pub open spec fn reading_instant(a: crate::host::Result<Timespec>) -> int {
    match a {
        Ok(t) => t.sec * 1_000_000_000 + t.nsec,
        Err(_) => 0,
    }
}

/// A span of time: whole seconds and the nanoseconds of the last second.
#[derive(Clone, Copy, Debug, PartialEq, Eq, Structural)]
pub struct Duration {
    secs: u64,
    nanos: u32,
}

impl Duration {
    #[verifier::type_invariant]
    spec fn inv(self) -> bool {
        self.nanos < NANOS_PER_SEC
    }

    /// The whole seconds.
    pub closed spec fn secs(self) -> u64 {
        self.secs
    }

    /// The nanoseconds beyond the whole seconds.
    pub closed spec fn nanos(self) -> u32 {
        self.nanos
    }

    /// `secs` seconds and `nanos` nanoseconds; nanoseconds past a second
    /// carry into the seconds.
    pub fn new(secs: u64, nanos: u32) -> (r: Duration)
        requires
            secs + nanos / NANOS_PER_SEC <= u64::MAX,
        ensures
            r@ == secs * 1_000_000_000 + nanos,
    {
        let extra = (nanos / NANOS_PER_SEC) as u64;
        Duration { secs: secs + extra, nanos: nanos % NANOS_PER_SEC }
    }

    /// The whole seconds of the span.
    pub fn as_secs(&self) -> (r: u64)
        ensures
            r == self@ / 1_000_000_000,
            r == self.secs(),
    {
        proof {
            use_type_invariant(self);
        }
        self.secs
    }

    /// The nanoseconds of the span beyond its whole seconds.
    pub fn subsec_nanos(&self) -> (r: u32)
        ensures
            r == self@ % 1_000_000_000,
            r == self.nanos(),
            r < NANOS_PER_SEC,
    {
        proof {
            use_type_invariant(self);
        }
        self.nanos
    }
}

impl View for Duration {
    type V = nat;

    /// The span in nanoseconds.
    closed spec fn view(&self) -> nat {
        (self.secs * 1_000_000_000 + self.nanos) as nat
    }
}

/// An instant of the wall clock: seconds and nanoseconds since the epoch,
/// with the nanoseconds always below one second.
#[derive(Clone, Copy, Debug, PartialEq, Eq, Structural, Ord)]
pub struct SystemTime {
    tv_sec: i64,
    tv_nsec: i64,
}

/// The answer of `duration_since` when the earlier instant is in fact later:
/// how much later it is.
#[derive(Clone, Copy, Debug)]
pub struct SystemTimeError {
    duration: Duration,
}

impl SystemTimeError {
    /// How far the second instant lies after the first.
    pub closed spec fn span(self) -> Duration {
        self.duration
    }

    /// How far the second instant lies after the first.
    pub fn duration(&self) -> (r: Duration)
        ensures
            r == self.span(),
    {
        self.duration
    }
}

impl SystemTime {
    #[verifier::type_invariant]
    spec fn inv(self) -> bool {
        0 <= self.tv_nsec < NANOS_PER_SEC
    }

    /// The instant in nanoseconds since the epoch.
    pub closed spec fn instant(self) -> int {
        self.tv_sec * 1_000_000_000 + self.tv_nsec
    }

    /// The time at instant `v`, given in nanoseconds since the epoch.
    pub closed spec fn at(v: int) -> SystemTime {
        SystemTime { tv_sec: (v / 1_000_000_000) as i64, tv_nsec: (v % 1_000_000_000) as i64 }
    }

    /// Whether the fields hold a normalized instant.
    pub closed spec fn valid(self) -> bool {
        self.inv()
    }

    /// The epoch, 1970-01-01 00:00:00 UTC.
    pub fn unix_epoch() -> (r: SystemTime)
        ensures
            r@ == 0,
            r.valid(),
    {
        SystemTime { tv_sec: 0, tv_nsec: 0 }
    }

    /// The time that a C `timespec` read from the wall clock holds.
    pub fn from_clock(ts: CTimespec) -> (r: SystemTime)
        requires
            0 <= ts.tv_nsec < NANOS_PER_SEC,
        ensures
            r@ == ts.tv_sec * 1_000_000_000 + ts.tv_nsec,
            r.valid(),
    {
        SystemTime { tv_sec: ts.tv_sec, tv_nsec: ts.tv_nsec }
    }

    /// The whole seconds since the epoch, rounded down: the `time_t` of C.
    pub fn unix_seconds(&self) -> (r: i64)
        ensures
            r == self@ / 1_000_000_000,
    {
        proof {
            use_type_invariant(self);
            vstd::arithmetic::div_mod::lemma_fundamental_div_mod_converse(
                self@, 1_000_000_000, self.tv_sec as int, self.tv_nsec as int);
        }
        self.tv_sec
    }

    /// The current wall-clock time as the host reports it, or the epoch
    /// when the host cannot tell.
    pub fn now<H: Host + ?Sized>(host: &H) -> (r: SystemTime)
        ensures
            r.valid(),
            exists|a: crate::host::Result<Timespec>| #[trigger]
                call_ensures(H::get_time, (host, Clock::Realtime), a) && r@ == reading_instant(a),
    {
        let mut ts = CTimespec { tv_sec: 0, tv_nsec: 0 };
        let _ = clock_gettime(host, CLOCK_REALTIME, &mut ts);
        Self::from_clock(ts)
    }

    /// Turns an instant with any nanosecond count into a normalized time:
    /// whole seconds move from the nanoseconds into the seconds. `None` when
    /// the seconds leave the range of `i64` on the way.
    fn normalize(sec: i64, nsec: i64) -> (r: Option<SystemTime>)
        ensures
            r == (if representable(sec * 1_000_000_000 + nsec) {
                Some(Self::at(sec * 1_000_000_000 + nsec))
            } else {
                None::<SystemTime>
            }),
    {
        let ghost v: int = sec * 1_000_000_000 + nsec;
        let mut tv_sec = sec;
        let mut tv_nsec = nsec;
        while tv_nsec >= 1_000_000_000
            invariant
                v == sec * 1_000_000_000 + nsec,
                tv_sec * 1_000_000_000 + tv_nsec == v,
            decreases tv_nsec,
        {
            tv_sec = match tv_sec.checked_add(1) {
                Some(s) => s,
                None => {
                    return None;
                },
            };
            tv_nsec = tv_nsec - 1_000_000_000;
        }
        while tv_nsec < 0
            invariant
                v == sec * 1_000_000_000 + nsec,
                tv_sec * 1_000_000_000 + tv_nsec == v,
                tv_nsec < 1_000_000_000,
            decreases 1_000_000_000 - tv_nsec,
        {
            tv_sec = match tv_sec.checked_sub(1) {
                Some(s) => s,
                None => {
                    return None;
                },
            };
            tv_nsec = tv_nsec + 1_000_000_000;
        }
        assert(tv_sec == v / 1_000_000_000 && tv_nsec == v % 1_000_000_000) by {
            vstd::arithmetic::div_mod::lemma_fundamental_div_mod_converse(
                v, 1_000_000_000, tv_sec as int, tv_nsec as int);
        }
        Some(SystemTime { tv_sec, tv_nsec })
    }
}

impl SystemTime {
    /// What `checked_add(d)` answers: the time `d` later, if representable.
    pub open spec fn checked_add_spec(self, d: Duration) -> Option<SystemTime> {
        if representable(self@ + d@) {
            Some(Self::at(self@ + d@))
        } else {
            None
        }
    }

    /// What `checked_sub(d)` answers: the time `d` earlier, if representable.
    pub open spec fn checked_sub_spec(self, d: Duration) -> Option<SystemTime> {
        if representable(self@ - d@) {
            Some(Self::at(self@ - d@))
        } else {
            None
        }
    }

    /// The span from `earlier` to `later`, which is not before it.
    fn span_between(later: &SystemTime, earlier: &SystemTime) -> (r: Duration)
        requires
            later@ >= earlier@,
        ensures
            r@ == later@ - earlier@,
    {
        proof {
            use_type_invariant(later);
            use_type_invariant(earlier);
        }
        let mut tv_sec: i128 = later.tv_sec as i128 - earlier.tv_sec as i128;
        let mut tv_nsec: i64 = later.tv_nsec - earlier.tv_nsec;
        while tv_nsec < 0
            invariant
                tv_sec * 1_000_000_000 + tv_nsec == later@ - earlier@,
                later@ - earlier@ >= 0,
                later@ - earlier@ <= max_instant() - min_instant(),
                -1_000_000_000 < tv_nsec < 1_000_000_000,
                i64::MIN - i64::MAX <= tv_sec <= i64::MAX - i64::MIN,
            decreases 1_000_000_000 - tv_nsec,
        {
            tv_sec = tv_sec - 1;
            tv_nsec = tv_nsec + 1_000_000_000;
        }
        Duration::new(tv_sec as u64, tv_nsec as u32)
    }

    /// The span from `earlier` to `self`; when `earlier` is in fact later,
    /// the error carries the span from `self` to it.
    pub fn duration_since(&self, earlier: SystemTime) -> (r: Result<Duration, SystemTimeError>)
        ensures
            match r {
                Ok(d) => self@ >= earlier@ && d@ == self@ - earlier@,
                Err(e) => self@ < earlier@ && e.span()@ == earlier@ - self@,
            },
    {
        proof {
            use_type_invariant(self);
            use_type_invariant(&earlier);
        }
        if self.tv_sec < earlier.tv_sec || (self.tv_sec == earlier.tv_sec && self.tv_nsec
            < earlier.tv_nsec) {
            let duration = Self::span_between(&earlier, self);
            return Err(SystemTimeError { duration });
        }
        Ok(Self::span_between(self, &earlier))
    }

    /// The span from `self` to the host's current time; an error when the
    /// current time is before `self`.
    pub fn elapsed<H: Host + ?Sized>(&self, host: &H) -> (r: Result<Duration, SystemTimeError>)
        ensures
            match r {
                Ok(d) => representable(self@ + d@),
                Err(e) => representable(self@ - e.span()@) && e.span()@ > 0,
            },
            exists|a: crate::host::Result<Timespec>| #[trigger]
                call_ensures(H::get_time, (host, Clock::Realtime), a) && {
                    let now = reading_instant(a);
                    match r {
                        Ok(d) => now >= self@ && d@ == now - self@,
                        Err(e) => now < self@ && e.span()@ == self@ - now,
                    }
                },
    {
        let now = Self::now(host);
        proof {
            use_type_invariant(self);
            use_type_invariant(&now);
        }
        now.duration_since(*self)
    }

    /// The time `duration` after `self`, or `None` when it cannot be held.
    pub fn checked_add(&self, duration: Duration) -> (r: Option<SystemTime>)
        ensures
            r == self.checked_add_spec(duration),
            r is Some <==> representable(self@ + duration@),
            r matches Some(u) ==> u@ == self@ + duration@ && u.valid(),
    {
        proof {
            use_type_invariant(self);
            use_type_invariant(&duration);
            if representable(self@ + duration@) {
                Self::lemma_instant_determines_time(*self, self@ + duration@);
            }
        }
        let sec = duration.as_secs();
        let nsec = duration.subsec_nanos();
        let tv_sec = self.tv_sec.checked_add_unsigned(sec)?;
        let tv_nsec = self.tv_nsec.checked_add_unsigned(nsec as u64)?;
        Self::normalize(tv_sec, tv_nsec)
    }

    /// The time `duration` before `self`, or `None` when it cannot be held.
    pub fn checked_sub(&self, duration: Duration) -> (r: Option<SystemTime>)
        ensures
            r == self.checked_sub_spec(duration),
            r is Some <==> representable(self@ - duration@),
            r matches Some(u) ==> u@ == self@ - duration@ && u.valid(),
    {
        proof {
            use_type_invariant(self);
            use_type_invariant(&duration);
            if representable(self@ - duration@) {
                Self::lemma_instant_determines_time(*self, self@ - duration@);
            }
        }
        let sec = duration.as_secs();
        let nsec = duration.subsec_nanos();
        let tv_sec = self.tv_sec.checked_sub_unsigned(sec)?;
        let tv_nsec = self.tv_nsec.checked_sub_unsigned(nsec as u64)?;
        Self::normalize(tv_sec, tv_nsec)
    }
}

impl SystemTime {
    /// A time is determined by its instant, and every representable instant
    /// is the instant of exactly one time.
    pub proof fn lemma_instant_determines_time(t: SystemTime, v: int)
        requires
            t.valid(),
            representable(v),
        ensures
            representable(t@),
            Self::at(t@) == t,
            Self::at(v).valid(),
            Self::at(v)@ == v,
    {
        vstd::arithmetic::div_mod::lemma_fundamental_div_mod_converse(
            t@, 1_000_000_000, t.tv_sec as int, t.tv_nsec as int);
        vstd::arithmetic::div_mod::lemma_fundamental_div_mod(v, 1_000_000_000);
    }

    /// Going forward by a span and back by the same span gives the time one
    /// started from.
    pub proof fn lemma_add_then_sub(t: SystemTime, d: Duration, u: SystemTime)
        requires
            t.valid(),
            t.checked_add_spec(d) == Some(u),
        ensures
            u.checked_sub_spec(d) == Some(t),
    {
        Self::lemma_instant_determines_time(t, t@ + d@);
        Self::lemma_instant_determines_time(t, t@);
    }

    /// Going back by a span and forward by the same span gives the time one
    /// started from.
    pub proof fn lemma_sub_then_add(t: SystemTime, d: Duration, u: SystemTime)
        requires
            t.valid(),
            t.checked_sub_spec(d) == Some(u),
        ensures
            u.checked_add_spec(d) == Some(t),
    {
        Self::lemma_instant_determines_time(t, t@ - d@);
        Self::lemma_instant_determines_time(t, t@);
    }

    /// The span that `duration_since` measures from `earlier` to `later`
    /// takes `earlier` back to `later`.
    pub proof fn lemma_since_then_add(later: SystemTime, earlier: SystemTime, d: Duration)
        requires
            later.valid(),
            earlier.valid(),
            later@ >= earlier@,
            d@ == later@ - earlier@,
        ensures
            earlier.checked_add_spec(d) == Some(later),
    {
        Self::lemma_instant_determines_time(later, later@);
    }

    /// Times compare as their instants do: equal exactly when they are the
    /// same time, and every two times are ordered one way or the other.
    pub proof fn lemma_order_is_total(a: SystemTime, b: SystemTime)
        requires
            a.valid(),
            b.valid(),
        ensures
            (a.partial_cmp_spec(&b) == Some(Ordering::Equal)) <==> a == b,
            (a.partial_cmp_spec(&b) == Some(Ordering::Less)) <==> (b.partial_cmp_spec(&a)
                == Some(Ordering::Greater)),
            a.partial_cmp_spec(&b) is Some,
    {
        Self::lemma_instant_determines_time(a, b@);
        Self::lemma_instant_determines_time(b, a@);
    }
}

impl View for SystemTime {
    type V = int;

    /// The instant in nanoseconds since the epoch.
    open spec fn view(&self) -> int {
        self.instant()
    }
}

impl PartialOrd for SystemTime {
    fn partial_cmp(&self, other: &Self) -> (r: Option<Ordering>) {
        proof {
            use_type_invariant(self);
            use_type_invariant(other);
        }
        if self.tv_sec < other.tv_sec {
            return Some(Ordering::Less);
        }
        if self.tv_sec > other.tv_sec {
            return Some(Ordering::Greater);
        }
        if self.tv_nsec < other.tv_nsec {
            return Some(Ordering::Less);
        }
        if self.tv_nsec > other.tv_nsec {
            return Some(Ordering::Greater);
        }
        Some(Ordering::Equal)
    }
}

impl vstd::std_specs::cmp::PartialOrdSpecImpl for SystemTime {
    open spec fn obeys_partial_cmp_spec() -> bool {
        true
    }

    /// Times are ordered by the instants that they stand for.
    open spec fn partial_cmp_spec(&self, other: &Self) -> Option<Ordering> {
        if self@ < other@ {
            Some(Ordering::Less)
        } else if self@ > other@ {
            Some(Ordering::Greater)
        } else {
            Some(Ordering::Equal)
        }
    }
}

/// `t + d`: the time `d` after `t`, for sums that a `SystemTime` can hold.
impl core::ops::Add<Duration> for SystemTime {
    type Output = SystemTime;

    fn add(self, rhs: Duration) -> (r: SystemTime) {
        match self.checked_add(rhs) {
            Some(t) => t,
            None => vstd::pervasive::unreached(),
        }
    }
}

impl vstd::std_specs::ops::AddSpecImpl<Duration> for SystemTime {
    open spec fn obeys_add_spec() -> bool {
        true
    }

    open spec fn add_req(self, rhs: Duration) -> bool {
        self.checked_add_spec(rhs) is Some
    }

    open spec fn add_spec(self, rhs: Duration) -> SystemTime {
        self.checked_add_spec(rhs)->Some_0
    }
}

/// `t - d`: the time `d` before `t`, for differences that a `SystemTime`
/// can hold.
impl core::ops::Sub<Duration> for SystemTime {
    type Output = SystemTime;

    fn sub(self, rhs: Duration) -> (r: SystemTime) {
        match self.checked_sub(rhs) {
            Some(t) => t,
            None => vstd::pervasive::unreached(),
        }
    }
}

impl vstd::std_specs::ops::SubSpecImpl<Duration> for SystemTime {
    open spec fn obeys_sub_spec() -> bool {
        true
    }

    open spec fn sub_req(self, rhs: Duration) -> bool {
        self.checked_sub_spec(rhs) is Some
    }

    open spec fn sub_spec(self, rhs: Duration) -> SystemTime {
        self.checked_sub_spec(rhs)->Some_0
    }
}

/// `t += d`: moves `t` to the time `d` later, for sums that a `SystemTime`
/// can hold.
impl core::ops::AddAssign<Duration> for SystemTime {
    fn add_assign(&mut self, rhs: Duration)
        requires
            old(self).checked_add_spec(rhs) is Some,
        ensures
            *final(self) == old(self).checked_add_spec(rhs)->Some_0,
    {
        *self = *self + rhs;
    }
}

/// `t -= d`: moves `t` to the time `d` earlier, for differences that a
/// `SystemTime` can hold.
impl core::ops::SubAssign<Duration> for SystemTime {
    fn sub_assign(&mut self, rhs: Duration)
        requires
            old(self).checked_sub_spec(rhs) is Some,
        ensures
            *final(self) == old(self).checked_sub_spec(rhs)->Some_0,
    {
        *self = *self - rhs;
    }
}

} // verus!
