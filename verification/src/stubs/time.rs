use vstd::prelude::*;

use crate::host::{Clock, Host, Result, Timespec};
use crate::io::Errno;

verus! {

/// picolibc's id of the wall clock.
pub const CLOCK_REALTIME: i32 = 1;

/// picolibc's id of the monotonic clock.
pub const CLOCK_MONOTONIC: i32 = 4;

/// The C `struct timespec`.
#[derive(Clone, Copy, Debug, PartialEq, Eq, Structural)]
pub struct CTimespec {
    pub tv_sec: i64,
    pub tv_nsec: i64,
}

/// The C `struct timeval`.
#[derive(Clone, Copy, Debug, PartialEq, Eq, Structural)]
pub struct CTimeval {
    pub tv_sec: i64,
    pub tv_usec: i64,
}

/// The clock that a C clock id names, if any.
pub open spec fn clock_for_id(id: i32) -> Option<Clock> {
    if id == CLOCK_REALTIME {
        Some(Clock::Realtime)
    } else if id == CLOCK_MONOTONIC {
        Some(Clock::Monotonic)
    } else {
        None
    }
}

/// The clock that a C clock id names, if any.
pub fn clock_from_id(id: i32) -> (r: Option<Clock>)
    ensures
        r == clock_for_id(id),
{
    if id == CLOCK_REALTIME {
        Some(Clock::Realtime)
    } else if id == CLOCK_MONOTONIC {
        Some(Clock::Monotonic)
    } else {
        None
    }
}

/// Whether storing the host clock reading `reading` into a timespec that held
/// `before` leaves `after` and answers `r`: a reading is copied in, an error
/// is passed on and leaves the timespec alone.
pub open spec fn stores_reading(
    reading: Result<Timespec>,
    r: Result<()>,
    before: CTimespec,
    after: CTimespec,
) -> bool {
    match reading {
        Ok(t) => r is Ok && after.tv_sec == t.sec && after.tv_nsec == t.nsec,
        Err(e) => r == Err::<(), Errno>(e) && after == before,
    }
}

/// Stores a host clock reading into `ts`; an error leaves `ts` alone.
pub fn store_reading(reading: Result<Timespec>, ts: &mut CTimespec) -> (r: Result<()>)
    ensures
        match reading {
            Ok(t) => r is Ok && final(ts).tv_sec == t.sec && final(ts).tv_nsec == t.nsec,
            Err(e) => r == Err::<(), Errno>(e) && *final(ts) == *old(ts),
        },
{
    match reading {
        Ok(t) => {
            ts.tv_sec = t.sec;
            ts.tv_nsec = t.nsec as i64;
            Ok(())
        },
        Err(e) => Err(e),
    }
}

/// `clock_gettime`: reads the clock with id `clock` from the host into `ts`.
/// An unknown clock id is refused with `EINVAL`; a host error is passed on.
/// Either way an error leaves `ts` alone.
pub fn clock_gettime<H: Host + ?Sized>(host: &H, clock: i32, ts: &mut CTimespec) -> (r: Result<()>)
    ensures
        clock_for_id(clock) is None ==> r == Err::<(), Errno>(Errno::EINVAL),
        r is Err ==> *final(ts) == *old(ts),
        r is Ok ==> clock_for_id(clock) is Some && 0 <= final(ts).tv_nsec < 1_000_000_000,
        clock_for_id(clock) matches Some(c) ==> exists|a: Result<Timespec>| #[trigger]
            call_ensures(H::get_time, (host, c), a) && stores_reading(a, r, *old(ts), *final(ts)),
{
    let clock = match clock_from_id(clock) {
        Some(c) => c,
        None => {
            return Err(Errno::EINVAL);
        },
    };
    let reading = host.get_time(clock);
    store_reading(reading, ts)
}

/// The `timeval` that a `timespec` reading gives: the same seconds, and the
/// nanoseconds as whole microseconds, rounded toward zero.
pub fn timeval_from(ts: &CTimespec) -> (r: CTimeval)
    ensures
        r.tv_sec == ts.tv_sec,
        r.tv_usec == (if ts.tv_nsec >= 0 {
            ts.tv_nsec / 1000
        } else {
            -((-ts.tv_nsec) / 1000)
        }),
{
    CTimeval { tv_sec: ts.tv_sec, tv_usec: ts.tv_nsec / 1000 }
}

/// `gettimeofday`: reads the wall clock from the host into `tv`, in
/// microseconds; an error leaves `tv` alone.
pub fn gettimeofday<H: Host + ?Sized>(host: &H, tv: &mut CTimeval) -> (r: Result<()>)
    ensures
        r is Err ==> *final(tv) == *old(tv),
        r is Ok ==> 0 <= final(tv).tv_usec < 1_000_000,
        exists|a: Result<Timespec>| #[trigger]
            call_ensures(H::get_time, (host, Clock::Realtime), a) && match a {
                Ok(t) => r is Ok && final(tv).tv_sec == t.sec && final(tv).tv_usec == t.nsec / 1000,
                Err(e) => r == Err::<(), Errno>(e) && *final(tv) == *old(tv),
            },
{
    let mut ts = CTimespec { tv_sec: 0, tv_nsec: 0 };
    clock_gettime(host, CLOCK_REALTIME, &mut ts)?;
    *tv = timeval_from(&ts);
    Ok(())
}

/// picolibc's clock ids name the clocks: `CLOCK_REALTIME` (1) is the wall
/// clock, `CLOCK_MONOTONIC` (4) the monotonic clock, and no other id names a
/// clock. A reading stored into a timespec keeps its seconds and
/// nanoseconds; a failed reading leaves the timespec as it was.
pub proof fn lemma_clock_ids_name_clocks(
    id: i32,
    t: Timespec,
    e: Errno,
    before: CTimespec,
    after: CTimespec,
    r: Result<()>,
)
    ensures
        CLOCK_REALTIME == 1 && CLOCK_MONOTONIC == 4,
        clock_for_id(1) == Some(Clock::Realtime),
        clock_for_id(4) == Some(Clock::Monotonic),
        id != 1 && id != 4 ==> clock_for_id(id) is None,
        stores_reading(Ok(t), r, before, after) <==> (r is Ok && after.tv_sec == t.sec
            && after.tv_nsec == t.nsec),
        stores_reading(Err(e), r, before, after) <==> (r == Err::<(), Errno>(e) && after == before),
{
}

} // verus!
