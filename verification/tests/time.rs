use std::cmp::Ordering;

use picolibc::host::{Clock, Host, Result, Timespec};
use picolibc::io::Errno;
use picolibc::stubs::time::{
    clock_from_id, clock_gettime, gettimeofday, store_reading, timeval_from, CTimespec, CTimeval,
    CLOCK_MONOTONIC,
    CLOCK_REALTIME,
};
use picolibc::time::{Duration, SystemTime};

struct FixedClock {
    sec: i64,
    nsec: u32,
}

impl Host for FixedClock {
    fn get_time(&self, _clock: Clock) -> Result<Timespec> {
        Ok(Timespec { sec: self.sec, nsec: self.nsec })
    }
}

struct BrokenClock;

impl Host for BrokenClock {
    fn get_time(&self, _clock: Clock) -> Result<Timespec> {
        Err(Errno::EIO)
    }
}

fn at(sec: u64, nsec: u32) -> SystemTime {
    SystemTime::unix_epoch().checked_add(Duration::new(sec, nsec)).unwrap()
}

#[test]
fn duration_new_carries_nanoseconds() {
    let d = Duration::new(1, 2_500_000_000);
    assert_eq!(d.as_secs(), 3);
    assert_eq!(d.subsec_nanos(), 500_000_000);
    assert_eq!(Duration::new(7, 0).as_secs(), 7);
}

#[test]
fn now_reads_the_host_clock() {
    let t = SystemTime::now(&FixedClock { sec: 1_700_000_000, nsec: 42 });
    assert_eq!(t, at(1_700_000_000, 42));
}

#[test]
fn now_is_the_epoch_when_the_clock_fails() {
    assert_eq!(SystemTime::now(&BrokenClock), SystemTime::unix_epoch());
}

#[test]
fn duration_since_an_earlier_time() {
    let later = at(10, 100);
    let earlier = at(8, 900_000_000);
    let d = later.duration_since(earlier).ok().unwrap();
    assert_eq!(d.as_secs(), 1);
    assert_eq!(d.subsec_nanos(), 100_000_100);
}

#[test]
fn duration_since_a_later_time_is_an_error_with_the_span() {
    let later = at(10, 100);
    let earlier = at(8, 900_000_000);
    let e = earlier.duration_since(later).err().unwrap();
    assert_eq!(e.duration(), Duration::new(1, 100_000_100));
}

#[test]
fn duration_since_itself_is_zero() {
    let t = at(5, 5);
    assert_eq!(t.duration_since(t).ok().unwrap(), Duration::new(0, 0));
}

#[test]
fn duration_since_then_add_gives_back_the_later_time() {
    let later = at(123, 999_999_999);
    let earlier = SystemTime::unix_epoch().checked_sub(Duration::new(77, 1)).unwrap();
    let d = later.duration_since(earlier).ok().unwrap();
    assert_eq!(earlier.checked_add(d), Some(later));
}

#[test]
fn duration_since_spans_the_whole_range() {
    let max = at(i64::MAX as u64, 999_999_999);
    let min = SystemTime::unix_epoch()
        .checked_sub(Duration::new(i64::MAX as u64, 0))
        .unwrap()
        .checked_sub(Duration::new(1, 0))
        .unwrap();
    let d = max.duration_since(min).ok().unwrap();
    assert_eq!(d.as_secs(), u64::MAX);
    assert_eq!(d.subsec_nanos(), 999_999_999);
}

#[test]
fn elapsed_measures_up_to_the_host_clock() {
    let start = at(100, 0);
    let d = start.elapsed(&FixedClock { sec: 103, nsec: 5 }).ok().unwrap();
    assert_eq!(d, Duration::new(3, 5));
    let e = start.elapsed(&FixedClock { sec: 99, nsec: 0 }).err().unwrap();
    assert_eq!(e.duration(), Duration::new(1, 0));
}

#[test]
fn checked_add_carries_and_overflows() {
    let t = at(1, 600_000_000).checked_add(Duration::new(0, 500_000_000)).unwrap();
    assert_eq!(t, at(2, 100_000_000));
    let max = at(i64::MAX as u64, 999_999_999);
    assert_eq!(max.checked_add(Duration::new(0, 1)), None);
    assert_eq!(SystemTime::unix_epoch().checked_add(Duration::new(u64::MAX, 0)), None);
}

#[test]
fn checked_sub_borrows_and_underflows() {
    let t = at(2, 100_000_000).checked_sub(Duration::new(0, 500_000_000)).unwrap();
    assert_eq!(t, at(1, 600_000_000));
    let before = SystemTime::unix_epoch().checked_sub(Duration::new(0, 1)).unwrap();
    assert_eq!(before.duration_since(SystemTime::unix_epoch()).err().unwrap().duration(), Duration::new(0, 1));
    let min = SystemTime::unix_epoch()
        .checked_sub(Duration::new(i64::MAX as u64, 0))
        .unwrap()
        .checked_sub(Duration::new(1, 0))
        .unwrap();
    assert_eq!(min.checked_sub(Duration::new(0, 1)), None);
}

#[test]
fn add_then_sub_gives_back_the_start() {
    let t = at(1_000, 999_999_999);
    let d = Duration::new(3, 2);
    assert_eq!(t.checked_add(d).unwrap().checked_sub(d), Some(t));
    assert_eq!(t.checked_sub(d).unwrap().checked_add(d), Some(t));
}

#[test]
fn times_are_ordered_by_instant() {
    let a = at(1, 999_999_999);
    let b = at(2, 0);
    assert_eq!(a.partial_cmp(&b), Some(Ordering::Less));
    assert_eq!(b.partial_cmp(&a), Some(Ordering::Greater));
    assert_eq!(a.partial_cmp(&a), Some(Ordering::Equal));
    assert!(a < b);
    assert_eq!(a.cmp(&b), Ordering::Less);
    assert_eq!(std::cmp::max(a, b), b);
}

#[test]
fn clock_ids_name_the_clocks() {
    assert!(matches!(clock_from_id(CLOCK_REALTIME), Some(Clock::Realtime)));
    assert!(matches!(clock_from_id(CLOCK_MONOTONIC), Some(Clock::Monotonic)));
    assert!(clock_from_id(7).is_none());
}

#[test]
fn clock_gettime_fills_the_timespec() {
    let mut ts = CTimespec { tv_sec: -1, tv_nsec: -1 };
    assert_eq!(clock_gettime(&FixedClock { sec: 12, nsec: 34 }, CLOCK_MONOTONIC, &mut ts), Ok(()));
    assert_eq!(ts, CTimespec { tv_sec: 12, tv_nsec: 34 });
}

#[test]
fn clock_gettime_refuses_unknown_clocks_and_passes_errors_on() {
    let mut ts = CTimespec { tv_sec: -1, tv_nsec: -1 };
    assert_eq!(clock_gettime(&FixedClock { sec: 12, nsec: 34 }, 3, &mut ts), Err(Errno::EINVAL));
    assert_eq!(clock_gettime(&BrokenClock, CLOCK_REALTIME, &mut ts), Err(Errno::EIO));
    assert_eq!(ts, CTimespec { tv_sec: -1, tv_nsec: -1 });
}

#[test]
fn store_reading_copies_or_keeps() {
    let mut ts = CTimespec { tv_sec: 0, tv_nsec: 0 };
    assert_eq!(store_reading(Ok(Timespec { sec: 3, nsec: 4 }), &mut ts), Ok(()));
    assert_eq!(ts, CTimespec { tv_sec: 3, tv_nsec: 4 });
    assert_eq!(store_reading(Err(Errno::EBUSY), &mut ts), Err(Errno::EBUSY));
    assert_eq!(ts, CTimespec { tv_sec: 3, tv_nsec: 4 });
}

#[test]
fn gettimeofday_gives_microseconds() {
    let mut tv = CTimeval { tv_sec: 0, tv_usec: 0 };
    assert_eq!(gettimeofday(&FixedClock { sec: 9, nsec: 123_456_789 }, &mut tv), Ok(()));
    assert_eq!(tv, CTimeval { tv_sec: 9, tv_usec: 123_456 });
    let mut tv2 = CTimeval { tv_sec: 5, tv_usec: 6 };
    assert_eq!(gettimeofday(&BrokenClock, &mut tv2), Err(Errno::EIO));
    assert_eq!(tv2, CTimeval { tv_sec: 5, tv_usec: 6 });
}

#[test]
fn operators_add_and_subtract_spans() {
    let t = at(10, 0);
    assert_eq!(t + Duration::new(0, 1), at(10, 1));
    assert_eq!(t - Duration::new(10, 0), SystemTime::unix_epoch());
}

#[test]
fn unix_seconds_round_down() {
    assert_eq!(at(42, 999_999_999).unix_seconds(), 42);
    let before = SystemTime::unix_epoch().checked_sub(Duration::new(0, 1)).unwrap();
    assert_eq!(before.unix_seconds(), -1);
    assert_eq!(SystemTime::unix_epoch().unix_seconds(), 0);
}

#[test]
fn timeval_keeps_seconds_and_truncates_to_microseconds() {
    assert_eq!(timeval_from(&CTimespec { tv_sec: 4, tv_nsec: 999_999 }), CTimeval { tv_sec: 4, tv_usec: 999 });
    assert_eq!(timeval_from(&CTimespec { tv_sec: -1, tv_nsec: 0 }), CTimeval { tv_sec: -1, tv_usec: 0 });
    assert_eq!(timeval_from(&CTimespec { tv_sec: 0, tv_nsec: -1500 }), CTimeval { tv_sec: 0, tv_usec: -1 });
}

#[test]
fn add_assign_and_sub_assign_move_the_time() {
    let mut t = at(10, 900_000_000);
    t += Duration::new(1, 200_000_000);
    assert_eq!(t, at(12, 100_000_000));
    t -= Duration::new(2, 100_000_000);
    assert_eq!(t, at(10, 0));
}
