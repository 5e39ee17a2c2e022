use vstd::prelude::*;

use crate::io::Errno;

pub mod linux;

verus! {

/// Where an `lseek` offset is measured from.
pub enum SeekFrom {
    Start(u64),
    End(i64),
    Current(i64),
}

/// A point in time as a host clock reports it.
pub struct Timespec {
    pub sec: i64,
    pub nsec: u32,
}

/// The clocks that a host can be asked about.
pub enum Clock {
    Realtime,
    Monotonic,
}

/// The result of a host call: a value, or the error number to report.
pub type Result<T> = core::result::Result<T, Errno>;

/// The services that the platform under the runtime provides.
///
/// A program supplies one value implementing this trait; every method has a
/// default that behaves like a machine with no devices. An implementation
/// must keep the promises below: a transfer never reports more bytes than the
/// buffer holds, a clock reading has its nanoseconds below one second, and a
/// mapping of `size` bytes lies inside the address space.
pub trait Host: Sync {
    /// Reads from `fd` into `buf`; answers the number of bytes read.
    fn read(&self, fd: i32, buf: &mut [u8]) -> (r: Result<usize>)
        ensures
            r matches Ok(n) ==> n <= old(buf)@.len(),
        default_ensures
            r == Ok::<usize, Errno>(0),
    {
        Ok(0)
    }

    /// Writes `buf` to `fd`; answers the number of bytes taken.
    fn write(&self, fd: i32, buf: &[u8]) -> (r: Result<usize>)
        ensures
            r matches Ok(n) ==> n <= buf@.len(),
        default_ensures
            r == Ok::<usize, Errno>(buf@.len() as usize),
    {
        Ok(buf.len())
    }

    /// Moves the offset of `fd`; answers the new offset.
    fn lseek(&self, fd: i32, offset: SeekFrom) -> (r: Result<usize>)
        default_ensures
            r == Ok::<usize, Errno>(0),
    {
        Ok(0)
    }

    /// Closes `fd`.
    fn close(&self, fd: i32) -> (r: Result<()>)
        default_ensures
            r == Ok::<(), Errno>(()),
    {
        Ok(())
    }

    /// Reads `clock`.
    fn get_time(&self, clock: Clock) -> (r: Result<Timespec>)
        ensures
            r matches Ok(t) ==> t.nsec < 1_000_000_000,
        default_ensures
            r matches Ok(t) && t.sec == 0 && t.nsec == 0,
    {
        Ok(Timespec { sec: 0, nsec: 0 })
    }

    /// Maps `size` bytes, preferably at `addr`; gives the start of the mapping.
    fn mmap(&self, addr: usize, size: usize) -> (r: Result<usize>)
        ensures
            r matches Ok(start) ==> start + size <= usize::MAX,
        default_ensures
            r == Err::<usize, Errno>(Errno::ENOMEM),
    {
        Err(Errno::ENOMEM)
    }

    /// The id of the calling thread.
    fn thread_id(&self) -> (r: Result<usize>)
        default_ensures
            r == Ok::<usize, Errno>(1),
    {
        Ok(1)
    }
}

} // verus!
