use vstd::prelude::*;

use crate::host::{Host, Result, SeekFrom};
use crate::io::Errno;

verus! {

/// `whence` of `lseek`: from the start of the file.
pub const SEEK_SET: i32 = 0;

/// `whence` of `lseek`: from the current offset.
pub const SEEK_CUR: i32 = 1;

/// `whence` of `lseek`: from the end of the file.
pub const SEEK_END: i32 = 2;

/// The seek that an `lseek` offset and `whence` ask for, if `whence` is known.
pub open spec fn seek_for(offset: i64, whence: i32) -> Option<SeekFrom> {
    if whence == SEEK_SET {
        Some(SeekFrom::Start(offset as u64))
    } else if whence == SEEK_CUR {
        Some(SeekFrom::Current(offset))
    } else if whence == SEEK_END {
        Some(SeekFrom::End(offset))
    } else {
        None
    }
}

/// The seek that an `lseek` offset and `whence` ask for, if `whence` is known.
pub fn seek_from(offset: i64, whence: i32) -> (r: Option<SeekFrom>)
    ensures
        r == seek_for(offset, whence),
{
    if whence == SEEK_SET {
        Some(SeekFrom::Start(offset as u64))
    } else if whence == SEEK_CUR {
        Some(SeekFrom::Current(offset))
    } else if whence == SEEK_END {
        Some(SeekFrom::End(offset))
    } else {
        None
    }
}

/// What `read` or `write` answers for the host's answer `a`: the byte count
/// as a signed number, or the host's error.
pub open spec fn count_answer(a: Result<usize>) -> Result<isize> {
    match a {
        Ok(n) => Ok(n as isize),
        Err(e) => Err(e),
    }
}

/// What `lseek` answers for the host's answer `a`: the new offset as a C
/// `long`, or the host's error.
pub open spec fn offset_answer(a: Result<usize>) -> Result<i64> {
    match a {
        Ok(n) => Ok(n as i64),
        Err(e) => Err(e),
    }
}

/// `lseek`'s `whence` picks the seek: picolibc's `SEEK_SET` (0) seeks to
/// `offset` from the start, `SEEK_CUR` (1) by `offset` from the current
/// offset, `SEEK_END` (2) by `offset` from the end, whatever `offset` is;
/// any other `whence` asks for no seek.
pub proof fn lemma_whence_picks_the_seek(offset: i64, whence: i32)
    ensures
        SEEK_SET == 0 && SEEK_CUR == 1 && SEEK_END == 2,
        seek_for(offset, 0) == Some(SeekFrom::Start(offset as u64)),
        seek_for(offset, 1) == Some(SeekFrom::Current(offset)),
        seek_for(offset, 2) == Some(SeekFrom::End(offset)),
        whence != 0 && whence != 1 && whence != 2 ==> seek_for(offset, whence) is None,
{
}

/// The host's answer passes through unchanged: a count of `n` bytes (zero
/// included, which is end of file for a read) is answered as `n`, a new
/// offset `n` as `n`, and a host error as that error.
pub proof fn lemma_host_answers_pass_through(n: usize, e: Errno)
    ensures
        n <= isize::MAX ==> count_answer(Ok(n)) == Ok::<isize, Errno>(n as isize),
        count_answer(Ok(0)) == Ok::<isize, Errno>(0),
        count_answer(Err(e)) == Err::<isize, Errno>(e),
        n <= i64::MAX ==> offset_answer(Ok(n)) == Ok::<i64, Errno>(n as i64),
        offset_answer(Err(e)) == Err::<i64, Errno>(e),
{
}

/// `read`: reads from `fd` into `buf` through the host and answers the
/// number of bytes read, or the host's error.
pub fn read<H: Host + ?Sized>(host: &H, fd: i32, buf: &mut [u8]) -> (r: Result<isize>)
    requires
        old(buf)@.len() <= isize::MAX,
    ensures
        r matches Ok(n) ==> 0 <= n <= old(buf)@.len(),
        exists|b: &mut [u8], a: Result<usize>|
            b@ == old(buf)@ && final(b)@ == final(buf)@ && #[trigger] call_ensures(
                H::read,
                (host, fd, b),
                a,
            ) && r == count_answer(a),
{
    match host.read(fd, buf) {
        Ok(n) => Ok(n as isize),
        Err(e) => Err(e),
    }
}

/// `write`: writes `buf` to `fd` through the host and answers the number of
/// bytes written, or the host's error.
pub fn write<H: Host + ?Sized>(host: &H, fd: i32, buf: &[u8]) -> (r: Result<isize>)
    requires
        buf@.len() <= isize::MAX,
    ensures
        r matches Ok(n) ==> 0 <= n <= buf@.len(),
        exists|a: Result<usize>| #[trigger]
            call_ensures(H::write, (host, fd, buf), a) && r == count_answer(a) && (a matches Ok(
                m,
            ) ==> m <= buf@.len()),
{
    match host.write(fd, buf) {
        Ok(n) => Ok(n as isize),
        Err(e) => Err(e),
    }
}

/// `lseek`: moves the offset of `fd` through the host and answers the new
/// offset; an unknown `whence` is refused with `EINVAL` before the host is
/// asked.
pub fn lseek<H: Host + ?Sized>(host: &H, fd: i32, offset: i64, whence: i32) -> (r: Result<i64>)
    ensures
        seek_for(offset, whence) is None ==> r == Err::<i64, Errno>(Errno::EINVAL),
        seek_for(offset, whence) matches Some(seek) ==> exists|a: Result<usize>| #[trigger]
            call_ensures(H::lseek, (host, fd, seek), a) && r == offset_answer(a),
{
    let seek = match seek_from(offset, whence) {
        Some(s) => s,
        None => {
            return Err(Errno::EINVAL);
        },
    };
    match host.lseek(fd, seek) {
        Ok(n) => Ok(n as i64),
        Err(e) => Err(e),
    }
}

/// `close`: closes `fd` through the host and answers what the host answers.
pub fn close<H: Host + ?Sized>(host: &H, fd: i32) -> (r: Result<()>)
    ensures
        call_ensures(H::close, (host, fd), r),
{
    host.close(fd)
}

} // verus!
