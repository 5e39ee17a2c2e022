use vstd::prelude::*;

use crate::host::Host;
use vstd::string::StringSliceAdditionalSpecFns;
use crate::stubs;

pub mod errno;

pub use errno::Errno;

verus! {

/// `core::fmt::Error`, the error of a formatting sink.
#[verifier::external_type_specification]
#[verifier::external_body]
pub struct ExFmtError(core::fmt::Error);

/// Whether the host's `write` to `fd` of the bytes of `bytes` from `from` on
/// can answer that it took `to - from` of them, as a call with that suffix
/// did.
pub open spec fn host_took<H: Host + ?Sized>(
    host: &H,
    fd: i32,
    bytes: Seq<u8>,
    from: int,
    to: int,
) -> bool {
    exists|b: &[u8]|
        b@ == bytes.subrange(from, bytes.len() as int) && #[trigger] call_ensures(
            H::write,
            (host, fd, b),
            Ok::<usize, Errno>((to - from) as usize),
        )
}

/// Whether the host's `write` of `bytes` to `fd` can answer that it took
/// none of them or failed, as a call with those bytes did.
pub open spec fn host_stops<H: Host + ?Sized>(host: &H, fd: i32, bytes: Seq<u8>) -> bool {
    exists|b: &[u8], a: Result<usize, Errno>|
        b@ == bytes && #[trigger] call_ensures(H::write, (host, fd, b), a) && (a is Err || a
            == Ok::<usize, Errno>(0))
}

/// Whether `cuts` records a run of writes of `bytes` to `fd`: the first
/// write gets all of `bytes`, and each later one gets the bytes after those
/// that the writes before it took, cut `i + 1` lying where the host's answer
/// to the write from cut `i` left off.
pub open spec fn write_run<H: Host + ?Sized>(
    host: &H,
    fd: i32,
    bytes: Seq<u8>,
    cuts: Seq<int>,
) -> bool {
    &&& cuts.len() >= 1
    &&& cuts[0] == 0
    &&& cuts.last() <= bytes.len()
    &&& forall|i: int|
        #![trigger cuts[i]]
        0 <= i < cuts.len() - 1 ==> cuts[i] < cuts[i + 1] && host_took(
            host,
            fd,
            bytes,
            cuts[i],
            cuts[i + 1],
        )
}

/// Whether writing `bytes` to `fd` through the host got `written` of them
/// out: a run of writes, each given the rest after the bytes already taken,
/// took `written` bytes, and when some were left over, the host took none of
/// the rest or failed on it.
pub open spec fn writes_out<H: Host + ?Sized>(
    host: &H,
    fd: i32,
    bytes: Seq<u8>,
    written: int,
) -> bool {
    &&& 0 <= written <= bytes.len()
    &&& exists|cuts: Seq<int>| #[trigger] write_run(host, fd, bytes, cuts) && cuts.last() == written
    &&& written < bytes.len() ==> host_stops(host, fd, bytes.subrange(written, bytes.len() as int))
}

/// Writes all of `msg` to `fd` through the host, a piece at a time, and
/// stops early when a write takes no bytes or fails. Answers how many
/// bytes were written.
pub fn write_bytes<H: Host + ?Sized>(host: &H, fd: i32, msg: &[u8]) -> (written: usize)
    requires
        msg@.len() <= isize::MAX,
    ensures
        written <= msg@.len(),
        writes_out(host, fd, msg@, written as int),
{
    let mut written: usize = 0;
    let ghost mut cuts: Seq<int> = seq![0int];
    while written < msg.len()
        invariant
            written <= msg@.len(),
            msg@.len() <= isize::MAX,
            write_run(host, fd, msg@, cuts),
            cuts.last() == written,
        ensures
            written <= msg@.len(),
            write_run(host, fd, msg@, cuts),
            cuts.last() == written,
            written < msg@.len() ==> host_stops(
                host,
                fd,
                msg@.subrange(written as int, msg@.len() as int),
            ),
        decreases msg@.len() - written,
    {
        let rest = vstd::slice::slice_subrange(msg, written, msg.len());
        let answer = stubs::io::write(host, fd, rest);
        match answer {
            Ok(n) => {
                if n <= 0 {
                    break;
                }
                let ghost before = cuts;
                proof {
                    let next = written + n;
                    let a = choose|a: Result<usize, Errno>|
                        #[trigger] call_ensures(H::write, (host, fd, rest), a) && answer
                            == stubs::io::count_answer(a) && (a matches Ok(m) ==> m
                            <= rest@.len());
                    assert(a == Ok::<usize, Errno>(n as usize));
                    assert(call_ensures(
                        H::write,
                        (host, fd, rest),
                        Ok::<usize, Errno>((next - written) as usize),
                    ));
                    assert(rest@ == msg@.subrange(written as int, msg@.len() as int));
                    assert(host_took(host, fd, msg@, written as int, next));
                    cuts = cuts.push(next);
                    assert forall|i: int| #![trigger cuts[i]] 0 <= i < cuts.len() - 1 implies cuts[i]
                        < cuts[i + 1] && host_took(host, fd, msg@, cuts[i], cuts[i + 1]) by {
                        if i < before.len() - 1 {
                            assert(cuts[i] == before[i] && cuts[i + 1] == before[i + 1]);
                            assert(before[i] == before[i]);
                        }
                    }
                }
                written = written + n as usize;
            },
            Err(_) => {
                break;
            },
        }
    }
    assert(writes_out(host, fd, msg@, written as int));
    written
}

/// The standard output stream, file descriptor 1.
pub struct Stdout;

/// The standard error stream, file descriptor 2.
pub struct Stderr;

impl Stdout {
    /// Writes `s` to standard output through the host; output that the host
    /// does not take is dropped.
    pub fn write_str<H: Host + ?Sized>(&mut self, host: &H, s: &str) -> (r: core::fmt::Result)
        ensures
            r is Ok,
            s.spec_bytes().len() <= isize::MAX ==> exists|written: int| #[trigger]
                writes_out(host, 1, s.spec_bytes(), written),
    {
        let bytes = s.as_bytes();
        if bytes.len() <= isize::MAX as usize {
            let written = write_bytes(host, 1, bytes);
            assert(writes_out(host, 1, s.spec_bytes(), written as int));
        }
        Ok(())
    }
}

impl Stderr {
    /// Writes `s` to standard error through the host; output that the host
    /// does not take is dropped.
    pub fn write_str<H: Host + ?Sized>(&mut self, host: &H, s: &str) -> (r: core::fmt::Result)
        ensures
            r is Ok,
            s.spec_bytes().len() <= isize::MAX ==> exists|written: int| #[trigger]
                writes_out(host, 2, s.spec_bytes(), written),
    {
        let bytes = s.as_bytes();
        if bytes.len() <= isize::MAX as usize {
            let written = write_bytes(host, 2, bytes);
            assert(writes_out(host, 2, s.spec_bytes(), written as int));
        }
        Ok(())
    }
}

} // verus!
