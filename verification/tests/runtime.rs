use std::sync::Mutex;

use picolibc::emutls::{object_layout, TlsAddressArray};
use picolibc::host::{Host, Result, SeekFrom};
use picolibc::io::{write_bytes, Errno, Stderr, Stdout};
use picolibc::process::{ExitCode, Termination};
use picolibc::stubs::io::{close, lseek, read, seek_from, SEEK_CUR, SEEK_END, SEEK_SET};

/// A host that takes at most `chunk` bytes per write and records them.
struct ChunkedSink {
    chunk: usize,
    out: Mutex<Vec<(i32, Vec<u8>)>>,
}

impl Host for ChunkedSink {
    fn write(&self, fd: i32, buf: &[u8]) -> Result<usize> {
        let n = buf.len().min(self.chunk);
        self.out.lock().unwrap().push((fd, buf[..n].to_vec()));
        Ok(n)
    }

    fn lseek(&self, _fd: i32, offset: SeekFrom) -> Result<usize> {
        match offset {
            SeekFrom::Start(n) => Ok(n as usize),
            SeekFrom::Current(n) => Ok((100 + n) as usize),
            SeekFrom::End(_) => Err(Errno::ESPIPE),
        }
    }

    fn close(&self, fd: i32) -> Result<()> {
        if fd == 9 {
            Err(Errno::EBADF)
        } else {
            Ok(())
        }
    }

    fn read(&self, _fd: i32, buf: &mut [u8]) -> Result<usize> {
        for (i, b) in buf.iter_mut().enumerate() {
            *b = i as u8;
        }
        Ok(buf.len())
    }
}

struct FailingSink;

impl Host for FailingSink {
    fn write(&self, _fd: i32, _buf: &[u8]) -> Result<usize> {
        Err(Errno::EIO)
    }
}

struct DeviceWithNoDefaults;

impl Host for DeviceWithNoDefaults {}

#[test]
fn write_bytes_writes_everything_in_pieces() {
    let host = ChunkedSink { chunk: 3, out: Mutex::new(Vec::new()) };
    assert_eq!(write_bytes(&host, 1, b"hello, world"), 12);
    let out = host.out.lock().unwrap();
    let joined: Vec<u8> = out.iter().flat_map(|(_, b)| b.clone()).collect();
    assert_eq!(joined, b"hello, world".to_vec());
    assert_eq!(out.len(), 4);
}

#[test]
fn write_bytes_stops_when_nothing_is_taken() {
    let host = ChunkedSink { chunk: 0, out: Mutex::new(Vec::new()) };
    assert_eq!(write_bytes(&host, 1, b"abc"), 0);
    assert_eq!(host.out.lock().unwrap().len(), 1);
    assert_eq!(write_bytes(&FailingSink, 2, b"abc"), 0);
}

#[test]
fn stdout_and_stderr_write_to_their_descriptors() {
    let host = ChunkedSink { chunk: 100, out: Mutex::new(Vec::new()) };
    assert!(Stdout.write_str(&host, "out").is_ok());
    assert!(Stderr.write_str(&host, "err").is_ok());
    assert!(Stdout.write_str(&FailingSink, "lost").is_ok());
    let out = host.out.lock().unwrap();
    assert_eq!(*out, vec![(1, b"out".to_vec()), (2, b"err".to_vec())]);
}

#[test]
fn default_host_behaves_like_an_empty_machine() {
    let h = DeviceWithNoDefaults;
    let mut buf = [0u8; 4];
    assert_eq!(h.read(0, &mut buf), Ok(0));
    assert_eq!(h.write(1, b"xyz"), Ok(3));
    assert_eq!(h.lseek(3, SeekFrom::Start(5)), Ok(0));
    assert_eq!(h.close(3), Ok(()));
    assert_eq!(h.mmap(0, 4096), Err(Errno::ENOMEM));
    assert_eq!(h.thread_id(), Ok(1));
    let t = h.get_time(picolibc::host::Clock::Realtime).ok().unwrap();
    assert_eq!((t.sec, t.nsec), (0, 0));
}

#[test]
fn read_and_write_report_byte_counts() {
    let host = ChunkedSink { chunk: 2, out: Mutex::new(Vec::new()) };
    let mut buf = [9u8; 5];
    assert_eq!(read(&host, 0, &mut buf), Ok(5));
    assert_eq!(buf, [0, 1, 2, 3, 4]);
    assert_eq!(picolibc::stubs::io::write(&host, 1, b"abcd"), Ok(2));
    assert_eq!(picolibc::stubs::io::write(&FailingSink, 1, b"abcd"), Err(Errno::EIO));
}

#[test]
fn lseek_maps_whence() {
    assert!(matches!(seek_from(5, SEEK_SET), Some(SeekFrom::Start(5))));
    assert!(matches!(seek_from(-5, SEEK_CUR), Some(SeekFrom::Current(-5))));
    assert!(matches!(seek_from(-1, SEEK_END), Some(SeekFrom::End(-1))));
    assert!(seek_from(0, 3).is_none());
    let host = ChunkedSink { chunk: 2, out: Mutex::new(Vec::new()) };
    assert_eq!(lseek(&host, 3, 7, SEEK_SET), Ok(7));
    assert_eq!(lseek(&host, 3, -7, SEEK_CUR), Ok(93));
    assert_eq!(lseek(&host, 3, 0, SEEK_END), Err(Errno::ESPIPE));
    assert_eq!(lseek(&host, 3, 0, 42), Err(Errno::EINVAL));
}

#[test]
fn close_passes_the_host_answer_on() {
    let host = ChunkedSink { chunk: 2, out: Mutex::new(Vec::new()) };
    assert_eq!(close(&host, 3), Ok(()));
    assert_eq!(close(&host, 9), Err(Errno::EBADF));
}

#[test]
fn exit_codes() {
    assert_eq!(ExitCode::SUCCESS.to_i32(), 0);
    assert_eq!(ExitCode::FAILURE.to_i32(), 1);
    assert_eq!(ExitCode::from(3u8).to_i32(), 3);
    assert_eq!(ExitCode::from(0u8).to_i32(), 0);
    assert!(matches!(ExitCode::from(1u8), ExitCode::FAILURE));
    assert_eq!(ExitCode::default().to_i32(), 0);
}

#[test]
fn termination_reports() {
    assert_eq!(().report().to_i32(), 0);
    assert_eq!(ExitCode::from(7u8).report().to_i32(), 7);
    let ok: core::result::Result<ExitCode, &str> = Ok(ExitCode::from(4u8));
    assert_eq!(ok.report().to_i32(), 4);
    let err: core::result::Result<(), &str> = Err("bad");
    assert_eq!(err.report().to_i32(), 1);
    let nested: core::result::Result<core::result::Result<(), u8>, u8> = Ok(Err(2));
    assert_eq!(nested.report().to_i32(), 1);
}

#[test]
fn tls_objects_are_word_aligned_and_never_empty() {
    assert_eq!(object_layout(0, 1), (8, 1));
    assert_eq!(object_layout(100, 16), (16, 100));
    assert_eq!(object_layout(5, 24), (32, 5));
    assert_eq!(object_layout(4, 4), (8, 4));
    assert_eq!(object_layout(1, 3000), (4096, 1));
    assert_eq!(object_layout(1, 4096), (4096, 1));
    assert_eq!(object_layout(0, usize::MAX / 2 + 1), (usize::MAX / 2 + 1, 1));
}

#[test]
fn tls_object_is_created_once_per_thread_and_variable() {
    let mut array = TlsAddressArray::new();
    let created = std::cell::Cell::new(0);
    let make = |addr: usize| {
        created.set(created.get() + 1);
        addr
    };
    assert_eq!(array.get_or_insert_with(1, 0x100, || make(0x1000)), 0x1000);
    assert_eq!(array.get_or_insert_with(1, 0x100, || make(0x2000)), 0x1000);
    assert_eq!(created.get(), 1);
    assert_eq!(array.get_or_insert_with(2, 0x100, || make(0x3000)), 0x3000);
    assert_eq!(array.get_or_insert_with(1, 0x200, || make(0x4000)), 0x4000);
    assert_eq!(created.get(), 3);
    assert_eq!(array.get_or_insert_with(2, 0x100, || make(0x5000)), 0x3000);
    assert_eq!(created.get(), 3);
}

#[test]
fn main_ending_in_an_infallible_result_reports_its_error() {
    let failed: core::result::Result<core::convert::Infallible, i32> = Err(3);
    assert_eq!(failed.report().to_i32(), 1);
}

/// A host that names the calling thread `id`, or cannot name it.
struct ThreadHost {
    id: Option<usize>,
}

impl Host for ThreadHost {
    fn thread_id(&self) -> Result<usize> {
        match self.id {
            Some(id) => Ok(id),
            None => Err(Errno::ENOSYS),
        }
    }
}

#[test]
fn tls_get_uses_the_hosts_thread_and_keeps_the_address() {
    let mut array = TlsAddressArray::new();
    let t1 = ThreadHost { id: Some(1) };
    let t2 = ThreadHost { id: Some(2) };
    assert_eq!(array.get(&t1, 0x100, || 0x1000), Ok(0x1000));
    assert_eq!(array.get(&t1, 0x100, || 0x2000), Ok(0x1000));
    assert_eq!(array.get(&t2, 0x100, || 0x3000), Ok(0x3000));
    assert_eq!(array.get(&ThreadHost { id: None }, 0x100, || 0x4000), Err(Errno::ENOSYS));
    assert_eq!(array.get(&t2, 0x100, || 0x5000), Ok(0x3000));
}
