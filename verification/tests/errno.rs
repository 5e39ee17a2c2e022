use picolibc::host::linux::{linux_clock_id, serves_read, serves_write, timespec_from_kernel};
use picolibc::host::Clock;
use picolibc::io::Errno;

#[test]
fn raw_numbers_round_trip() {
    assert_eq!(Errno::from_raw(12), Errno::ENOMEM);
    assert_eq!(Errno::ENOMEM.as_raw(), 12);
    assert_eq!(Errno::from_raw(5000).as_raw(), 5000);
    assert!(matches!(Errno::from_raw(5000), Errno::Other(5000)));
    assert!(matches!(Errno::from_raw(22), Errno::EINVAL));
    assert_eq!(Errno::Other(22), Errno::EINVAL);
    assert_ne!(Errno::EPERM, Errno::ENOENT);
}

#[test]
fn ewouldblock_is_eagain() {
    assert_eq!(Errno::EWOULDBLOCK, Errno::EAGAIN);
    assert_eq!(Errno::EWOULDBLOCK.as_raw(), 11);
}

#[test]
fn picolibc_numbers_differ_from_linux_ones() {
    assert_eq!(Errno::ENOSYS.as_raw(), 88);
    assert_eq!(Errno::EDEADLK.as_raw(), 45);
    assert_eq!(Errno::EKEYREVOKED.as_raw(), 148);
}

#[test]
fn linux_errors_map_by_name() {
    let pairs = [
        (linux_errno::EPERM, Errno::EPERM),
        (linux_errno::ENOENT, Errno::ENOENT),
        (linux_errno::EAGAIN, Errno::EAGAIN),
        (linux_errno::ENOMEM, Errno::ENOMEM),
        (linux_errno::EINVAL, Errno::EINVAL),
        (linux_errno::EDEADLK, Errno::EDEADLK),
        (linux_errno::ENAMETOOLONG, Errno::ENAMETOOLONG),
        (linux_errno::ENOLCK, Errno::ENOLCK),
        (linux_errno::ENOSYS, Errno::ENOSYS),
        (linux_errno::ENOTEMPTY, Errno::ENOTEMPTY),
        (linux_errno::ELOOP, Errno::ELOOP),
        (linux_errno::ENOMSG, Errno::ENOMSG),
        (linux_errno::EMULTIHOP, Errno::EMULTIHOP),
        (linux_errno::EOVERFLOW, Errno::EOVERFLOW),
        (linux_errno::EILSEQ, Errno::EILSEQ),
        (linux_errno::ENOTSOCK, Errno::ENOTSOCK),
        (linux_errno::EADDRINUSE, Errno::EADDRINUSE),
        (linux_errno::ETIMEDOUT, Errno::ETIMEDOUT),
        (linux_errno::EINPROGRESS, Errno::EINPROGRESS),
        (linux_errno::ESTALE, Errno::ESTALE),
        (linux_errno::EDQUOT, Errno::EDQUOT),
        (linux_errno::ECANCELED, Errno::ECANCELED),
        (linux_errno::EKEYEXPIRED, Errno::EKEYEXPIRED),
        (linux_errno::EKEYREVOKED, Errno::EKEYREVOKED),
        (linux_errno::EKEYREJECTED, Errno::EKEYREJECTED),
        (linux_errno::EOWNERDEAD, Errno::EOWNERDEAD),
        (linux_errno::ENOTRECOVERABLE, Errno::ENOTRECOVERABLE),
        (linux_errno::EHWPOISON, Errno::EHWPOISON),
        (linux_errno::EISNAM, Errno::EISNAM),
        (linux_errno::EUSERS, Errno::EUSERS),
    ];
    for (linux, expected) in pairs {
        assert_eq!(Errno::from_linux(linux.get()), expected);
    }
}

#[test]
fn linux_aliases_map_like_their_targets() {
    assert_eq!(Errno::from_linux(linux_errno::EWOULDBLOCK.get()), Errno::EAGAIN);
    assert_eq!(Errno::from_linux(linux_errno::EDEADLOCK.get()), Errno::EDEADLK);
}

#[test]
fn unnamed_linux_errors_are_offset() {
    // ENOKEY and EUCLEAN have no picolibc name.
    assert_eq!(Errno::from_linux(linux_errno::ENOKEY.get()).as_raw(), 0x1_0000 + 126);
    assert_eq!(Errno::from_linux(linux_errno::EUCLEAN.get()).as_raw(), 0x1_0000 + 117);
}

#[test]
fn linux_mapping_is_one_to_one() {
    let mut seen = std::collections::HashSet::new();
    for code in 1u16..=0xFFF {
        assert!(seen.insert(Errno::from_linux(code).as_raw()));
    }
}

#[test]
fn linux_host_policy() {
    assert!(serves_read(0));
    assert!(!serves_read(1));
    assert!(serves_write(1));
    assert!(serves_write(2));
    assert!(!serves_write(0));
    assert!(!serves_write(3));
    assert_eq!(linux_clock_id(Clock::Realtime), 0);
    assert_eq!(linux_clock_id(Clock::Monotonic), 1);
    let t = timespec_from_kernel(5, 1_500_000_000);
    assert_eq!((t.sec, t.nsec), (5, 999_999_999));
    let t = timespec_from_kernel(-2, -3);
    assert_eq!((t.sec, t.nsec), (-2, 0));
    let t = timespec_from_kernel(1, 7);
    assert_eq!((t.sec, t.nsec), (1, 7));
}
