use vstd::prelude::*;

use crate::host::{Clock, Timespec};
use crate::io::Errno;

verus! {

/// The Linux id of the wall clock.
pub const LINUX_CLOCK_REALTIME: u64 = 0;

/// The Linux id of the monotonic clock.
pub const LINUX_CLOCK_MONOTONIC: u64 = 1;

/// Added to a Linux error number that picolibc has no name for, so that it
/// cannot be taken for a picolibc number.
pub const UNNAMED_LINUX_ERRNO_BASE: u32 = 0x1_0000;

/// The Linux host serves reads from standard input only.
pub open spec fn serves_read_spec(fd: i32) -> bool {
    fd == 0
}

/// The Linux host serves writes to standard output and standard error only.
pub open spec fn serves_write_spec(fd: i32) -> bool {
    fd == 1 || fd == 2
}

/// Whether the Linux host passes a read of `fd` on to the kernel; a read of
/// any other descriptor reads nothing.
pub fn serves_read(fd: i32) -> (r: bool)
    ensures
        r == serves_read_spec(fd),
{
    fd == 0
}

/// Whether the Linux host passes a write to `fd` on to the kernel; a write
/// to any other descriptor is taken whole and dropped.
pub fn serves_write(fd: i32) -> (r: bool)
    ensures
        r == serves_write_spec(fd),
{
    fd == 1 || fd == 2
}

/// The Linux id of a clock.
pub fn linux_clock_id(clock: Clock) -> (r: u64)
    ensures
        clock is Realtime ==> r == LINUX_CLOCK_REALTIME,
        clock is Monotonic ==> r == LINUX_CLOCK_MONOTONIC,
{
    match clock {
        Clock::Realtime => LINUX_CLOCK_REALTIME,
        Clock::Monotonic => LINUX_CLOCK_MONOTONIC,
    }
}

/// The reading that the kernel's two words `sec` and `nsec` stand for, with
/// the nanoseconds clamped into one second.
pub fn timespec_from_kernel(sec: i64, nsec: i64) -> (r: Timespec)
    ensures
        r.sec == sec,
        nsec < 0 ==> r.nsec == 0,
        0 <= nsec <= 999_999_999 ==> r.nsec == nsec,
        nsec > 999_999_999 ==> r.nsec == 999_999_999,
        r.nsec < 1_000_000_000,
{
    let clamped = if nsec < 0 {
        0
    } else if nsec > 999_999_999 {
        999_999_999
    } else {
        nsec
    };
    Timespec { sec, nsec: clamped as u32 }
}

/// The picolibc error number that a Linux error number stands for, when
/// picolibc has a name for that error.
pub open spec fn picolibc_errno_for_linux(code: u16) -> Option<u32> {
    match code {
        1 => Some(1u32),
        2 => Some(2u32),
        3 => Some(3u32),
        4 => Some(4u32),
        5 => Some(5u32),
        6 => Some(6u32),
        7 => Some(7u32),
        8 => Some(8u32),
        9 => Some(9u32),
        10 => Some(10u32),
        11 => Some(11u32),
        12 => Some(12u32),
        13 => Some(13u32),
        14 => Some(14u32),
        15 => Some(15u32),
        16 => Some(16u32),
        17 => Some(17u32),
        18 => Some(18u32),
        19 => Some(19u32),
        20 => Some(20u32),
        21 => Some(21u32),
        22 => Some(22u32),
        23 => Some(23u32),
        24 => Some(24u32),
        25 => Some(25u32),
        26 => Some(26u32),
        27 => Some(27u32),
        28 => Some(28u32),
        29 => Some(29u32),
        30 => Some(30u32),
        31 => Some(31u32),
        32 => Some(32u32),
        33 => Some(33u32),
        34 => Some(34u32),
        42 => Some(35u32),
        43 => Some(36u32),
        44 => Some(37u32),
        45 => Some(38u32),
        46 => Some(39u32),
        47 => Some(40u32),
        48 => Some(41u32),
        49 => Some(42u32),
        50 => Some(43u32),
        51 => Some(44u32),
        35 => Some(45u32),
        37 => Some(46u32),
        52 => Some(50u32),
        53 => Some(51u32),
        54 => Some(52u32),
        55 => Some(53u32),
        56 => Some(54u32),
        57 => Some(55u32),
        59 => Some(57u32),
        60 => Some(60u32),
        61 => Some(61u32),
        62 => Some(62u32),
        63 => Some(63u32),
        64 => Some(64u32),
        65 => Some(65u32),
        66 => Some(66u32),
        67 => Some(67u32),
        68 => Some(68u32),
        69 => Some(69u32),
        70 => Some(70u32),
        71 => Some(71u32),
        72 => Some(74u32),
        73 => Some(76u32),
        74 => Some(77u32),
        76 => Some(80u32),
        77 => Some(81u32),
        78 => Some(82u32),
        79 => Some(83u32),
        80 => Some(84u32),
        81 => Some(85u32),
        82 => Some(86u32),
        83 => Some(87u32),
        38 => Some(88u32),
        39 => Some(90u32),
        36 => Some(91u32),
        40 => Some(92u32),
        95 => Some(95u32),
        96 => Some(96u32),
        104 => Some(104u32),
        105 => Some(105u32),
        97 => Some(106u32),
        91 => Some(107u32),
        88 => Some(108u32),
        92 => Some(109u32),
        108 => Some(110u32),
        111 => Some(111u32),
        98 => Some(112u32),
        103 => Some(113u32),
        101 => Some(114u32),
        100 => Some(115u32),
        110 => Some(116u32),
        112 => Some(117u32),
        113 => Some(118u32),
        115 => Some(119u32),
        114 => Some(120u32),
        89 => Some(121u32),
        90 => Some(122u32),
        93 => Some(123u32),
        94 => Some(124u32),
        99 => Some(125u32),
        102 => Some(126u32),
        106 => Some(127u32),
        107 => Some(128u32),
        109 => Some(129u32),
        87 => Some(131u32),
        122 => Some(132u32),
        116 => Some(133u32),
        123 => Some(135u32),
        84 => Some(138u32),
        75 => Some(139u32),
        125 => Some(140u32),
        131 => Some(141u32),
        130 => Some(142u32),
        86 => Some(143u32),
        133 => Some(144u32),
        120 => Some(145u32),
        127 => Some(146u32),
        129 => Some(147u32),
        128 => Some(148u32),
        _ => None,
    }
}

/// The picolibc error number that Linux error number `code` is reported as.
pub open spec fn linux_errno_value(code: u16) -> u32 {
    match picolibc_errno_for_linux(code) {
        Some(v) => v,
        None => (code + UNNAMED_LINUX_ERRNO_BASE) as u32,
    }
}

/// Distinct Linux errors are reported as distinct picolibc errors, and a
/// Linux error without a picolibc name is never reported as a named one.
pub proof fn lemma_linux_errors_stay_distinct(c1: u16, c2: u16)
    ensures
        linux_errno_value(c1) == linux_errno_value(c2) ==> c1 == c2,
        picolibc_errno_for_linux(c1) is None ==> !Errno::is_named(linux_errno_value(c1)),
        picolibc_errno_for_linux(c1) matches Some(v) ==> Errno::is_named(v),
{
}

/// The Linux host passes reads of standard input (0) and writes to standard
/// output (1) and standard error (2) on to the kernel, and nothing else; its
/// wall clock is Linux clock 0 and its monotonic clock Linux clock 1.
pub proof fn lemma_linux_host_choices(fd: i32)
    ensures
        serves_read_spec(fd) <==> fd == 0,
        serves_write_spec(fd) <==> (fd == 1 || fd == 2),
        LINUX_CLOCK_REALTIME == 0 && LINUX_CLOCK_MONOTONIC == 1,
{
}

/// Each Linux error is reported as the picolibc error of the same name (the
/// Linux numbers are those of the generic Linux targets), and an error that
/// picolibc has no name for is reported under its Linux number plus
/// `0x1_0000`: `r` is what `Errno::from_linux(code)` answers.
pub proof fn lemma_linux_errors_keep_their_names(code: u16, r: Errno)
    requires
        r@ == linux_errno_value(code),
        Errno::is_named(r@) ==> !(r is Other),
    ensures
        code == 1 ==> r == Errno::EPERM,
        code == 2 ==> r == Errno::ENOENT,
        code == 3 ==> r == Errno::ESRCH,
        code == 4 ==> r == Errno::EINTR,
        code == 5 ==> r == Errno::EIO,
        code == 6 ==> r == Errno::ENXIO,
        code == 7 ==> r == Errno::E2BIG,
        code == 8 ==> r == Errno::ENOEXEC,
        code == 9 ==> r == Errno::EBADF,
        code == 10 ==> r == Errno::ECHILD,
        code == 11 ==> r == Errno::EAGAIN,
        code == 12 ==> r == Errno::ENOMEM,
        code == 13 ==> r == Errno::EACCES,
        code == 14 ==> r == Errno::EFAULT,
        code == 15 ==> r == Errno::ENOTBLK,
        code == 16 ==> r == Errno::EBUSY,
        code == 17 ==> r == Errno::EEXIST,
        code == 18 ==> r == Errno::EXDEV,
        code == 19 ==> r == Errno::ENODEV,
        code == 20 ==> r == Errno::ENOTDIR,
        code == 21 ==> r == Errno::EISDIR,
        code == 22 ==> r == Errno::EINVAL,
        code == 23 ==> r == Errno::ENFILE,
        code == 24 ==> r == Errno::EMFILE,
        code == 25 ==> r == Errno::ENOTTY,
        code == 26 ==> r == Errno::ETXTBSY,
        code == 27 ==> r == Errno::EFBIG,
        code == 28 ==> r == Errno::ENOSPC,
        code == 29 ==> r == Errno::ESPIPE,
        code == 30 ==> r == Errno::EROFS,
        code == 31 ==> r == Errno::EMLINK,
        code == 32 ==> r == Errno::EPIPE,
        code == 33 ==> r == Errno::EDOM,
        code == 34 ==> r == Errno::ERANGE,
        code == 35 ==> r == Errno::EDEADLK,
        code == 36 ==> r == Errno::ENAMETOOLONG,
        code == 37 ==> r == Errno::ENOLCK,
        code == 38 ==> r == Errno::ENOSYS,
        code == 39 ==> r == Errno::ENOTEMPTY,
        code == 40 ==> r == Errno::ELOOP,
        code == 42 ==> r == Errno::ENOMSG,
        code == 43 ==> r == Errno::EIDRM,
        code == 44 ==> r == Errno::ECHRNG,
        code == 45 ==> r == Errno::EL2NSYNC,
        code == 46 ==> r == Errno::EL3HLT,
        code == 47 ==> r == Errno::EL3RST,
        code == 48 ==> r == Errno::ELNRNG,
        code == 49 ==> r == Errno::EUNATCH,
        code == 50 ==> r == Errno::ENOCSI,
        code == 51 ==> r == Errno::EL2HLT,
        code == 52 ==> r == Errno::EBADE,
        code == 53 ==> r == Errno::EBADR,
        code == 54 ==> r == Errno::EXFULL,
        code == 55 ==> r == Errno::ENOANO,
        code == 56 ==> r == Errno::EBADRQC,
        code == 57 ==> r == Errno::EBADSLT,
        code == 59 ==> r == Errno::EBFONT,
        code == 60 ==> r == Errno::ENOSTR,
        code == 61 ==> r == Errno::ENODATA,
        code == 62 ==> r == Errno::ETIME,
        code == 63 ==> r == Errno::ENOSR,
        code == 64 ==> r == Errno::ENONET,
        code == 65 ==> r == Errno::ENOPKG,
        code == 66 ==> r == Errno::EREMOTE,
        code == 67 ==> r == Errno::ENOLINK,
        code == 68 ==> r == Errno::EADV,
        code == 69 ==> r == Errno::ESRMNT,
        code == 70 ==> r == Errno::ECOMM,
        code == 71 ==> r == Errno::EPROTO,
        code == 72 ==> r == Errno::EMULTIHOP,
        code == 73 ==> r == Errno::EDOTDOT,
        code == 74 ==> r == Errno::EBADMSG,
        code == 75 ==> r == Errno::EOVERFLOW,
        code == 76 ==> r == Errno::ENOTUNIQ,
        code == 77 ==> r == Errno::EBADFD,
        code == 78 ==> r == Errno::EREMCHG,
        code == 79 ==> r == Errno::ELIBACC,
        code == 80 ==> r == Errno::ELIBBAD,
        code == 81 ==> r == Errno::ELIBSCN,
        code == 82 ==> r == Errno::ELIBMAX,
        code == 83 ==> r == Errno::ELIBEXEC,
        code == 84 ==> r == Errno::EILSEQ,
        code == 86 ==> r == Errno::ESTRPIPE,
        code == 87 ==> r == Errno::EUSERS,
        code == 88 ==> r == Errno::ENOTSOCK,
        code == 89 ==> r == Errno::EDESTADDRREQ,
        code == 90 ==> r == Errno::EMSGSIZE,
        code == 91 ==> r == Errno::EPROTOTYPE,
        code == 92 ==> r == Errno::ENOPROTOOPT,
        code == 93 ==> r == Errno::EPROTONOSUPPORT,
        code == 94 ==> r == Errno::ESOCKTNOSUPPORT,
        code == 95 ==> r == Errno::EOPNOTSUPP,
        code == 96 ==> r == Errno::EPFNOSUPPORT,
        code == 97 ==> r == Errno::EAFNOSUPPORT,
        code == 98 ==> r == Errno::EADDRINUSE,
        code == 99 ==> r == Errno::EADDRNOTAVAIL,
        code == 100 ==> r == Errno::ENETDOWN,
        code == 101 ==> r == Errno::ENETUNREACH,
        code == 102 ==> r == Errno::ENETRESET,
        code == 103 ==> r == Errno::ECONNABORTED,
        code == 104 ==> r == Errno::ECONNRESET,
        code == 105 ==> r == Errno::ENOBUFS,
        code == 106 ==> r == Errno::EISCONN,
        code == 107 ==> r == Errno::ENOTCONN,
        code == 108 ==> r == Errno::ESHUTDOWN,
        code == 109 ==> r == Errno::ETOOMANYREFS,
        code == 110 ==> r == Errno::ETIMEDOUT,
        code == 111 ==> r == Errno::ECONNREFUSED,
        code == 112 ==> r == Errno::EHOSTDOWN,
        code == 113 ==> r == Errno::EHOSTUNREACH,
        code == 114 ==> r == Errno::EALREADY,
        code == 115 ==> r == Errno::EINPROGRESS,
        code == 116 ==> r == Errno::ESTALE,
        code == 120 ==> r == Errno::EISNAM,
        code == 122 ==> r == Errno::EDQUOT,
        code == 123 ==> r == Errno::ENOMEDIUM,
        code == 125 ==> r == Errno::ECANCELED,
        code == 127 ==> r == Errno::EKEYEXPIRED,
        code == 128 ==> r == Errno::EKEYREVOKED,
        code == 129 ==> r == Errno::EKEYREJECTED,
        code == 130 ==> r == Errno::EOWNERDEAD,
        code == 131 ==> r == Errno::ENOTRECOVERABLE,
        code == 133 ==> r == Errno::EHWPOISON,
        picolibc_errno_for_linux(code) is None ==> r == Errno::Other(
            (code + UNNAMED_LINUX_ERRNO_BASE) as u32,
        ),
{
    Errno::lemma_number_names_the_error(r);
}

impl Errno {
    /// The error that a Linux error number reports: the picolibc error of
    /// the same name, or, for an error that picolibc has no name for, the
    /// Linux number plus `0x1_0000`.
    pub fn from_linux(code: u16) -> (r: Errno)
        ensures
            r@ == linux_errno_value(code),
            Errno::is_named(r@) ==> !(r is Other),
    {
        match code {
            1 => Errno::EPERM,
            2 => Errno::ENOENT,
            3 => Errno::ESRCH,
            4 => Errno::EINTR,
            5 => Errno::EIO,
            6 => Errno::ENXIO,
            7 => Errno::E2BIG,
            8 => Errno::ENOEXEC,
            9 => Errno::EBADF,
            10 => Errno::ECHILD,
            11 => Errno::EAGAIN,
            12 => Errno::ENOMEM,
            13 => Errno::EACCES,
            14 => Errno::EFAULT,
            15 => Errno::ENOTBLK,
            16 => Errno::EBUSY,
            17 => Errno::EEXIST,
            18 => Errno::EXDEV,
            19 => Errno::ENODEV,
            20 => Errno::ENOTDIR,
            21 => Errno::EISDIR,
            22 => Errno::EINVAL,
            23 => Errno::ENFILE,
            24 => Errno::EMFILE,
            25 => Errno::ENOTTY,
            26 => Errno::ETXTBSY,
            27 => Errno::EFBIG,
            28 => Errno::ENOSPC,
            29 => Errno::ESPIPE,
            30 => Errno::EROFS,
            31 => Errno::EMLINK,
            32 => Errno::EPIPE,
            33 => Errno::EDOM,
            34 => Errno::ERANGE,
            42 => Errno::ENOMSG,
            43 => Errno::EIDRM,
            44 => Errno::ECHRNG,
            45 => Errno::EL2NSYNC,
            46 => Errno::EL3HLT,
            47 => Errno::EL3RST,
            48 => Errno::ELNRNG,
            49 => Errno::EUNATCH,
            50 => Errno::ENOCSI,
            51 => Errno::EL2HLT,
            35 => Errno::EDEADLK,
            37 => Errno::ENOLCK,
            52 => Errno::EBADE,
            53 => Errno::EBADR,
            54 => Errno::EXFULL,
            55 => Errno::ENOANO,
            56 => Errno::EBADRQC,
            57 => Errno::EBADSLT,
            59 => Errno::EBFONT,
            60 => Errno::ENOSTR,
            61 => Errno::ENODATA,
            62 => Errno::ETIME,
            63 => Errno::ENOSR,
            64 => Errno::ENONET,
            65 => Errno::ENOPKG,
            66 => Errno::EREMOTE,
            67 => Errno::ENOLINK,
            68 => Errno::EADV,
            69 => Errno::ESRMNT,
            70 => Errno::ECOMM,
            71 => Errno::EPROTO,
            72 => Errno::EMULTIHOP,
            73 => Errno::EDOTDOT,
            74 => Errno::EBADMSG,
            76 => Errno::ENOTUNIQ,
            77 => Errno::EBADFD,
            78 => Errno::EREMCHG,
            79 => Errno::ELIBACC,
            80 => Errno::ELIBBAD,
            81 => Errno::ELIBSCN,
            82 => Errno::ELIBMAX,
            83 => Errno::ELIBEXEC,
            38 => Errno::ENOSYS,
            39 => Errno::ENOTEMPTY,
            36 => Errno::ENAMETOOLONG,
            40 => Errno::ELOOP,
            95 => Errno::EOPNOTSUPP,
            96 => Errno::EPFNOSUPPORT,
            104 => Errno::ECONNRESET,
            105 => Errno::ENOBUFS,
            97 => Errno::EAFNOSUPPORT,
            91 => Errno::EPROTOTYPE,
            88 => Errno::ENOTSOCK,
            92 => Errno::ENOPROTOOPT,
            108 => Errno::ESHUTDOWN,
            111 => Errno::ECONNREFUSED,
            98 => Errno::EADDRINUSE,
            103 => Errno::ECONNABORTED,
            101 => Errno::ENETUNREACH,
            100 => Errno::ENETDOWN,
            110 => Errno::ETIMEDOUT,
            112 => Errno::EHOSTDOWN,
            113 => Errno::EHOSTUNREACH,
            115 => Errno::EINPROGRESS,
            114 => Errno::EALREADY,
            89 => Errno::EDESTADDRREQ,
            90 => Errno::EMSGSIZE,
            93 => Errno::EPROTONOSUPPORT,
            94 => Errno::ESOCKTNOSUPPORT,
            99 => Errno::EADDRNOTAVAIL,
            102 => Errno::ENETRESET,
            106 => Errno::EISCONN,
            107 => Errno::ENOTCONN,
            109 => Errno::ETOOMANYREFS,
            87 => Errno::EUSERS,
            122 => Errno::EDQUOT,
            116 => Errno::ESTALE,
            123 => Errno::ENOMEDIUM,
            84 => Errno::EILSEQ,
            75 => Errno::EOVERFLOW,
            125 => Errno::ECANCELED,
            131 => Errno::ENOTRECOVERABLE,
            130 => Errno::EOWNERDEAD,
            86 => Errno::ESTRPIPE,
            133 => Errno::EHWPOISON,
            120 => Errno::EISNAM,
            127 => Errno::EKEYEXPIRED,
            129 => Errno::EKEYREJECTED,
            128 => Errno::EKEYREVOKED,
            _ => Errno::from_raw(code as u32 + UNNAMED_LINUX_ERRNO_BASE),
        }
    }
}

} // verus!
