use vstd::prelude::*;

verus! {

/// An error number, as picolibc reports it through `errno`.
///
/// Each named variant stands for the picolibc error number of the same name;
/// `Other` carries any other number. Two values are equal exactly when their
/// numbers are equal, so `Errno::Other(12) == Errno::ENOMEM`.
#[allow(non_camel_case_types)]
#[derive(Debug, Clone, Copy)]
pub enum Errno {
    EPERM,
    ENOENT,
    ESRCH,
    EINTR,
    EIO,
    ENXIO,
    E2BIG,
    ENOEXEC,
    EBADF,
    ECHILD,
    EAGAIN,
    ENOMEM,
    EACCES,
    EFAULT,
    ENOTBLK,
    EBUSY,
    EEXIST,
    EXDEV,
    ENODEV,
    ENOTDIR,
    EISDIR,
    EINVAL,
    ENFILE,
    EMFILE,
    ENOTTY,
    ETXTBSY,
    EFBIG,
    ENOSPC,
    ESPIPE,
    EROFS,
    EMLINK,
    EPIPE,
    EDOM,
    ERANGE,
    ENOMSG,
    EIDRM,
    ECHRNG,
    EL2NSYNC,
    EL3HLT,
    EL3RST,
    ELNRNG,
    EUNATCH,
    ENOCSI,
    EL2HLT,
    EDEADLK,
    ENOLCK,
    EBADE,
    EBADR,
    EXFULL,
    ENOANO,
    EBADRQC,
    EBADSLT,
    EDEADLOCK,
    EBFONT,
    ENOSTR,
    ENODATA,
    ETIME,
    ENOSR,
    ENONET,
    ENOPKG,
    EREMOTE,
    ENOLINK,
    EADV,
    ESRMNT,
    ECOMM,
    EPROTO,
    EMULTIHOP,
    ELBIN,
    EDOTDOT,
    EBADMSG,
    EFTYPE,
    ENOTUNIQ,
    EBADFD,
    EREMCHG,
    ELIBACC,
    ELIBBAD,
    ELIBSCN,
    ELIBMAX,
    ELIBEXEC,
    ENOSYS,
    ENOTEMPTY,
    ENAMETOOLONG,
    ELOOP,
    EOPNOTSUPP,
    EPFNOSUPPORT,
    ECONNRESET,
    ENOBUFS,
    EAFNOSUPPORT,
    EPROTOTYPE,
    ENOTSOCK,
    ENOPROTOOPT,
    ESHUTDOWN,
    ECONNREFUSED,
    EADDRINUSE,
    ECONNABORTED,
    ENETUNREACH,
    ENETDOWN,
    ETIMEDOUT,
    EHOSTDOWN,
    EHOSTUNREACH,
    EINPROGRESS,
    EALREADY,
    EDESTADDRREQ,
    EMSGSIZE,
    EPROTONOSUPPORT,
    ESOCKTNOSUPPORT,
    EADDRNOTAVAIL,
    ENETRESET,
    EISCONN,
    ENOTCONN,
    ETOOMANYREFS,
    EPROCLIM,
    EUSERS,
    EDQUOT,
    ESTALE,
    ENOTSUP,
    ENOMEDIUM,
    EILSEQ,
    EOVERFLOW,
    ECANCELED,
    ENOTRECOVERABLE,
    EOWNERDEAD,
    ESTRPIPE,
    EHWPOISON,
    EISNAM,
    EKEYEXPIRED,
    EKEYREJECTED,
    EKEYREVOKED,
    /// An error number that has no name above.
    Other(u32),
}

impl Errno {
    /// The same number as `EAGAIN`.
    pub const EWOULDBLOCK: Errno = Errno::EAGAIN;

    /// The error number that this value stands for.
    pub open spec fn raw(self) -> u32 {
        match self {
            Errno::EPERM => 1,
            Errno::ENOENT => 2,
            Errno::ESRCH => 3,
            Errno::EINTR => 4,
            Errno::EIO => 5,
            Errno::ENXIO => 6,
            Errno::E2BIG => 7,
            Errno::ENOEXEC => 8,
            Errno::EBADF => 9,
            Errno::ECHILD => 10,
            Errno::EAGAIN => 11,
            Errno::ENOMEM => 12,
            Errno::EACCES => 13,
            Errno::EFAULT => 14,
            Errno::ENOTBLK => 15,
            Errno::EBUSY => 16,
            Errno::EEXIST => 17,
            Errno::EXDEV => 18,
            Errno::ENODEV => 19,
            Errno::ENOTDIR => 20,
            Errno::EISDIR => 21,
            Errno::EINVAL => 22,
            Errno::ENFILE => 23,
            Errno::EMFILE => 24,
            Errno::ENOTTY => 25,
            Errno::ETXTBSY => 26,
            Errno::EFBIG => 27,
            Errno::ENOSPC => 28,
            Errno::ESPIPE => 29,
            Errno::EROFS => 30,
            Errno::EMLINK => 31,
            Errno::EPIPE => 32,
            Errno::EDOM => 33,
            Errno::ERANGE => 34,
            Errno::ENOMSG => 35,
            Errno::EIDRM => 36,
            Errno::ECHRNG => 37,
            Errno::EL2NSYNC => 38,
            Errno::EL3HLT => 39,
            Errno::EL3RST => 40,
            Errno::ELNRNG => 41,
            Errno::EUNATCH => 42,
            Errno::ENOCSI => 43,
            Errno::EL2HLT => 44,
            Errno::EDEADLK => 45,
            Errno::ENOLCK => 46,
            Errno::EBADE => 50,
            Errno::EBADR => 51,
            Errno::EXFULL => 52,
            Errno::ENOANO => 53,
            Errno::EBADRQC => 54,
            Errno::EBADSLT => 55,
            Errno::EDEADLOCK => 56,
            Errno::EBFONT => 57,
            Errno::ENOSTR => 60,
            Errno::ENODATA => 61,
            Errno::ETIME => 62,
            Errno::ENOSR => 63,
            Errno::ENONET => 64,
            Errno::ENOPKG => 65,
            Errno::EREMOTE => 66,
            Errno::ENOLINK => 67,
            Errno::EADV => 68,
            Errno::ESRMNT => 69,
            Errno::ECOMM => 70,
            Errno::EPROTO => 71,
            Errno::EMULTIHOP => 74,
            Errno::ELBIN => 75,
            Errno::EDOTDOT => 76,
            Errno::EBADMSG => 77,
            Errno::EFTYPE => 79,
            Errno::ENOTUNIQ => 80,
            Errno::EBADFD => 81,
            Errno::EREMCHG => 82,
            Errno::ELIBACC => 83,
            Errno::ELIBBAD => 84,
            Errno::ELIBSCN => 85,
            Errno::ELIBMAX => 86,
            Errno::ELIBEXEC => 87,
            Errno::ENOSYS => 88,
            Errno::ENOTEMPTY => 90,
            Errno::ENAMETOOLONG => 91,
            Errno::ELOOP => 92,
            Errno::EOPNOTSUPP => 95,
            Errno::EPFNOSUPPORT => 96,
            Errno::ECONNRESET => 104,
            Errno::ENOBUFS => 105,
            Errno::EAFNOSUPPORT => 106,
            Errno::EPROTOTYPE => 107,
            Errno::ENOTSOCK => 108,
            Errno::ENOPROTOOPT => 109,
            Errno::ESHUTDOWN => 110,
            Errno::ECONNREFUSED => 111,
            Errno::EADDRINUSE => 112,
            Errno::ECONNABORTED => 113,
            Errno::ENETUNREACH => 114,
            Errno::ENETDOWN => 115,
            Errno::ETIMEDOUT => 116,
            Errno::EHOSTDOWN => 117,
            Errno::EHOSTUNREACH => 118,
            Errno::EINPROGRESS => 119,
            Errno::EALREADY => 120,
            Errno::EDESTADDRREQ => 121,
            Errno::EMSGSIZE => 122,
            Errno::EPROTONOSUPPORT => 123,
            Errno::ESOCKTNOSUPPORT => 124,
            Errno::EADDRNOTAVAIL => 125,
            Errno::ENETRESET => 126,
            Errno::EISCONN => 127,
            Errno::ENOTCONN => 128,
            Errno::ETOOMANYREFS => 129,
            Errno::EPROCLIM => 130,
            Errno::EUSERS => 131,
            Errno::EDQUOT => 132,
            Errno::ESTALE => 133,
            Errno::ENOTSUP => 134,
            Errno::ENOMEDIUM => 135,
            Errno::EILSEQ => 138,
            Errno::EOVERFLOW => 139,
            Errno::ECANCELED => 140,
            Errno::ENOTRECOVERABLE => 141,
            Errno::EOWNERDEAD => 142,
            Errno::ESTRPIPE => 143,
            Errno::EHWPOISON => 144,
            Errno::EISNAM => 145,
            Errno::EKEYEXPIRED => 146,
            Errno::EKEYREJECTED => 147,
            Errno::EKEYREVOKED => 148,
            Errno::Other(v) => v,
        }
    }

    /// The error that picolibc number `raw` stands for: its named variant,
    /// or `Other` for a number without a name.
    pub open spec fn from_number(raw: u32) -> Errno {
        match raw {
            1 => Errno::EPERM,
            2 => Errno::ENOENT,
            3 => Errno::ESRCH,
            4 => Errno::EINTR,
            5 => Errno::EIO,
            6 => Errno::ENXIO,
            7 => Errno::E2BIG,
            8 => Errno::ENOEXEC,
            9 => Errno::EBADF,
            10 => Errno::ECHILD,
            11 => Errno::EAGAIN,
            12 => Errno::ENOMEM,
            13 => Errno::EACCES,
            14 => Errno::EFAULT,
            15 => Errno::ENOTBLK,
            16 => Errno::EBUSY,
            17 => Errno::EEXIST,
            18 => Errno::EXDEV,
            19 => Errno::ENODEV,
            20 => Errno::ENOTDIR,
            21 => Errno::EISDIR,
            22 => Errno::EINVAL,
            23 => Errno::ENFILE,
            24 => Errno::EMFILE,
            25 => Errno::ENOTTY,
            26 => Errno::ETXTBSY,
            27 => Errno::EFBIG,
            28 => Errno::ENOSPC,
            29 => Errno::ESPIPE,
            30 => Errno::EROFS,
            31 => Errno::EMLINK,
            32 => Errno::EPIPE,
            33 => Errno::EDOM,
            34 => Errno::ERANGE,
            35 => Errno::ENOMSG,
            36 => Errno::EIDRM,
            37 => Errno::ECHRNG,
            38 => Errno::EL2NSYNC,
            39 => Errno::EL3HLT,
            40 => Errno::EL3RST,
            41 => Errno::ELNRNG,
            42 => Errno::EUNATCH,
            43 => Errno::ENOCSI,
            44 => Errno::EL2HLT,
            45 => Errno::EDEADLK,
            46 => Errno::ENOLCK,
            50 => Errno::EBADE,
            51 => Errno::EBADR,
            52 => Errno::EXFULL,
            53 => Errno::ENOANO,
            54 => Errno::EBADRQC,
            55 => Errno::EBADSLT,
            56 => Errno::EDEADLOCK,
            57 => Errno::EBFONT,
            60 => Errno::ENOSTR,
            61 => Errno::ENODATA,
            62 => Errno::ETIME,
            63 => Errno::ENOSR,
            64 => Errno::ENONET,
            65 => Errno::ENOPKG,
            66 => Errno::EREMOTE,
            67 => Errno::ENOLINK,
            68 => Errno::EADV,
            69 => Errno::ESRMNT,
            70 => Errno::ECOMM,
            71 => Errno::EPROTO,
            74 => Errno::EMULTIHOP,
            75 => Errno::ELBIN,
            76 => Errno::EDOTDOT,
            77 => Errno::EBADMSG,
            79 => Errno::EFTYPE,
            80 => Errno::ENOTUNIQ,
            81 => Errno::EBADFD,
            82 => Errno::EREMCHG,
            83 => Errno::ELIBACC,
            84 => Errno::ELIBBAD,
            85 => Errno::ELIBSCN,
            86 => Errno::ELIBMAX,
            87 => Errno::ELIBEXEC,
            88 => Errno::ENOSYS,
            90 => Errno::ENOTEMPTY,
            91 => Errno::ENAMETOOLONG,
            92 => Errno::ELOOP,
            95 => Errno::EOPNOTSUPP,
            96 => Errno::EPFNOSUPPORT,
            104 => Errno::ECONNRESET,
            105 => Errno::ENOBUFS,
            106 => Errno::EAFNOSUPPORT,
            107 => Errno::EPROTOTYPE,
            108 => Errno::ENOTSOCK,
            109 => Errno::ENOPROTOOPT,
            110 => Errno::ESHUTDOWN,
            111 => Errno::ECONNREFUSED,
            112 => Errno::EADDRINUSE,
            113 => Errno::ECONNABORTED,
            114 => Errno::ENETUNREACH,
            115 => Errno::ENETDOWN,
            116 => Errno::ETIMEDOUT,
            117 => Errno::EHOSTDOWN,
            118 => Errno::EHOSTUNREACH,
            119 => Errno::EINPROGRESS,
            120 => Errno::EALREADY,
            121 => Errno::EDESTADDRREQ,
            122 => Errno::EMSGSIZE,
            123 => Errno::EPROTONOSUPPORT,
            124 => Errno::ESOCKTNOSUPPORT,
            125 => Errno::EADDRNOTAVAIL,
            126 => Errno::ENETRESET,
            127 => Errno::EISCONN,
            128 => Errno::ENOTCONN,
            129 => Errno::ETOOMANYREFS,
            130 => Errno::EPROCLIM,
            131 => Errno::EUSERS,
            132 => Errno::EDQUOT,
            133 => Errno::ESTALE,
            134 => Errno::ENOTSUP,
            135 => Errno::ENOMEDIUM,
            138 => Errno::EILSEQ,
            139 => Errno::EOVERFLOW,
            140 => Errno::ECANCELED,
            141 => Errno::ENOTRECOVERABLE,
            142 => Errno::EOWNERDEAD,
            143 => Errno::ESTRPIPE,
            144 => Errno::EHWPOISON,
            145 => Errno::EISNAM,
            146 => Errno::EKEYEXPIRED,
            147 => Errno::EKEYREJECTED,
            148 => Errno::EKEYREVOKED,
            _ => Errno::Other(raw),
        }
    }

    /// Whether `raw` is the number of one of the named variants.
    pub open spec fn is_named(raw: u32) -> bool {
        match raw {
            1 | 2 | 3 | 4 | 5 | 6 | 7 | 8 | 9 | 10 | 11 | 12 | 13 | 14 | 15 | 16 | 17 | 18 | 19 | 20 | 21 | 22 | 23 | 24 | 25 | 26 | 27 | 28 | 29 | 30 | 31 | 32 | 33 | 34 | 35 | 36 | 37 | 38 | 39 | 40 | 41 | 42 | 43 | 44 | 45 | 46 | 50 | 51 | 52 | 53 | 54 | 55 | 56 | 57 | 60 | 61 | 62 | 63 | 64 | 65 | 66 | 67 | 68 | 69 | 70 | 71 | 74 | 75 | 76 | 77 | 79 | 80 | 81 | 82 | 83 | 84 | 85 | 86 | 87 | 88 | 90 | 91 | 92 | 95 | 96 | 104 | 105 | 106 | 107 | 108 | 109 | 110 | 111 | 112 | 113 | 114 | 115 | 116 | 117 | 118 | 119 | 120 | 121 | 122 | 123 | 124 | 125 | 126 | 127 | 128 | 129 | 130 | 131 | 132 | 133 | 134 | 135 | 138 | 139 | 140 | 141 | 142 | 143 | 144 | 145 | 146 | 147 | 148 => true,
            _ => false,
        }
    }

    /// Wraps a raw error number; a number with a name gives the named variant.
    pub fn from_raw(raw: u32) -> (r: Self)
        ensures
            r@ == raw,
            r == Errno::from_number(raw),
            Errno::is_named(raw) ==> !(r is Other),
            !Errno::is_named(raw) ==> r == Errno::Other(raw),
    {
        match raw {
            1 => Errno::EPERM,
            2 => Errno::ENOENT,
            3 => Errno::ESRCH,
            4 => Errno::EINTR,
            5 => Errno::EIO,
            6 => Errno::ENXIO,
            7 => Errno::E2BIG,
            8 => Errno::ENOEXEC,
            9 => Errno::EBADF,
            10 => Errno::ECHILD,
            11 => Errno::EAGAIN,
            12 => Errno::ENOMEM,
            13 => Errno::EACCES,
            14 => Errno::EFAULT,
            15 => Errno::ENOTBLK,
            16 => Errno::EBUSY,
            17 => Errno::EEXIST,
            18 => Errno::EXDEV,
            19 => Errno::ENODEV,
            20 => Errno::ENOTDIR,
            21 => Errno::EISDIR,
            22 => Errno::EINVAL,
            23 => Errno::ENFILE,
            24 => Errno::EMFILE,
            25 => Errno::ENOTTY,
            26 => Errno::ETXTBSY,
            27 => Errno::EFBIG,
            28 => Errno::ENOSPC,
            29 => Errno::ESPIPE,
            30 => Errno::EROFS,
            31 => Errno::EMLINK,
            32 => Errno::EPIPE,
            33 => Errno::EDOM,
            34 => Errno::ERANGE,
            35 => Errno::ENOMSG,
            36 => Errno::EIDRM,
            37 => Errno::ECHRNG,
            38 => Errno::EL2NSYNC,
            39 => Errno::EL3HLT,
            40 => Errno::EL3RST,
            41 => Errno::ELNRNG,
            42 => Errno::EUNATCH,
            43 => Errno::ENOCSI,
            44 => Errno::EL2HLT,
            45 => Errno::EDEADLK,
            46 => Errno::ENOLCK,
            50 => Errno::EBADE,
            51 => Errno::EBADR,
            52 => Errno::EXFULL,
            53 => Errno::ENOANO,
            54 => Errno::EBADRQC,
            55 => Errno::EBADSLT,
            56 => Errno::EDEADLOCK,
            57 => Errno::EBFONT,
            60 => Errno::ENOSTR,
            61 => Errno::ENODATA,
            62 => Errno::ETIME,
            63 => Errno::ENOSR,
            64 => Errno::ENONET,
            65 => Errno::ENOPKG,
            66 => Errno::EREMOTE,
            67 => Errno::ENOLINK,
            68 => Errno::EADV,
            69 => Errno::ESRMNT,
            70 => Errno::ECOMM,
            71 => Errno::EPROTO,
            74 => Errno::EMULTIHOP,
            75 => Errno::ELBIN,
            76 => Errno::EDOTDOT,
            77 => Errno::EBADMSG,
            79 => Errno::EFTYPE,
            80 => Errno::ENOTUNIQ,
            81 => Errno::EBADFD,
            82 => Errno::EREMCHG,
            83 => Errno::ELIBACC,
            84 => Errno::ELIBBAD,
            85 => Errno::ELIBSCN,
            86 => Errno::ELIBMAX,
            87 => Errno::ELIBEXEC,
            88 => Errno::ENOSYS,
            90 => Errno::ENOTEMPTY,
            91 => Errno::ENAMETOOLONG,
            92 => Errno::ELOOP,
            95 => Errno::EOPNOTSUPP,
            96 => Errno::EPFNOSUPPORT,
            104 => Errno::ECONNRESET,
            105 => Errno::ENOBUFS,
            106 => Errno::EAFNOSUPPORT,
            107 => Errno::EPROTOTYPE,
            108 => Errno::ENOTSOCK,
            109 => Errno::ENOPROTOOPT,
            110 => Errno::ESHUTDOWN,
            111 => Errno::ECONNREFUSED,
            112 => Errno::EADDRINUSE,
            113 => Errno::ECONNABORTED,
            114 => Errno::ENETUNREACH,
            115 => Errno::ENETDOWN,
            116 => Errno::ETIMEDOUT,
            117 => Errno::EHOSTDOWN,
            118 => Errno::EHOSTUNREACH,
            119 => Errno::EINPROGRESS,
            120 => Errno::EALREADY,
            121 => Errno::EDESTADDRREQ,
            122 => Errno::EMSGSIZE,
            123 => Errno::EPROTONOSUPPORT,
            124 => Errno::ESOCKTNOSUPPORT,
            125 => Errno::EADDRNOTAVAIL,
            126 => Errno::ENETRESET,
            127 => Errno::EISCONN,
            128 => Errno::ENOTCONN,
            129 => Errno::ETOOMANYREFS,
            130 => Errno::EPROCLIM,
            131 => Errno::EUSERS,
            132 => Errno::EDQUOT,
            133 => Errno::ESTALE,
            134 => Errno::ENOTSUP,
            135 => Errno::ENOMEDIUM,
            138 => Errno::EILSEQ,
            139 => Errno::EOVERFLOW,
            140 => Errno::ECANCELED,
            141 => Errno::ENOTRECOVERABLE,
            142 => Errno::EOWNERDEAD,
            143 => Errno::ESTRPIPE,
            144 => Errno::EHWPOISON,
            145 => Errno::EISNAM,
            146 => Errno::EKEYEXPIRED,
            147 => Errno::EKEYREJECTED,
            148 => Errno::EKEYREVOKED,
            _ => Errno::Other(raw),
        }
    }

    /// Each named error carries picolibc's number for that name.
    pub proof fn lemma_picolibc_numbers()
        ensures
            Errno::EPERM@ == 1,
            Errno::ENOENT@ == 2,
            Errno::ESRCH@ == 3,
            Errno::EINTR@ == 4,
            Errno::EIO@ == 5,
            Errno::ENXIO@ == 6,
            Errno::E2BIG@ == 7,
            Errno::ENOEXEC@ == 8,
            Errno::EBADF@ == 9,
            Errno::ECHILD@ == 10,
            Errno::EAGAIN@ == 11,
            Errno::ENOMEM@ == 12,
            Errno::EACCES@ == 13,
            Errno::EFAULT@ == 14,
            Errno::ENOTBLK@ == 15,
            Errno::EBUSY@ == 16,
            Errno::EEXIST@ == 17,
            Errno::EXDEV@ == 18,
            Errno::ENODEV@ == 19,
            Errno::ENOTDIR@ == 20,
            Errno::EISDIR@ == 21,
            Errno::EINVAL@ == 22,
            Errno::ENFILE@ == 23,
            Errno::EMFILE@ == 24,
            Errno::ENOTTY@ == 25,
            Errno::ETXTBSY@ == 26,
            Errno::EFBIG@ == 27,
            Errno::ENOSPC@ == 28,
            Errno::ESPIPE@ == 29,
            Errno::EROFS@ == 30,
            Errno::EMLINK@ == 31,
            Errno::EPIPE@ == 32,
            Errno::EDOM@ == 33,
            Errno::ERANGE@ == 34,
            Errno::ENOMSG@ == 35,
            Errno::EIDRM@ == 36,
            Errno::ECHRNG@ == 37,
            Errno::EL2NSYNC@ == 38,
            Errno::EL3HLT@ == 39,
            Errno::EL3RST@ == 40,
            Errno::ELNRNG@ == 41,
            Errno::EUNATCH@ == 42,
            Errno::ENOCSI@ == 43,
            Errno::EL2HLT@ == 44,
            Errno::EDEADLK@ == 45,
            Errno::ENOLCK@ == 46,
            Errno::EBADE@ == 50,
            Errno::EBADR@ == 51,
            Errno::EXFULL@ == 52,
            Errno::ENOANO@ == 53,
            Errno::EBADRQC@ == 54,
            Errno::EBADSLT@ == 55,
            Errno::EDEADLOCK@ == 56,
            Errno::EBFONT@ == 57,
            Errno::ENOSTR@ == 60,
            Errno::ENODATA@ == 61,
            Errno::ETIME@ == 62,
            Errno::ENOSR@ == 63,
            Errno::ENONET@ == 64,
            Errno::ENOPKG@ == 65,
            Errno::EREMOTE@ == 66,
            Errno::ENOLINK@ == 67,
            Errno::EADV@ == 68,
            Errno::ESRMNT@ == 69,
            Errno::ECOMM@ == 70,
            Errno::EPROTO@ == 71,
            Errno::EMULTIHOP@ == 74,
            Errno::ELBIN@ == 75,
            Errno::EDOTDOT@ == 76,
            Errno::EBADMSG@ == 77,
            Errno::EFTYPE@ == 79,
            Errno::ENOTUNIQ@ == 80,
            Errno::EBADFD@ == 81,
            Errno::EREMCHG@ == 82,
            Errno::ELIBACC@ == 83,
            Errno::ELIBBAD@ == 84,
            Errno::ELIBSCN@ == 85,
            Errno::ELIBMAX@ == 86,
            Errno::ELIBEXEC@ == 87,
            Errno::ENOSYS@ == 88,
            Errno::ENOTEMPTY@ == 90,
            Errno::ENAMETOOLONG@ == 91,
            Errno::ELOOP@ == 92,
            Errno::EOPNOTSUPP@ == 95,
            Errno::EPFNOSUPPORT@ == 96,
            Errno::ECONNRESET@ == 104,
            Errno::ENOBUFS@ == 105,
            Errno::EAFNOSUPPORT@ == 106,
            Errno::EPROTOTYPE@ == 107,
            Errno::ENOTSOCK@ == 108,
            Errno::ENOPROTOOPT@ == 109,
            Errno::ESHUTDOWN@ == 110,
            Errno::ECONNREFUSED@ == 111,
            Errno::EADDRINUSE@ == 112,
            Errno::ECONNABORTED@ == 113,
            Errno::ENETUNREACH@ == 114,
            Errno::ENETDOWN@ == 115,
            Errno::ETIMEDOUT@ == 116,
            Errno::EHOSTDOWN@ == 117,
            Errno::EHOSTUNREACH@ == 118,
            Errno::EINPROGRESS@ == 119,
            Errno::EALREADY@ == 120,
            Errno::EDESTADDRREQ@ == 121,
            Errno::EMSGSIZE@ == 122,
            Errno::EPROTONOSUPPORT@ == 123,
            Errno::ESOCKTNOSUPPORT@ == 124,
            Errno::EADDRNOTAVAIL@ == 125,
            Errno::ENETRESET@ == 126,
            Errno::EISCONN@ == 127,
            Errno::ENOTCONN@ == 128,
            Errno::ETOOMANYREFS@ == 129,
            Errno::EPROCLIM@ == 130,
            Errno::EUSERS@ == 131,
            Errno::EDQUOT@ == 132,
            Errno::ESTALE@ == 133,
            Errno::ENOTSUP@ == 134,
            Errno::ENOMEDIUM@ == 135,
            Errno::EILSEQ@ == 138,
            Errno::EOVERFLOW@ == 139,
            Errno::ECANCELED@ == 140,
            Errno::ENOTRECOVERABLE@ == 141,
            Errno::EOWNERDEAD@ == 142,
            Errno::ESTRPIPE@ == 143,
            Errno::EHWPOISON@ == 144,
            Errno::EISNAM@ == 145,
            Errno::EKEYEXPIRED@ == 146,
            Errno::EKEYREJECTED@ == 147,
            Errno::EKEYREVOKED@ == 148,
    {
    }

    /// A named error is the one that its number names, and a number
    /// without a name stands for itself: going from an error to its number
    /// and back gives the error again.
    pub proof fn lemma_number_names_the_error(e: Errno)
        requires
            !(e is Other) || !Errno::is_named(e@),
        ensures
            Errno::from_number(e@) == e,
            Errno::is_named(e@) <==> !(e is Other),
    {
    }

    /// Two named errors with the same number are the same error.
    pub proof fn lemma_named_errors_are_distinct(a: Errno, b: Errno)
        requires
            !(a is Other),
            !(b is Other),
            a@ == b@,
        ensures
            a == b,
    {
        Errno::lemma_number_names_the_error(a);
        Errno::lemma_number_names_the_error(b);
    }

    /// The raw error number.
    pub fn as_raw(self) -> (r: u32)
        ensures
            r == self@,
    {
        match self {
            Errno::EPERM => 1,
            Errno::ENOENT => 2,
            Errno::ESRCH => 3,
            Errno::EINTR => 4,
            Errno::EIO => 5,
            Errno::ENXIO => 6,
            Errno::E2BIG => 7,
            Errno::ENOEXEC => 8,
            Errno::EBADF => 9,
            Errno::ECHILD => 10,
            Errno::EAGAIN => 11,
            Errno::ENOMEM => 12,
            Errno::EACCES => 13,
            Errno::EFAULT => 14,
            Errno::ENOTBLK => 15,
            Errno::EBUSY => 16,
            Errno::EEXIST => 17,
            Errno::EXDEV => 18,
            Errno::ENODEV => 19,
            Errno::ENOTDIR => 20,
            Errno::EISDIR => 21,
            Errno::EINVAL => 22,
            Errno::ENFILE => 23,
            Errno::EMFILE => 24,
            Errno::ENOTTY => 25,
            Errno::ETXTBSY => 26,
            Errno::EFBIG => 27,
            Errno::ENOSPC => 28,
            Errno::ESPIPE => 29,
            Errno::EROFS => 30,
            Errno::EMLINK => 31,
            Errno::EPIPE => 32,
            Errno::EDOM => 33,
            Errno::ERANGE => 34,
            Errno::ENOMSG => 35,
            Errno::EIDRM => 36,
            Errno::ECHRNG => 37,
            Errno::EL2NSYNC => 38,
            Errno::EL3HLT => 39,
            Errno::EL3RST => 40,
            Errno::ELNRNG => 41,
            Errno::EUNATCH => 42,
            Errno::ENOCSI => 43,
            Errno::EL2HLT => 44,
            Errno::EDEADLK => 45,
            Errno::ENOLCK => 46,
            Errno::EBADE => 50,
            Errno::EBADR => 51,
            Errno::EXFULL => 52,
            Errno::ENOANO => 53,
            Errno::EBADRQC => 54,
            Errno::EBADSLT => 55,
            Errno::EDEADLOCK => 56,
            Errno::EBFONT => 57,
            Errno::ENOSTR => 60,
            Errno::ENODATA => 61,
            Errno::ETIME => 62,
            Errno::ENOSR => 63,
            Errno::ENONET => 64,
            Errno::ENOPKG => 65,
            Errno::EREMOTE => 66,
            Errno::ENOLINK => 67,
            Errno::EADV => 68,
            Errno::ESRMNT => 69,
            Errno::ECOMM => 70,
            Errno::EPROTO => 71,
            Errno::EMULTIHOP => 74,
            Errno::ELBIN => 75,
            Errno::EDOTDOT => 76,
            Errno::EBADMSG => 77,
            Errno::EFTYPE => 79,
            Errno::ENOTUNIQ => 80,
            Errno::EBADFD => 81,
            Errno::EREMCHG => 82,
            Errno::ELIBACC => 83,
            Errno::ELIBBAD => 84,
            Errno::ELIBSCN => 85,
            Errno::ELIBMAX => 86,
            Errno::ELIBEXEC => 87,
            Errno::ENOSYS => 88,
            Errno::ENOTEMPTY => 90,
            Errno::ENAMETOOLONG => 91,
            Errno::ELOOP => 92,
            Errno::EOPNOTSUPP => 95,
            Errno::EPFNOSUPPORT => 96,
            Errno::ECONNRESET => 104,
            Errno::ENOBUFS => 105,
            Errno::EAFNOSUPPORT => 106,
            Errno::EPROTOTYPE => 107,
            Errno::ENOTSOCK => 108,
            Errno::ENOPROTOOPT => 109,
            Errno::ESHUTDOWN => 110,
            Errno::ECONNREFUSED => 111,
            Errno::EADDRINUSE => 112,
            Errno::ECONNABORTED => 113,
            Errno::ENETUNREACH => 114,
            Errno::ENETDOWN => 115,
            Errno::ETIMEDOUT => 116,
            Errno::EHOSTDOWN => 117,
            Errno::EHOSTUNREACH => 118,
            Errno::EINPROGRESS => 119,
            Errno::EALREADY => 120,
            Errno::EDESTADDRREQ => 121,
            Errno::EMSGSIZE => 122,
            Errno::EPROTONOSUPPORT => 123,
            Errno::ESOCKTNOSUPPORT => 124,
            Errno::EADDRNOTAVAIL => 125,
            Errno::ENETRESET => 126,
            Errno::EISCONN => 127,
            Errno::ENOTCONN => 128,
            Errno::ETOOMANYREFS => 129,
            Errno::EPROCLIM => 130,
            Errno::EUSERS => 131,
            Errno::EDQUOT => 132,
            Errno::ESTALE => 133,
            Errno::ENOTSUP => 134,
            Errno::ENOMEDIUM => 135,
            Errno::EILSEQ => 138,
            Errno::EOVERFLOW => 139,
            Errno::ECANCELED => 140,
            Errno::ENOTRECOVERABLE => 141,
            Errno::EOWNERDEAD => 142,
            Errno::ESTRPIPE => 143,
            Errno::EHWPOISON => 144,
            Errno::EISNAM => 145,
            Errno::EKEYEXPIRED => 146,
            Errno::EKEYREJECTED => 147,
            Errno::EKEYREVOKED => 148,
            Errno::Other(v) => v,
        }
    }
}

impl View for Errno {
    type V = u32;

    open spec fn view(&self) -> u32 {
        self.raw()
    }
}

impl PartialEq for Errno {
    fn eq(&self, other: &Self) -> (r: bool) {
        self.as_raw() == other.as_raw()
    }
}

impl Eq for Errno {}

impl vstd::std_specs::cmp::PartialEqSpecImpl for Errno {
    open spec fn obeys_eq_spec() -> bool {
        true
    }

    open spec fn eq_spec(&self, other: &Self) -> bool {
        self@ == other@
    }
}

} // verus!
