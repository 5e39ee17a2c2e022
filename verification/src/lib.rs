//! A verified model of the Rust runtime layer that sits between Rust programs
//! and picolibc: errno values, host hooks, the `sbrk` heap break, time
//! arithmetic, exit codes and thread-local keys.

use vstd::prelude::*;

pub mod io;
pub mod process;
pub mod emutls;
pub mod host;
pub mod stubs;
pub mod thread;
pub mod time;

