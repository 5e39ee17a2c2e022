pub mod io;
pub mod sbrk;
pub mod time;
