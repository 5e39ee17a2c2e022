# picolibc runtime, verified

The Rust side of a picolibc-based `no_std` runtime: what picolibc's C code
calls back into (`sbrk`, `read`, `write`, `lseek`, `close`, `clock_gettime`,
`gettimeofday`, errno), the host that a program plugs in, time arithmetic,
exit codes and thread-local keys. The library in `src/` is verified with
Verus; `app/` holds the C entry points, system calls and global statics
around it.

Layout of `src/`:

- `host.rs`, `host/linux.rs`: the `Host` trait with its defaults; the
  decisions of the Linux host (which descriptors it serves, clock ids,
  clamping kernel time, Linux to picolibc error numbers).
- `io.rs`, `io/errno.rs`: picolibc error numbers; writing a whole buffer to
  standard output or standard error through the host.
- `stubs/sbrk.rs`: the program break, grown through the host's `mmap`.
- `stubs/io.rs`, `stubs/time.rs`: the logic of the C file and clock calls.
- `time.rs`: `SystemTime` and `Duration` arithmetic and ordering.
- `thread.rs`: thread-local keys, one lazily created value per thread.
- `process.rs`: exit codes and `Termination`.
- `emutls.rs`: the block layout of emulated thread-local variables and the
  table of their per-thread addresses.
