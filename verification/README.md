# rustix (filesystem `*at` calls and directory streams)

Safe wrappers for the POSIX `*at` system calls and for `DIR` directory
streams, in two parts:

- `src/` is the verified library. `path` turns a path into the C string the
  kernel takes (or refuses it with `EINVAL`); `conv` reads libc return values
  and `errno`; `fs::at` decides each round of the growing-buffer
  `readlinkat` loop and proves that the loop returns the whole link target;
  `fs::dir` copies directory entries out of what `readdir` hands out, decodes
  their type, and decides what a read of a stream returns; `fs::types` holds
  the file types; `io` the error type.
- `app/` makes the libc calls themselves (`openat`, `readlinkat`, `mkdirat`,
  `linkat`, `unlinkat`, `renameat`, `symlinkat`, `fstatat`, `faccessat`,
  `utimensat`, `fchmodat`, `mknodat`, `fdopendir`, `readdir`, ...), which
  need `unsafe`, and hands their arguments and results to the library.

The tests under `tests/` exercise the library on concrete values.
