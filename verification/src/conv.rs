//! Reading the return value of a libc call: the sentinel that marks a
//! failure, and the error that `errno` then holds.

use crate::io::Error;
use vstd::prelude::*;

verus! {

/// The result of a call that returns zero on success, such as `mkdirat`:
/// zero is success, anything else a failure whose error `errno` holds.
pub fn ret(raw: i32) -> (r: Result<(), Error>)
    ensures
        raw == 0 <==> r is Ok,
{
    if raw == 0 {
        Ok(())
    } else {
        Err(Error::last_os_error())
    }
}

/// The result of a call that returns a non-negative `int`, such as the file
/// descriptor of `openat`: `-1` is a failure whose error `errno` holds;
/// any other value is passed on.
pub fn ret_c_int(raw: i32) -> (r: Result<i32, Error>)
    ensures
        raw == -1 <==> r is Err,
        raw != -1 ==> r == Ok::<i32, Error>(raw),
{
    if raw == -1 {
        Err(Error::last_os_error())
    } else {
        Ok(raw)
    }
}

/// The result of a call that returns an `ssize_t` count, such as
/// `readlinkat`: `-1` is a failure whose error `errno` holds; any other
/// value is passed on.
pub fn ret_ssize_t(raw: isize) -> (r: Result<isize, Error>)
    ensures
        raw == -1 <==> r is Err,
        raw != -1 ==> r == Ok::<isize, Error>(raw),
{
    if raw == -1 {
        Err(Error::last_os_error())
    } else {
        Ok(raw)
    }
}

} // verus!
