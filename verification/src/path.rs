//! Turning a path's bytes into the NUL-terminated string that the system
//! calls take.

use crate::io::{Error, EINVAL};
use vstd::prelude::*;

verus! {

/// `bytes` holds a NUL byte somewhere.
pub open spec fn has_nul(bytes: Seq<u8>) -> bool {
    exists|i: int| 0 <= i < bytes.len() && bytes[i] == 0
}

/// The C string that stands for a path that holds no NUL: its bytes, then
/// one NUL.
pub open spec fn c_string_of(bytes: Seq<u8>) -> Seq<u8> {
    bytes.push(0u8)
}

/// Converts a path into a C string, the way every `*at` function passes its
/// paths to the kernel.
///
/// A path with a NUL byte inside cannot be expressed as a C string and is
/// refused with `EINVAL`; any other path comes back with one NUL appended.
pub fn into_c_string(path: &[u8]) -> (r: Result<Vec<u8>, Error>)
    ensures
        match r {
            Ok(c) => !has_nul(path@) && c@ == c_string_of(path@),
            Err(e) => has_nul(path@) && e.raw() == EINVAL,
        },
{
    let mut out: Vec<u8> = Vec::with_capacity(path.len());
    let mut i: usize = 0;
    while i < path.len()
        invariant
            i <= path.len(),
            out@ == path@.subrange(0, i as int),
            forall|j: int| 0 <= j < i ==> path@[j] != 0,
        decreases path.len() - i,
    {
        let b = path[i];
        if b == 0 {
            return Err(Error::from_raw_os_error(EINVAL));
        }
        out.push(b);
        i = i + 1;
    }
    out.push(0u8);
    assert(path@.subrange(0, path@.len() as int) =~= path@);
    Ok(out)
}

/// A C string made by `into_c_string` gives back the path: drop its final
/// NUL and what remains is the path, with no NUL inside.
pub proof fn lemma_c_string_round_trip(path: Seq<u8>)
    requires
        !has_nul(path),
    ensures
        c_string_of(path).drop_last() == path,
        c_string_of(path).last() == 0,
        forall|i: int| 0 <= i < c_string_of(path).len() - 1 ==> c_string_of(path)[i] != 0,
{
    assert(c_string_of(path).drop_last() =~= path);
}

} // verus!
