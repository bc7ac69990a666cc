//! Directory entries: copying what `readdir` hands out, and deciding what a
//! read of a directory stream returns.

use crate::fs::at::zeros;
use crate::fs::types::{file_type_of, FileType};
use crate::io::{current_errno, Error};
use vstd::prelude::*;
use vstd::slice::slice_subrange;

verus! {

/// The length of the `d_name` field of a `struct dirent`.
pub const DIRENT_NAME_LEN: usize = 256;

/// `i` is the position of the first NUL byte of `s`.
pub open spec fn is_first_nul(s: Seq<u8>, i: int) -> bool {
    &&& 0 <= i < s.len()
    &&& s[i] == 0
    &&& forall|j: int| 0 <= j < i ==> s[j] != 0
}

/// `s` holds a NUL byte among its first `n` bytes.
pub open spec fn nul_within(s: Seq<u8>, n: int) -> bool {
    exists|i: int| 0 <= i < n && i < s.len() && s[i] == 0
}

/// The length of the C string at the start of `s`: the position of its
/// first NUL byte.
pub open spec fn c_str_len(s: Seq<u8>) -> int {
    choose|i: int| is_first_nul(s, i)
}

/// The bytes of the C string at the start of `s`, without its NUL.
pub open spec fn c_str_bytes(s: Seq<u8>) -> Seq<u8> {
    s.take(c_str_len(s))
}

/// Every byte of `s` after its first NUL is zero.
pub open spec fn zero_after_nul(s: Seq<u8>) -> bool {
    forall|j: int| c_str_len(s) < j < s.len() ==> s[j] == 0
}

/// `s` is the name field of a copied entry: `DIRENT_NAME_LEN` bytes that
/// hold a NUL, with only zeros after the first one.
pub open spec fn is_dirent_name(s: Seq<u8>) -> bool {
    &&& s.len() == DIRENT_NAME_LEN
    &&& nul_within(s, DIRENT_NAME_LEN as int)
    &&& zero_after_nul(s)
}

/// The `d_name` field of a copied entry: the name up to and including its
/// first NUL, then zeros up to `DIRENT_NAME_LEN` bytes.
pub open spec fn copied_name(name: Seq<u8>) -> Seq<u8> {
    name.take(c_str_len(name) + 1) + zeros((DIRENT_NAME_LEN - c_str_len(name) - 1) as nat)
}

/// The first NUL of a sequence is unique.
pub proof fn lemma_first_nul_unique(s: Seq<u8>, i: int, j: int)
    requires
        is_first_nul(s, i),
        is_first_nul(s, j),
    ensures
        i == j,
{
}

/// A sequence with a NUL at `k` has a first NUL, no later than `k`.
pub proof fn lemma_first_nul_exists(s: Seq<u8>, k: int)
    requires
        0 <= k < s.len(),
        s[k] == 0,
    ensures
        is_first_nul(s, c_str_len(s)),
        c_str_len(s) <= k,
    decreases k,
{
    if forall|j: int| 0 <= j < k ==> s[j] != 0 {
        assert(is_first_nul(s, k));
        lemma_first_nul_unique(s, k, c_str_len(s));
    } else {
        let j = choose|j: int| 0 <= j < k && s[j] == 0;
        lemma_first_nul_exists(s, j);
    }
}

/// What a directory entry holds.
pub struct DirentView {
    pub ino: u64,
    pub off: i64,
    pub reclen: u16,
    pub d_type: u8,
    pub name: Seq<u8>,
}

/// The fields of a `struct dirent` as `readdir` hands it out. `d_name`
/// holds the name's bytes through its NUL at least; the bytes after the NUL
/// need not be there.
#[derive(Debug)]
pub struct RawDirent {
    pub d_ino: u64,
    pub d_off: i64,
    pub d_reclen: u16,
    pub d_type: u8,
    pub d_name: Vec<u8>,
}

impl View for RawDirent {
    type V = DirentView;

    open spec fn view(&self) -> DirentView {
        DirentView {
            ino: self.d_ino,
            off: self.d_off,
            reclen: self.d_reclen,
            d_type: self.d_type,
            name: self.d_name@,
        }
    }
}

/// The entry that `read_dirent` makes of `raw`: the same fields, with the
/// name copied through its first NUL and padded with zeros.
pub open spec fn read_dirent_spec(raw: DirentView) -> DirentView {
    DirentView { name: copied_name(raw.name), ..raw }
}

/// A directory entry, copied out of the stream so that it outlives the next
/// read.
#[derive(Debug)]
pub struct DirEntry {
    dirent: RawDirent,
}

impl View for DirEntry {
    type V = DirentView;

    closed spec fn view(&self) -> DirentView {
        self.dirent@
    }
}

impl DirEntry {
    /// The name field is `DIRENT_NAME_LEN` bytes long, holds a NUL, and
    /// holds only zeros after its first NUL.
    #[verifier::type_invariant]
    spec fn inv(self) -> bool {
        is_dirent_name(self.dirent.d_name@)
    }

    /// The file name of this entry: the bytes of its name before the NUL.
    /// The name field it is read from is, in every entry, a well-formed
    /// name: the NUL lies within the field and only zeros follow it.
    pub fn file_name(&self) -> (name: &[u8])
        ensures
            name@ == c_str_bytes(self@.name),
            is_dirent_name(self@.name),
            name@.len() < DIRENT_NAME_LEN,
    {
        proof {
            use_type_invariant(self);
        }
        let len = first_nul(self.dirent.d_name.as_slice(), DIRENT_NAME_LEN);
        slice_subrange(self.dirent.d_name.as_slice(), 0, len)
    }

    /// The type of the file this entry names.
    pub fn file_type(&self) -> (t: FileType)
        ensures
            t == file_type_of(self@.d_type),
    {
        FileType::from_dirent_d_type(self.dirent.d_type)
    }

    /// The inode number of this entry.
    pub fn ino(&self) -> (ino: u64)
        ensures
            ino == self@.ino,
    {
        self.dirent.d_ino
    }
}

/// Finds the first NUL of `s`, which holds one among its first `limit`
/// bytes.
fn first_nul(s: &[u8], limit: usize) -> (i: usize)
    requires
        nul_within(s@, limit as int),
    ensures
        is_first_nul(s@, i as int),
        i < limit,
        i == c_str_len(s@),
{
    let mut i: usize = 0;
    while s[i] != 0
        invariant
            nul_within(s@, limit as int),
            i < limit,
            i < s@.len(),
            forall|j: int| 0 <= j < i ==> s@[j] != 0,
        decreases limit - i,
    {
        i = i + 1;
    }
    proof {
        lemma_first_nul_unique(s@, i as int, c_str_len(s@));
    }
    i
}

/// Copies a directory entry out of what `readdir` handed out.
///
/// The name is read only up to and including its first NUL, which must lie
/// within `DIRENT_NAME_LEN` bytes: the bytes after it need not exist. The
/// rest of the copy's name is zeros.
pub fn read_dirent(input: &RawDirent) -> (entry: DirEntry)
    requires
        nul_within(input.d_name@, DIRENT_NAME_LEN as int),
    ensures
        entry@ == read_dirent_spec(input@),
        entry@.ino == input.d_ino,
        entry@.off == input.d_off,
        entry@.reclen == input.d_reclen,
        entry@.d_type == input.d_type,
        c_str_bytes(entry@.name) == c_str_bytes(input.d_name@),
        is_dirent_name(entry@.name),
{
    let name_len = first_nul(input.d_name.as_slice(), DIRENT_NAME_LEN) + 1;
    let ghost src = input.d_name@;
    let mut d_name: Vec<u8> = Vec::with_capacity(DIRENT_NAME_LEN);
    let mut i: usize = 0;
    while i < DIRENT_NAME_LEN
        invariant
            name_len == c_str_len(src) + 1,
            name_len <= DIRENT_NAME_LEN,
            name_len <= src.len(),
            src == input.d_name@,
            i <= DIRENT_NAME_LEN,
            d_name@.len() == i,
            forall|j: int| 0 <= j < i ==> #[trigger] d_name@[j] == (if j < name_len { src[j] } else { 0u8 }),
        decreases DIRENT_NAME_LEN - i,
    {
        if i < name_len {
            d_name.push(input.d_name[i]);
        } else {
            d_name.push(0u8);
        }
        i = i + 1;
    }
    assert(d_name@ =~= copied_name(src));
    proof {
        lemma_copied_name_keeps_file_name(src);
        lemma_read_dirent_keeps_entry(input@);
    }
    let entry = DirEntry {
        dirent: RawDirent {
            d_ino: input.d_ino,
            d_off: input.d_off,
            d_reclen: input.d_reclen,
            d_type: input.d_type,
            d_name,
        },
    };
    entry
}

/// The name of a copied entry reads back as the name that `readdir` handed
/// out: copying keeps the bytes before the first NUL and the NUL itself,
/// and leaves only zeros after that NUL.
pub proof fn lemma_copied_name_keeps_file_name(name: Seq<u8>)
    requires
        nul_within(name, DIRENT_NAME_LEN as int),
    ensures
        copied_name(name).len() == DIRENT_NAME_LEN,
        c_str_len(copied_name(name)) == c_str_len(name),
        c_str_bytes(copied_name(name)) == c_str_bytes(name),
        is_dirent_name(copied_name(name)),
{
    let k = choose|i: int| 0 <= i < DIRENT_NAME_LEN && i < name.len() && name[i] == 0;
    lemma_first_nul_exists(name, k);
    let n = c_str_len(name);
    let c = copied_name(name);
    assert(c[n] == 0);
    assert(is_first_nul(c, n));
    lemma_first_nul_unique(c, n, c_str_len(c));
    assert(c.take(n) =~= name.take(n));
    assert(nul_within(c, DIRENT_NAME_LEN as int));
}

/// Copying an entry keeps everything `readdir` said of it: the inode
/// number, offset, record length and type byte are unchanged, and the file
/// name, the bytes before the first NUL, is the same byte for byte.
pub proof fn lemma_read_dirent_keeps_entry(raw: DirentView)
    requires
        nul_within(raw.name, DIRENT_NAME_LEN as int),
    ensures
        read_dirent_spec(raw).ino == raw.ino,
        read_dirent_spec(raw).off == raw.off,
        read_dirent_spec(raw).reclen == raw.reclen,
        read_dirent_spec(raw).d_type == raw.d_type,
        c_str_bytes(read_dirent_spec(raw).name) == c_str_bytes(raw.name),
        c_str_len(read_dirent_spec(raw).name) == c_str_len(raw.name),
        forall|j: int|
            0 <= j < c_str_len(raw.name) ==> #[trigger] read_dirent_spec(raw).name[j] == raw.name[j]
                && raw.name[j] != 0,
        is_dirent_name(read_dirent_spec(raw).name),
{
    lemma_copied_name_keeps_file_name(raw.name);
    let k = choose|i: int| 0 <= i < DIRENT_NAME_LEN && i < raw.name.len() && raw.name[i] == 0;
    lemma_first_nul_exists(raw.name, k);
    assert forall|j: int| 0 <= j < c_str_len(raw.name) implies #[trigger] read_dirent_spec(raw).name[j]
        == raw.name[j] && raw.name[j] != 0 by {
        assert(c_str_bytes(read_dirent_spec(raw).name)[j] == c_str_bytes(raw.name)[j]);
    }
}

/// What a read of a directory stream returns once `readdir` has handed out
/// no entry, given the `errno` value it left: zero means the end of the
/// stream; anything else is the error.
pub fn end_of_stream(errno: i32) -> (r: Option<Result<DirEntry, Error>>)
    ensures
        errno == 0 ==> r is None,
        errno != 0 ==> (r matches Some(Err(e)) && e.raw() == errno),
{
    if errno == 0 {
        None
    } else {
        Some(Err(Error::from_raw_os_error(errno)))
    }
}

/// What a read of a directory stream returns, given what `readdir` handed
/// out, for a stream on which `errno` was cleared just before the call.
///
/// An entry is copied out. No entry means the end of the stream, or an
/// error, as the thread's `errno` says (see `end_of_stream`).
pub fn read_outcome(entry: Option<RawDirent>) -> (r: Option<Result<DirEntry, Error>>)
    requires
        entry matches Some(raw) ==> nul_within(raw.d_name@, DIRENT_NAME_LEN as int),
    ensures
        entry matches Some(raw) ==> (r matches Some(Ok(e)) && e@ == read_dirent_spec(raw@)
            && e@.ino == raw.d_ino && e@.d_type == raw.d_type && c_str_bytes(e@.name)
            == c_str_bytes(raw.d_name@)),
        entry is None ==> (r is None || (r matches Some(Err(e)) && e.raw() != 0)),
{
    match entry {
        Some(raw) => Some(Ok(read_dirent(&raw))),
        None => end_of_stream(current_errno()),
    }
}

} // verus!
