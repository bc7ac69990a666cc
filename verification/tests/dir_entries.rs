use rustix::fs::dir::{end_of_stream, read_dirent, read_outcome, RawDirent, DIRENT_NAME_LEN};
use rustix::fs::types::{
    FileType, DT_BLK, DT_CHR, DT_DIR, DT_FIFO, DT_LNK, DT_REG, DT_SOCK, DT_UNKNOWN,
};
use rustix::io::Error;

fn raw(name: &[u8], d_type: u8, ino: u64) -> RawDirent {
    RawDirent { d_ino: ino, d_off: 17, d_reclen: 32, d_type, d_name: name.to_vec() }
}

#[test]
fn dirent_type_constants_match_libc() {
    assert_eq!(DT_UNKNOWN, libc::DT_UNKNOWN);
    assert_eq!(DT_FIFO, libc::DT_FIFO);
    assert_eq!(DT_CHR, libc::DT_CHR);
    assert_eq!(DT_DIR, libc::DT_DIR);
    assert_eq!(DT_BLK, libc::DT_BLK);
    assert_eq!(DT_REG, libc::DT_REG);
    assert_eq!(DT_LNK, libc::DT_LNK);
    assert_eq!(DT_SOCK, libc::DT_SOCK);
}

#[test]
fn file_types_decode() {
    assert_eq!(FileType::from_dirent_d_type(libc::DT_REG), FileType::RegularFile);
    assert_eq!(FileType::from_dirent_d_type(libc::DT_DIR), FileType::Directory);
    assert_eq!(FileType::from_dirent_d_type(libc::DT_LNK), FileType::Symlink);
    assert_eq!(FileType::from_dirent_d_type(libc::DT_SOCK), FileType::Socket);
    assert_eq!(FileType::from_dirent_d_type(libc::DT_FIFO), FileType::Fifo);
    assert_eq!(FileType::from_dirent_d_type(libc::DT_CHR), FileType::CharacterDevice);
    assert_eq!(FileType::from_dirent_d_type(libc::DT_BLK), FileType::BlockDevice);
    assert_eq!(FileType::from_dirent_d_type(libc::DT_UNKNOWN), FileType::Unknown);
    assert_eq!(FileType::from_dirent_d_type(3), FileType::Unknown);
    assert_eq!(FileType::from_dirent_d_type(255), FileType::Unknown);
}

#[test]
fn entry_keeps_name_type_and_inode() {
    let entry = read_dirent(&raw(b"hello.txt\0", libc::DT_REG, 4242));
    assert_eq!(entry.file_name(), b"hello.txt");
    assert_eq!(entry.file_type(), FileType::RegularFile);
    assert_eq!(entry.ino(), 4242);
}

#[test]
fn name_stops_at_first_nul() {
    let entry = read_dirent(&raw(b"abc\0def\0ghi", libc::DT_DIR, 1));
    assert_eq!(entry.file_name(), b"abc");
    assert_eq!(entry.file_type(), FileType::Directory);
}

#[test]
fn empty_name() {
    let entry = read_dirent(&raw(b"\0", DT_UNKNOWN, 0));
    assert_eq!(entry.file_name(), b"");
    assert_eq!(entry.file_type(), FileType::Unknown);
}

#[test]
fn longest_name_fits() {
    let mut name = vec![b'n'; DIRENT_NAME_LEN - 1];
    name.push(0);
    let entry = read_dirent(&raw(&name, libc::DT_LNK, 9));
    assert_eq!(entry.file_name(), &name[..DIRENT_NAME_LEN - 1]);
    assert_eq!(entry.file_type(), FileType::Symlink);
}

#[test]
fn read_outcome_copies_an_entry() {
    match read_outcome(Some(raw(b"sub\0", libc::DT_DIR, 77))) {
        Some(Ok(entry)) => {
            assert_eq!(entry.file_name(), b"sub");
            assert_eq!(entry.file_type(), FileType::Directory);
            assert_eq!(entry.ino(), 77);
        }
        _ => panic!("expected an entry"),
    }
}

#[test]
fn end_of_stream_with_zero_errno() {
    assert!(end_of_stream(0).is_none());
}

#[test]
fn end_of_stream_with_errno_is_error() {
    match end_of_stream(libc::EBADF) {
        Some(Err(e)) => assert_eq!(e, Error::from_raw_os_error(libc::EBADF)),
        _ => panic!("expected an error"),
    }
}

#[test]
fn read_outcome_without_entry_reads_errno() {
    errno::set_errno(errno::Errno(0));
    assert!(read_outcome(None).is_none());
    errno::set_errno(errno::Errno(libc::EIO));
    match read_outcome(None) {
        Some(Err(e)) => assert_eq!(e.raw_os_error(), libc::EIO),
        _ => panic!("expected an error"),
    }
}
