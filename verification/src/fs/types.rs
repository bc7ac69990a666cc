//! The kinds of file that a directory entry can name.

use vstd::prelude::*;

verus! {

/// `DT_UNKNOWN`: the filesystem does not report the entry's type.
pub const DT_UNKNOWN: u8 = 0;
/// `DT_FIFO`: a named pipe.
pub const DT_FIFO: u8 = 1;
/// `DT_CHR`: a character device.
pub const DT_CHR: u8 = 2;
/// `DT_DIR`: a directory.
pub const DT_DIR: u8 = 4;
/// `DT_BLK`: a block device.
pub const DT_BLK: u8 = 6;
/// `DT_REG`: a regular file.
pub const DT_REG: u8 = 8;
/// `DT_LNK`: a symbolic link.
pub const DT_LNK: u8 = 10;
/// `DT_SOCK`: a Unix domain socket.
pub const DT_SOCK: u8 = 12;

/// The type of a file, as a directory entry reports it.
#[derive(Debug, Clone, Copy, PartialEq, Eq, Hash, Structural)]
pub enum FileType {
    RegularFile,
    Directory,
    Symlink,
    Fifo,
    Socket,
    CharacterDevice,
    BlockDevice,
    Unknown,
}

/// The file type that the `d_type` byte of a directory entry names; a byte
/// that names none of them, `DT_UNKNOWN` among them, is `Unknown`.
pub open spec fn file_type_of(d_type: u8) -> FileType {
    if d_type == DT_REG {
        FileType::RegularFile
    } else if d_type == DT_DIR {
        FileType::Directory
    } else if d_type == DT_LNK {
        FileType::Symlink
    } else if d_type == DT_SOCK {
        FileType::Socket
    } else if d_type == DT_FIFO {
        FileType::Fifo
    } else if d_type == DT_CHR {
        FileType::CharacterDevice
    } else if d_type == DT_BLK {
        FileType::BlockDevice
    } else {
        FileType::Unknown
    }
}

impl FileType {
    /// Decodes the `d_type` byte of a directory entry.
    pub fn from_dirent_d_type(d_type: u8) -> (t: FileType)
        ensures
            t == file_type_of(d_type),
    {
        if d_type == DT_REG {
            FileType::RegularFile
        } else if d_type == DT_DIR {
            FileType::Directory
        } else if d_type == DT_LNK {
            FileType::Symlink
        } else if d_type == DT_SOCK {
            FileType::Socket
        } else if d_type == DT_FIFO {
            FileType::Fifo
        } else if d_type == DT_CHR {
            FileType::CharacterDevice
        } else if d_type == DT_BLK {
            FileType::BlockDevice
        } else {
            FileType::Unknown
        }
    }
}

} // verus!
