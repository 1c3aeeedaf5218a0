use vstd::prelude::*;

use crate::error::EntryError;

verus! {

/// The type of a filesystem object, as the walker reports it.
#[derive(Clone, Copy, Debug, PartialEq, Eq, Structural)]
pub enum FileKind {
    File,
    Dir,
    SymLink,
    Fifo,
    Socket,
    Other,
}

/// One filesystem object met during the walk: its path and type, the answer
/// of the execute-permission probe on its path, and each attribute that the
/// filters read, each as it was read or as the failure to read it.
#[derive(Debug)]
pub struct Entry {
    pub path: String,
    pub kind: FileKind,
    pub executable: bool,
    pub uid: Result<u32, EntryError>,
    pub gid: Result<u32, EntryError>,
    pub mode: Result<u32, EntryError>,
    pub size: Result<u64, EntryError>,
    pub atime: Result<u64, EntryError>,
    pub ctime: Result<u64, EntryError>,
    pub created_time: Result<u64, EntryError>,
    pub mtime: Result<u64, EntryError>,
}

} // verus!
