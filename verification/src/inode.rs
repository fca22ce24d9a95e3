//! Per-object metadata records: size, block count, modification time, kind,
//! permissions, and the direct/indirect block-pointer tree. All block
//! references are table indices; the value 0 is the "unallocated" sentinel.

use vstd::prelude::*;

use crate::bitmap::BitMapError;
use crate::metadata::secs_from_unix_epoch;

verus! {

/// Inode id of the root directory.
pub const ROOT_INO: u32 = 1;

/// Permission bits of the root directory (octal 755).
pub const ROOT_INO_PERM: u16 = 0o755;

/// Number of direct block pointers held in the inode itself.
pub const NUM_INO_DIRECT_PTR: usize = 12;

/// The sentinel pointer value: no block allocated behind this slot.
pub const INVALID_PTR: u32 = 0;

/// What an inode stands for; stored with the inode and reported to the
/// host's filesystem gateway.
#[derive(Clone, Copy, Debug, PartialEq, Eq, Structural)]
pub enum FileKind {
    NamedPipe,
    CharDevice,
    BlockDevice,
    Directory,
    RegularFile,
    Symlink,
    Socket,
}

/// Per-object record. `ino_id` is stable for the inode's lifetime; `blocks`
/// counts allocated data blocks; the pointer fields name data blocks directly
/// or through one to three levels of pointer-table blocks.
#[derive(Clone, Copy, Debug, PartialEq)]
pub struct Inode {
    pub ino_id: u32,
    pub size: u64,
    pub blocks: u32,
    pub mtime_secs: i64,
    pub kind: FileKind,
    pub perm: u16,
    pub direct_blks: [u32; NUM_INO_DIRECT_PTR],
    pub indirect_blk: u32,
    pub dbl_indirect_blk: u32,
    pub tri_indirect_blk: u32,
}

#[derive(Debug, PartialEq, Eq, Structural)]
pub enum InodeError {
    NoFreeInodesOnAlloc,
    InodeNotFound,
    InvalidInoId,
    BitmapError(BitMapError),
}

impl Inode {
    /// A freshly created inode owns no blocks: zero size and block count,
    /// every pointer set to the sentinel.
    pub open spec fn is_fresh(self, ino_id: u32, kind: FileKind, perm: u16) -> bool {
        &&& self.ino_id == ino_id
        &&& self.size == 0
        &&& self.blocks == 0
        &&& self.kind == kind
        &&& self.perm == perm
        &&& forall|i: int| 0 <= i < NUM_INO_DIRECT_PTR ==> self.direct_blks[i] == INVALID_PTR
        &&& self.indirect_blk == INVALID_PTR
        &&& self.dbl_indirect_blk == INVALID_PTR
        &&& self.tri_indirect_blk == INVALID_PTR
    }

    /// A new inode of the given id, kind and permissions, with its
    /// modification time stamped from the current clock.
    pub fn new(ino_id: u32, kind: FileKind, perm: u16) -> (r: Self)
        ensures
            r.is_fresh(ino_id, kind, perm),
    {
        Inode {
            ino_id,
            size: 0,
            blocks: 0,
            mtime_secs: secs_from_unix_epoch(),
            kind,
            perm,
            direct_blks: [
                INVALID_PTR,
                INVALID_PTR,
                INVALID_PTR,
                INVALID_PTR,
                INVALID_PTR,
                INVALID_PTR,
                INVALID_PTR,
                INVALID_PTR,
                INVALID_PTR,
                INVALID_PTR,
                INVALID_PTR,
                INVALID_PTR,
            ],
            indirect_blk: INVALID_PTR,
            dbl_indirect_blk: INVALID_PTR,
            tri_indirect_blk: INVALID_PTR,
        }
    }

    /// Refreshes the modification time from the current clock; every other
    /// field keeps its value.
    pub fn update_mtime(&mut self)
        ensures
            final(self).ino_id == old(self).ino_id,
            final(self).size == old(self).size,
            final(self).blocks == old(self).blocks,
            final(self).kind == old(self).kind,
            final(self).perm == old(self).perm,
            final(self).direct_blks == old(self).direct_blks,
            final(self).indirect_blk == old(self).indirect_blk,
            final(self).dbl_indirect_blk == old(self).dbl_indirect_blk,
            final(self).tri_indirect_blk == old(self).tri_indirect_blk,
    {
        self.mtime_secs = secs_from_unix_epoch();
    }
}

/// The root directory's inode: id [`ROOT_INO`], directory kind, permission
/// bits [`ROOT_INO_PERM`], owning no blocks yet.
pub fn create_root_ino() -> (r: Inode)
    ensures
        r.is_fresh(ROOT_INO, FileKind::Directory, ROOT_INO_PERM),
{
    Inode::new(ROOT_INO, FileKind::Directory, ROOT_INO_PERM)
}

} // verus!
