//! Layout constants and the metadata block (superblock): aggregate counts of
//! total and free inodes and data blocks, kept consistent with the bitmaps by
//! the filesystem state.

use vstd::prelude::*;

verus! {

/// Total capacity of the backing storage for the filesystem, including the
/// space used for the metadata block, the free-object bitmaps, and file data.
pub const FS_SIZE_BYTES: u64 = 1073741824;

/// Size of one storage block in bytes.
pub const BLK_SIZE_BYTES: u64 = 4096;

/// Block 0 holds the metadata block, block 1 the inode bitmap, block 2 the
/// free-block bitmap; none of the three may ever be handed out.
pub const RESERVED_DATA_BLKS: u32 = 3;

/// Number of data blocks: `FS_SIZE_BYTES / BLK_SIZE_BYTES`.
pub const NUM_DATA_BLKS: u32 = 262144;

/// Capacity of the inode table.
pub const MAX_NUM_INODES: u32 = 10;

/// Inode 0 is the null (invalid-pointer) sentinel, inode 1 the root.
pub const RESERVED_INODES: u32 = 2;

/// Relies on std::time::SystemTime::now (read through duration_since and
/// as_secs): seconds since the Unix epoch by the machine's clock, or 0 when
/// the clock reads earlier than the epoch. The result depends on the clock,
/// so nothing is stated of it.
#[verifier::external_body]
pub fn secs_from_unix_epoch() -> i64 {
    std::time::SystemTime::now()
        .duration_since(std::time::UNIX_EPOCH)
        .map(|d| d.as_secs() as i64)
        .unwrap_or(0)
}

/// The metadata block. `ino_count` and `blk_count` are capacities fixed at
/// creation; the free counts move only in lock-step with a bitmap bit flip,
/// which the filesystem state coordinates.
#[derive(Debug)]
pub struct FSMetadata {
    pub ino_count: u32,
    pub blk_count: u32,
    pub free_blk_count: u32,
    pub free_ino_count: u32,
    pub super_blk_no: u32,
    pub mtime: u64,
    pub wtime: u64,
}

#[derive(Debug, PartialEq, Eq, Structural)]
pub enum FSMetadataError {
    InoCountExceedingMax,
    InoCountBelowReserved,
    BlkCountExceedingMax,
    BlkCountBelowReserved,
}

impl Default for FSMetadata {
    /// A freshly initialized metadata block: full capacities, with the
    /// reserved ranges already accounted as in use.
    fn default() -> (r: Self)
        ensures
            r.ino_count == MAX_NUM_INODES,
            r.blk_count == NUM_DATA_BLKS,
            r.free_blk_count == NUM_DATA_BLKS - RESERVED_DATA_BLKS,
            r.free_ino_count == MAX_NUM_INODES - RESERVED_INODES,
            r.super_blk_no == 0,
            r.mtime == 0,
            r.wtime == 0,
    {
        FSMetadata {
            ino_count: MAX_NUM_INODES,
            blk_count: NUM_DATA_BLKS,
            free_blk_count: NUM_DATA_BLKS - RESERVED_DATA_BLKS,
            free_ino_count: MAX_NUM_INODES - RESERVED_INODES,
            super_blk_no: 0,
            mtime: 0,
            wtime: 0,
        }
    }
}

impl FSMetadata {
    /// Fields other than `free_ino_count`, `free_blk_count` and `mtime` never
    /// change through the counter operations.
    pub open spec fn fixed_fields_unchanged(self, other: Self) -> bool {
        &&& self.ino_count == other.ino_count
        &&& self.blk_count == other.blk_count
        &&& self.super_blk_no == other.super_blk_no
        &&& self.wtime == other.wtime
    }

    /// Takes one free inode off the count, refusing to go below zero; on
    /// success the modification time is stamped with the current clock.
    pub fn dec_free_ino_count(&mut self) -> (r: Result<(), FSMetadataError>)
        ensures
            old(self).free_ino_count == 0 ==> {
                &&& r matches Err(FSMetadataError::InoCountBelowReserved)
                &&& *final(self) == *old(self)
            },
            old(self).free_ino_count > 0 ==> {
                &&& r matches Ok(())
                &&& final(self).free_ino_count == old(self).free_ino_count - 1
                &&& final(self).free_blk_count == old(self).free_blk_count
                &&& final(self).fixed_fields_unchanged(*old(self))
            },
    {
        if self.free_ino_count == 0 {
            Err(FSMetadataError::InoCountBelowReserved)
        } else {
            self.free_ino_count = self.free_ino_count - 1;
            self.stamp_mtime();
            Ok(())
        }
    }

    /// Puts one free inode back on the count, refusing to exceed the
    /// allocatable capacity `MAX_NUM_INODES - RESERVED_INODES`.
    pub fn inc_free_ino_count(&mut self) -> (r: Result<(), FSMetadataError>)
        ensures
            old(self).free_ino_count >= MAX_NUM_INODES - RESERVED_INODES ==> {
                &&& r matches Err(FSMetadataError::InoCountExceedingMax)
                &&& *final(self) == *old(self)
            },
            old(self).free_ino_count < MAX_NUM_INODES - RESERVED_INODES ==> {
                &&& r matches Ok(())
                &&& final(self).free_ino_count == old(self).free_ino_count + 1
                &&& final(self).free_blk_count == old(self).free_blk_count
                &&& final(self).fixed_fields_unchanged(*old(self))
            },
    {
        if self.free_ino_count >= MAX_NUM_INODES - RESERVED_INODES {
            Err(FSMetadataError::InoCountExceedingMax)
        } else {
            self.free_ino_count = self.free_ino_count + 1;
            self.stamp_mtime();
            Ok(())
        }
    }

    /// Takes one free block off the count, refusing to go below zero.
    pub fn dec_free_blk_count(&mut self) -> (r: Result<(), FSMetadataError>)
        ensures
            old(self).free_blk_count == 0 ==> {
                &&& r matches Err(FSMetadataError::BlkCountBelowReserved)
                &&& *final(self) == *old(self)
            },
            old(self).free_blk_count > 0 ==> {
                &&& r matches Ok(())
                &&& final(self).free_blk_count == old(self).free_blk_count - 1
                &&& final(self).free_ino_count == old(self).free_ino_count
                &&& final(self).fixed_fields_unchanged(*old(self))
            },
    {
        if self.free_blk_count > 0 {
            self.free_blk_count = self.free_blk_count - 1;
            self.stamp_mtime();
            Ok(())
        } else {
            Err(FSMetadataError::BlkCountBelowReserved)
        }
    }

    /// Puts one free block back on the count, refusing to exceed the
    /// allocatable capacity `NUM_DATA_BLKS - RESERVED_DATA_BLKS`.
    pub fn inc_free_blk_count(&mut self) -> (r: Result<(), FSMetadataError>)
        ensures
            old(self).free_blk_count >= NUM_DATA_BLKS - RESERVED_DATA_BLKS ==> {
                &&& r matches Err(FSMetadataError::BlkCountExceedingMax)
                &&& *final(self) == *old(self)
            },
            old(self).free_blk_count < NUM_DATA_BLKS - RESERVED_DATA_BLKS ==> {
                &&& r matches Ok(())
                &&& final(self).free_blk_count == old(self).free_blk_count + 1
                &&& final(self).free_ino_count == old(self).free_ino_count
                &&& final(self).fixed_fields_unchanged(*old(self))
            },
    {
        if self.free_blk_count < NUM_DATA_BLKS - RESERVED_DATA_BLKS {
            self.free_blk_count = self.free_blk_count + 1;
            self.stamp_mtime();
            Ok(())
        } else {
            Err(FSMetadataError::BlkCountExceedingMax)
        }
    }

    /// Stamps the modification time with the current clock, clamping a
    /// pre-epoch reading to zero.
    fn stamp_mtime(&mut self)
        ensures
            final(self).free_ino_count == old(self).free_ino_count,
            final(self).free_blk_count == old(self).free_blk_count,
            final(self).fixed_fields_unchanged(*old(self)),
    {
        let now = secs_from_unix_epoch();
        self.mtime = if now >= 0 {
            now as u64
        } else {
            0
        };
    }
}

} // verus!
