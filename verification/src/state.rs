//! The filesystem state: sole owner of the metadata block, the two bitmaps
//! and the inode and block tables, and the sole mutator of all of them. Each
//! allocate/free operation is one transaction over a bitmap bit, the matching
//! counter, and the table slot; the well-formedness invariant says the three
//! never desynchronize.

use vstd::prelude::*;

use crate::bitmap::{
    count_clear, count_set, lemma_count_clear_all_clear,
    lemma_count_clear_all_set, lemma_count_clear_at_least_one, lemma_count_clear_below_cap,
    lemma_count_clear_update, lemma_count_set_clear_total, BitMapError, FreeBlockBitmap,
    FreeInodeBitmap,
};
use crate::inode::{FileKind, Inode, InodeError, ROOT_INO};
use crate::metadata::{
    FSMetadata, BLK_SIZE_BYTES, MAX_NUM_INODES, NUM_DATA_BLKS, RESERVED_DATA_BLKS, RESERVED_INODES,
};

verus! {

/// A fixed-size byte buffer: raw file data, a pointer table, or a
/// directory-entry table, as its owner decides — the block itself carries no
/// type tag.
#[derive(Clone, Debug)]
pub struct Block {
    pub data: Vec<u8>,
}

impl Block {
    /// Every block holds exactly one block's worth of bytes.
    pub open spec fn wf(&self) -> bool {
        self.data@.len() == BLK_SIZE_BYTES
    }
}

#[derive(Debug, PartialEq, Eq, Structural)]
pub enum FSStateError {
    InodeError(InodeError),
    BitMapError(BitMapError),
}

/// The in-memory filesystem: metadata block, inode bitmap and table, block
/// bitmap and table. All cross-references are plain indices into these
/// tables.
pub struct FSState {
    pub metadata: FSMetadata,
    pub inode_bitmap: FreeInodeBitmap,
    pub inodes: Vec<Option<Inode>>,
    pub blk_bitmap: FreeBlockBitmap,
    pub blks: Vec<Option<Block>>,
}

/// A vector of `n` empty slots.
fn none_slots<T>(n: usize) -> (r: Vec<Option<T>>)
    ensures
        r@.len() == n,
        forall|i: int| 0 <= i < n ==> r@[i] is None,
{
    let mut v: Vec<Option<T>> = Vec::new();
    while v.len() < n
        invariant
            v@.len() <= n,
            forall|i: int| 0 <= i < v@.len() ==> v@[i] is None,
        decreases n - v@.len(),
    {
        v.push(None);
    }
    v
}

/// A block of all-zero bytes, the content of a freshly allocated block.
fn zero_block() -> (r: Block)
    ensures
        r.wf(),
        forall|i: int| 0 <= i < BLK_SIZE_BYTES ==> r.data@[i] == 0u8,
{
    let mut data: Vec<u8> = Vec::new();
    while data.len() < BLK_SIZE_BYTES as usize
        invariant
            data@.len() <= BLK_SIZE_BYTES,
            forall|i: int| 0 <= i < data@.len() ==> data@[i] == 0u8,
        decreases BLK_SIZE_BYTES - data@.len(),
    {
        data.push(0u8);
    }
    Block { data }
}

impl FSState {
    /// The inode bitmap's bits.
    pub open spec fn ino_bits(self) -> Seq<bool> {
        self.inode_bitmap.map@
    }

    /// The block bitmap's bits.
    pub open spec fn blk_bits(self) -> Seq<bool> {
        self.blk_bitmap.map@
    }

    /// The inode side never desynchronizes: the bitmap spans exactly the
    /// inode table, and the free count equals the number of clear bits in
    /// the allocatable range.
    pub open spec fn ino_side_wf(self) -> bool {
        &&& self.inode_bitmap.map.wf()
        &&& self.inode_bitmap.map.spec_reserved() == RESERVED_INODES as usize
        &&& self.inode_bitmap.map.spec_max() == MAX_NUM_INODES as usize
        &&& self.inodes@.len() == MAX_NUM_INODES
        &&& self.metadata.ino_count == MAX_NUM_INODES
        &&& self.metadata.free_ino_count == count_clear(
            self.ino_bits(),
            RESERVED_INODES as int,
            MAX_NUM_INODES as int,
        )
    }

    /// The block side never desynchronizes: every block present in the table
    /// is full-size and marked in use — the table is only ever filled through
    /// allocation, so a clear bit never hides a live block.
    pub open spec fn blk_side_wf(self) -> bool {
        &&& self.blk_bitmap.map.wf()
        &&& self.blk_bitmap.map.spec_reserved() == RESERVED_DATA_BLKS as usize
        &&& self.blk_bitmap.map.spec_max() == NUM_DATA_BLKS as usize
        &&& self.blks@.len() == NUM_DATA_BLKS
        &&& self.metadata.blk_count == NUM_DATA_BLKS
        &&& self.metadata.free_blk_count == count_clear(
            self.blk_bits(),
            RESERVED_DATA_BLKS as int,
            NUM_DATA_BLKS as int,
        )
        &&& forall|i: int|
            0 <= i < self.blks@.len() ==> (#[trigger] self.blks@[i] matches Some(b) ==> b.wf()
                && self.blk_bits()[i])
    }

    pub open spec fn wf(self) -> bool {
        self.ino_side_wf() && self.blk_side_wf()
    }

    /// The inode side is exactly as it was.
    pub open spec fn ino_side_unchanged(pre: Self, post: Self) -> bool {
        &&& post.ino_bits() == pre.ino_bits()
        &&& post.inodes@ == pre.inodes@
        &&& post.metadata.free_ino_count == pre.metadata.free_ino_count
    }

    /// The block side is exactly as it was.
    pub open spec fn blk_side_unchanged(pre: Self, post: Self) -> bool {
        &&& post.blk_bits() == pre.blk_bits()
        &&& post.blks@ == pre.blks@
        &&& post.metadata.free_blk_count == pre.metadata.free_blk_count
    }

    /// Nothing observable moved: both sides and the whole metadata block are
    /// as they were.
    pub open spec fn unchanged(pre: Self, post: Self) -> bool {
        &&& Self::ino_side_unchanged(pre, post)
        &&& Self::blk_side_unchanged(pre, post)
        &&& post.metadata == pre.metadata
    }
}

impl Default for FSState {
    /// A brand-new filesystem: reserved ranges pre-marked in use, full free
    /// counts, and both tables entirely empty. The root inode is not yet
    /// created; the null inode never gets a table entry.
    fn default() -> (r: Self)
        ensures
            r.wf(),
            r.metadata.free_ino_count == MAX_NUM_INODES - RESERVED_INODES,
            r.metadata.free_blk_count == NUM_DATA_BLKS - RESERVED_DATA_BLKS,
            forall|i: int| 0 <= i < RESERVED_INODES ==> r.ino_bits()[i],
            forall|i: int| RESERVED_INODES <= i < MAX_NUM_INODES ==> !r.ino_bits()[i],
            forall|i: int| 0 <= i < RESERVED_DATA_BLKS ==> r.blk_bits()[i],
            forall|i: int| RESERVED_DATA_BLKS <= i < NUM_DATA_BLKS ==> !r.blk_bits()[i],
            forall|i: int| 0 <= i < MAX_NUM_INODES ==> r.inodes@[i] is None,
            forall|i: int| 0 <= i < NUM_DATA_BLKS ==> r.blks@[i] is None,
    {
        let metadata = FSMetadata::default();
        let inode_bitmap = FreeInodeBitmap::default();
        let inodes = none_slots(MAX_NUM_INODES as usize);
        let blk_bitmap = FreeBlockBitmap::default();
        let blks = none_slots(NUM_DATA_BLKS as usize);

        let r = FSState { metadata, inode_bitmap, inodes, blk_bitmap, blks };
        proof {
            lemma_count_clear_all_clear(
                r.ino_bits(),
                RESERVED_INODES as int,
                MAX_NUM_INODES as int,
            );
            lemma_count_clear_all_clear(
                r.blk_bits(),
                RESERVED_DATA_BLKS as int,
                NUM_DATA_BLKS as int,
            );
        }
        r
    }
}

impl FSState {
    /// Reassembles a filesystem from already-built parts, as loading a
    /// persisted state does; nothing is checked or changed on the way in.
    pub fn new(
        metadata: FSMetadata,
        inode_bitmap: FreeInodeBitmap,
        inodes: Vec<Option<Inode>>,
        blk_bitmap: FreeBlockBitmap,
        blks: Vec<Option<Block>>,
    ) -> (r: Self)
        ensures
            r.metadata == metadata,
            r.inode_bitmap.map@ == inode_bitmap.map@,
            r.inodes@ == inodes@,
            r.blk_bitmap.map@ == blk_bitmap.map@,
            r.blks@ == blks@,
    {
        FSState { metadata, inode_bitmap, inodes, blk_bitmap, blks }
    }

    /// Allocates the lowest free inode id as one transaction: the bitmap bit
    /// is set, the free-inode count drops by one, and the table slot is
    /// filled with a fresh inode of that id. With no free id, fails with
    /// `NoFreeInodesOnAlloc` and changes nothing — which can only happen
    /// when the free count already reads zero.
    pub fn alloc_inode(&mut self, kind: FileKind, perm: u16) -> (r: Result<u32, InodeError>)
        requires
            old(self).wf(),
        ensures
            final(self).wf(),
            r matches Ok(id) ==> {
                &&& RESERVED_INODES <= id < MAX_NUM_INODES
                &&& !old(self).ino_bits()[id as int]
                &&& forall|j: int| RESERVED_INODES <= j < id ==> old(self).ino_bits()[j]
                &&& final(self).ino_bits() == old(self).ino_bits().update(id as int, true)
                &&& final(self).metadata.free_ino_count == old(self).metadata.free_ino_count - 1
                &&& final(self).metadata.fixed_fields_unchanged(old(self).metadata)
                &&& final(self).inodes@.len() == old(self).inodes@.len()
                &&& (final(self).inodes@[id as int] matches Some(ino) && ino.is_fresh(
                    id,
                    kind,
                    perm,
                ))
                &&& forall|j: int|
                    0 <= j < old(self).inodes@.len() && j != id ==> final(self).inodes@[j] == old(
                        self,
                    ).inodes@[j]
                &&& FSState::blk_side_unchanged(*old(self), *final(self))
            },
            r matches Err(e) ==> {
                &&& e == InodeError::NoFreeInodesOnAlloc
                &&& forall|j: int|
                    RESERVED_INODES <= j < MAX_NUM_INODES ==> old(self).ino_bits()[j]
                &&& old(self).metadata.free_ino_count == 0
                &&& FSState::unchanged(*old(self), *final(self))
            },
    {
        let idx = match self.inode_bitmap.find_first_free() {
            Some(i) => i,
            None => {
                proof {
                    lemma_count_clear_all_set(
                        self.ino_bits(),
                        RESERVED_INODES as int,
                        MAX_NUM_INODES as int,
                    );
                }
                return Err(InodeError::NoFreeInodesOnAlloc);
            },
        };

        proof {
            lemma_count_clear_at_least_one(
                self.ino_bits(),
                RESERVED_INODES as int,
                MAX_NUM_INODES as int,
                idx as int,
            );
            lemma_count_clear_update(
                self.ino_bits(),
                RESERVED_INODES as int,
                MAX_NUM_INODES as int,
                idx as int,
                true,
            );
        }

        match self.inode_bitmap.set_alloc(idx) {
            Ok(_) => {},
            Err(_) => {
                return Err(InodeError::NoFreeInodesOnAlloc);
            },
        }

        match self.metadata.dec_free_ino_count() {
            Ok(_) => {},
            Err(_) => {
                return Err(InodeError::NoFreeInodesOnAlloc);
            },
        }

        self.inodes[idx] = Some(Inode::new(idx as u32, kind, perm));
        Ok(idx as u32)
    }

    /// Installs an inode read from elsewhere into the table slot its id
    /// names, provided that id is in the allocatable range and its bitmap
    /// bit is still clear; an id already marked in use or outside the range
    /// is refused and nothing changes. The bitmap and counters are not
    /// touched.
    pub fn read_ino_alloc(&mut self, read_ino: Inode) -> (r: Result<u32, InodeError>)
        requires
            old(self).wf(),
        ensures
            final(self).wf(),
            (read_ino.ino_id < RESERVED_INODES || read_ino.ino_id >= MAX_NUM_INODES) ==> {
                &&& r matches Err(InodeError::BitmapError(BitMapError::RestrictedEntry))
                &&& FSState::unchanged(*old(self), *final(self))
            },
            (RESERVED_INODES <= read_ino.ino_id < MAX_NUM_INODES && old(self).ino_bits()[read_ino.ino_id as int])
                ==> {
                &&& r matches Err(InodeError::BitmapError(BitMapError::AlreadyAlloced))
                &&& FSState::unchanged(*old(self), *final(self))
            },
            (RESERVED_INODES <= read_ino.ino_id < MAX_NUM_INODES && !old(self).ino_bits()[read_ino.ino_id as int])
                ==> {
                &&& r matches Ok(id) && id == read_ino.ino_id
                &&& final(self).inodes@ == old(self).inodes@.update(
                    read_ino.ino_id as int,
                    Some(read_ino),
                )
                &&& final(self).ino_bits() == old(self).ino_bits()
                &&& final(self).metadata == old(self).metadata
                &&& FSState::blk_side_unchanged(*old(self), *final(self))
            },
    {
        let idx = read_ino.ino_id as usize;
        let is_alloced = self.inode_bitmap.is_alloced(idx);
        match is_alloced {
            Ok(res) => {
                if res {
                    return Err(InodeError::BitmapError(BitMapError::AlreadyAlloced));
                }
                self.inodes[idx] = Some(read_ino);
                Ok(idx as u32)
            },
            Err(_) => Err(InodeError::BitmapError(BitMapError::RestrictedEntry)),
        }
    }

    /// Frees an inode id as one transaction: the bitmap bit is cleared, the
    /// free-inode count rises by one, and the table slot is emptied. A
    /// restricted or out-of-range id fails with `InvalidInoId` and an
    /// already-free id with the bitmap's `AlreadyFree`, both changing
    /// nothing. Blocks the inode still references are not released here:
    /// the caller walks the pointer tree and frees them through `free_blk`
    /// first.
    pub fn free_inode(&mut self, ino_id: u32) -> (r: Result<(), InodeError>)
        requires
            old(self).wf(),
        ensures
            final(self).wf(),
            (ino_id < RESERVED_INODES || ino_id >= MAX_NUM_INODES) ==> {
                &&& r matches Err(InodeError::InvalidInoId)
                &&& FSState::unchanged(*old(self), *final(self))
            },
            (RESERVED_INODES <= ino_id < MAX_NUM_INODES && !old(self).ino_bits()[ino_id as int])
                ==> {
                &&& r matches Err(InodeError::BitmapError(BitMapError::AlreadyFree))
                &&& FSState::unchanged(*old(self), *final(self))
            },
            (RESERVED_INODES <= ino_id < MAX_NUM_INODES && old(self).ino_bits()[ino_id as int])
                ==> {
                &&& r matches Ok(())
                &&& final(self).ino_bits() == old(self).ino_bits().update(ino_id as int, false)
                &&& final(self).metadata.free_ino_count == old(self).metadata.free_ino_count + 1
                &&& final(self).metadata.fixed_fields_unchanged(old(self).metadata)
                &&& final(self).inodes@ == old(self).inodes@.update(ino_id as int, None::<Inode>)
                &&& FSState::blk_side_unchanged(*old(self), *final(self))
            },
    {
        let idx = ino_id as usize;

        proof {
            if RESERVED_INODES <= ino_id < MAX_NUM_INODES && old(self).ino_bits()[ino_id as int] {
                lemma_count_clear_below_cap(
                    self.ino_bits(),
                    RESERVED_INODES as int,
                    MAX_NUM_INODES as int,
                    ino_id as int,
                );
                lemma_count_clear_update(
                    self.ino_bits(),
                    RESERVED_INODES as int,
                    MAX_NUM_INODES as int,
                    ino_id as int,
                    false,
                );
            }
        }

        match self.inode_bitmap.set_free(idx) {
            Ok(_) => {},
            Err(err) => {
                return Err(
                    match err {
                        BitMapError::RestrictedEntry => InodeError::InvalidInoId,
                        BitMapError::AlreadyFree => InodeError::BitmapError(
                            BitMapError::AlreadyFree,
                        ),
                        BitMapError::AlreadyAlloced => InodeError::BitmapError(
                            BitMapError::AlreadyAlloced,
                        ),
                        BitMapError::NoFreeEntriesOnAlloc => InodeError::BitmapError(
                            BitMapError::NoFreeEntriesOnAlloc,
                        ),
                    },
                );
            },
        }

        match self.metadata.inc_free_ino_count() {
            Ok(_) => {},
            Err(_) => {
                return Err(InodeError::InvalidInoId);
            },
        }

        self.inodes[idx] = None;
        Ok(())
    }

    /// Allocates the lowest free data block as one transaction: the bitmap
    /// bit is set, the free-block count drops by one, and the table slot is
    /// filled with an all-zero block. With no free block, fails with
    /// `NoFreeEntriesOnAlloc` and changes nothing — which can only happen
    /// when the free count already reads zero.
    pub fn alloc_blk(&mut self) -> (r: Result<u32, BitMapError>)
        requires
            old(self).wf(),
        ensures
            final(self).wf(),
            r matches Ok(id) ==> {
                &&& RESERVED_DATA_BLKS <= id < NUM_DATA_BLKS
                &&& !old(self).blk_bits()[id as int]
                &&& forall|j: int| RESERVED_DATA_BLKS <= j < id ==> old(self).blk_bits()[j]
                &&& final(self).blk_bits() == old(self).blk_bits().update(id as int, true)
                &&& final(self).metadata.free_blk_count == old(self).metadata.free_blk_count - 1
                &&& final(self).metadata.fixed_fields_unchanged(old(self).metadata)
                &&& final(self).blks@.len() == old(self).blks@.len()
                &&& (final(self).blks@[id as int] matches Some(b) && b.wf() && forall|i: int|
                    0 <= i < BLK_SIZE_BYTES ==> b.data@[i] == 0u8)
                &&& forall|j: int|
                    0 <= j < old(self).blks@.len() && j != id ==> final(self).blks@[j] == old(
                        self,
                    ).blks@[j]
                &&& FSState::ino_side_unchanged(*old(self), *final(self))
            },
            r matches Err(e) ==> {
                &&& e == BitMapError::NoFreeEntriesOnAlloc
                &&& forall|j: int|
                    RESERVED_DATA_BLKS <= j < NUM_DATA_BLKS ==> old(self).blk_bits()[j]
                &&& old(self).metadata.free_blk_count == 0
                &&& FSState::unchanged(*old(self), *final(self))
            },
    {
        let idx = match self.blk_bitmap.find_first_free() {
            Some(i) => i,
            None => {
                proof {
                    lemma_count_clear_all_set(
                        self.blk_bits(),
                        RESERVED_DATA_BLKS as int,
                        NUM_DATA_BLKS as int,
                    );
                }
                return Err(BitMapError::NoFreeEntriesOnAlloc);
            },
        };

        proof {
            lemma_count_clear_at_least_one(
                self.blk_bits(),
                RESERVED_DATA_BLKS as int,
                NUM_DATA_BLKS as int,
                idx as int,
            );
            lemma_count_clear_update(
                self.blk_bits(),
                RESERVED_DATA_BLKS as int,
                NUM_DATA_BLKS as int,
                idx as int,
                true,
            );
        }

        match self.blk_bitmap.set_alloc(idx) {
            Ok(_) => {},
            Err(e) => {
                return Err(e);
            },
        }

        match self.metadata.dec_free_blk_count() {
            Ok(_) => {},
            Err(_) => {
                return Err(BitMapError::RestrictedEntry);
            },
        }

        self.blks[idx] = Some(zero_block());
        Ok(idx as u32)
    }

    /// Frees a data block as one transaction: the bitmap bit is cleared, the
    /// free-block count rises by one, and the table slot is emptied. A
    /// restricted or out-of-range id and an already-free id are refused with
    /// the bitmap's own error, changing nothing.
    pub fn free_blk(&mut self, blk_id: u32) -> (r: Result<(), BitMapError>)
        requires
            old(self).wf(),
        ensures
            final(self).wf(),
            (blk_id < RESERVED_DATA_BLKS || blk_id >= NUM_DATA_BLKS) ==> {
                &&& r matches Err(BitMapError::RestrictedEntry)
                &&& FSState::unchanged(*old(self), *final(self))
            },
            (RESERVED_DATA_BLKS <= blk_id < NUM_DATA_BLKS && !old(self).blk_bits()[blk_id as int])
                ==> {
                &&& r matches Err(BitMapError::AlreadyFree)
                &&& FSState::unchanged(*old(self), *final(self))
            },
            (RESERVED_DATA_BLKS <= blk_id < NUM_DATA_BLKS && old(self).blk_bits()[blk_id as int])
                ==> {
                &&& r matches Ok(())
                &&& final(self).blk_bits() == old(self).blk_bits().update(blk_id as int, false)
                &&& final(self).metadata.free_blk_count == old(self).metadata.free_blk_count + 1
                &&& final(self).metadata.fixed_fields_unchanged(old(self).metadata)
                &&& final(self).blks@ == old(self).blks@.update(blk_id as int, None::<Block>)
                &&& FSState::ino_side_unchanged(*old(self), *final(self))
            },
    {
        let idx = blk_id as usize;

        proof {
            if RESERVED_DATA_BLKS <= blk_id < NUM_DATA_BLKS && old(self).blk_bits()[blk_id as int] {
                lemma_count_clear_below_cap(
                    self.blk_bits(),
                    RESERVED_DATA_BLKS as int,
                    NUM_DATA_BLKS as int,
                    blk_id as int,
                );
                lemma_count_clear_update(
                    self.blk_bits(),
                    RESERVED_DATA_BLKS as int,
                    NUM_DATA_BLKS as int,
                    blk_id as int,
                    false,
                );
            }
        }

        match self.blk_bitmap.set_free(idx) {
            Ok(_) => {},
            Err(e) => {
                return Err(e);
            },
        }

        match self.metadata.inc_free_blk_count() {
            Ok(_) => {},
            Err(_) => {
                return Err(BitMapError::RestrictedEntry);
            },
        }

        self.blks[idx] = None;
        Ok(())
    }

    /// Read-only lookup of an inode: fails with `InodeNotFound` when the
    /// slot is empty — including for any id outside the table, or whose bit
    /// happens to be set with no table entry behind it.
    pub fn get_ino_ref(&self, ino_id: u32) -> (r: Result<&Inode, FSStateError>)
        ensures
            (ino_id < self.inodes@.len() && self.inodes@[ino_id as int] is Some) ==> (r matches Ok(
                ino,
            ) && Some(*ino) == self.inodes@[ino_id as int]),
            !(ino_id < self.inodes@.len() && self.inodes@[ino_id as int] is Some) ==> (
            r matches Err(e) && e == FSStateError::InodeError(InodeError::InodeNotFound)),
    {
        let idx = ino_id as usize;
        if idx >= self.inodes.len() {
            return Err(FSStateError::InodeError(InodeError::InodeNotFound));
        }
        match &self.inodes[idx] {
            Some(ino) => Ok(ino),
            None => Err(FSStateError::InodeError(InodeError::InodeNotFound)),
        }
    }

    /// Read-only lookup of the root inode.
    pub fn get_root_ino_ref(&self) -> (r: Result<&Inode, FSStateError>)
        ensures
            (ROOT_INO < self.inodes@.len() && self.inodes@[ROOT_INO as int] is Some) ==> (
            r matches Ok(ino) && Some(*ino) == self.inodes@[ROOT_INO as int]),
            !(ROOT_INO < self.inodes@.len() && self.inodes@[ROOT_INO as int] is Some) ==> (
            r matches Err(e) && e == FSStateError::InodeError(InodeError::InodeNotFound)),
    {
        self.get_ino_ref(ROOT_INO)
    }
}

/// Law: counters and bitmaps agree. In a well-formed state — and every
/// operation of [`FSState`] both requires and re-establishes well-formedness
/// — the number of set bits in each bitmap's allocatable range equals the
/// capacity of that range minus the corresponding free count.
pub proof fn lemma_counter_bitmap_agreement(s: FSState)
    requires
        s.wf(),
    ensures
        count_set(s.ino_bits(), RESERVED_INODES as int, MAX_NUM_INODES as int) == (
        s.metadata.ino_count - RESERVED_INODES) - s.metadata.free_ino_count,
        count_set(s.blk_bits(), RESERVED_DATA_BLKS as int, NUM_DATA_BLKS as int) == (
        s.metadata.blk_count - RESERVED_DATA_BLKS) - s.metadata.free_blk_count,
{
    lemma_count_set_clear_total(s.ino_bits(), RESERVED_INODES as int, MAX_NUM_INODES as int);
    lemma_count_set_clear_total(s.blk_bits(), RESERVED_DATA_BLKS as int, NUM_DATA_BLKS as int);
}

} // verus!
