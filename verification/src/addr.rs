//! Address translation: mapping a file's logical block index onto a physical
//! block id through the inode's direct pointers and up to three levels of
//! pointer-table blocks. A pointer read as the sentinel at any level means a
//! hole (sparse region); a logical index past the triply-indirect range
//! exceeds the maximum representable file size.

use vstd::prelude::*;

use crate::inode::{Inode, INVALID_PTR};
use crate::metadata::{BLK_SIZE_BYTES, NUM_DATA_BLKS, RESERVED_DATA_BLKS};
use crate::state::{Block, FSState};

verus! {

/// Pointers per pointer-table block: `BLK_SIZE_BYTES` over the 4 bytes of
/// one little-endian block id.
pub const PTRS_PER_BLK: u64 = 1024;

/// First logical block past the direct range: `12`.
pub const SINGLE_IND_BOUND: u64 = 12;

/// First logical block past the singly-indirect range: `12 + P`.
pub const DBL_IND_BOUND: u64 = 1036;

/// First logical block past the doubly-indirect range: `12 + P + P^2`.
pub const TRI_IND_BOUND: u64 = 1049612;

/// First logical block past the triply-indirect range: `12 + P + P^2 + P^3`;
/// from here on the file offset exceeds the maximum representable file size.
pub const MAX_LOGICAL_BOUND: u64 = 1074791436;

#[derive(Debug, PartialEq, Eq, Structural)]
pub enum AddrError {
    /// The logical block index lies past the triply-indirect range: a fatal
    /// request error, not a retryable condition.
    LogicalBlockOutOfRange,
    /// An intermediate pointer names a block that is outside the table or
    /// absent from it: an inconsistency defended against, never produced by
    /// this core.
    BadPointerBlock,
}

/// The `i`-th pointer recorded in a pointer-table block's bytes: four bytes,
/// little-endian.
pub open spec fn ptr_at(data: Seq<u8>, i: int) -> int {
    data[4 * i] + data[4 * i + 1] * 0x100 + data[4 * i + 2] * 0x10000 + data[4 * i + 3] * 0x1000000
}

/// One level of pointer-table lookup, threaded through earlier outcomes: an
/// error or a hole passes through; the sentinel becomes a hole; a live
/// pointer must name a present table block, whose `off`-th pointer is read.
pub open spec fn step_through(
    blks: Seq<Option<Block>>,
    cur: Result<Option<u32>, AddrError>,
    off: int,
) -> Result<Option<u32>, AddrError> {
    match cur {
        Err(e) => Err(e),
        Ok(None) => Ok(None),
        Ok(Some(b)) => if b == INVALID_PTR {
            Ok(None)
        } else if b >= blks.len() || blks[b as int] is None {
            Err(AddrError::BadPointerBlock)
        } else {
            Ok(Some(ptr_at(blks[b as int]->Some_0.data@, off) as u32))
        },
    }
}

/// A finished walk whose last pointer is the sentinel resolved to a hole.
pub open spec fn seal(cur: Result<Option<u32>, AddrError>) -> Result<Option<u32>, AddrError> {
    match cur {
        Ok(Some(b)) => if b == INVALID_PTR {
            Ok(None)
        } else {
            Ok(Some(b))
        },
        _ => cur,
    }
}

/// Where logical block `l` of the inode `ino` lives, given the block table:
/// `Ok(Some(id))` names the physical block, `Ok(None)` is a hole, and the
/// errors are a logical index past the triply-indirect range or a corrupt
/// intermediate pointer. Writing `P` for the pointers per block, `l < 12`
/// reads the direct table, `l < 12 + P` one, `l < 12 + P + P^2` two, and
/// `l < 12 + P + P^2 + P^3` three levels of pointer blocks.
pub open spec fn spec_resolve(blks: Seq<Option<Block>>, ino: Inode, logical: u64) -> Result<
    Option<u32>,
    AddrError,
> {
    let p = PTRS_PER_BLK as int;
    if logical < SINGLE_IND_BOUND {
        seal(Ok(Some(ino.direct_blks[logical as int])))
    } else if logical < DBL_IND_BOUND {
        let l = logical - SINGLE_IND_BOUND;
        seal(step_through(blks, Ok(Some(ino.indirect_blk)), l))
    } else if logical < TRI_IND_BOUND {
        let l = logical - DBL_IND_BOUND;
        seal(step_through(blks, step_through(blks, Ok(Some(ino.dbl_indirect_blk)), l / p), l % p))
    } else if logical < MAX_LOGICAL_BOUND {
        let l = logical - TRI_IND_BOUND;
        seal(
            step_through(
                blks,
                step_through(
                    blks,
                    step_through(blks, Ok(Some(ino.tri_indirect_blk)), l / (p * p)),
                    (l / p) % p,
                ),
                l % p,
            ),
        )
    } else {
        Err(AddrError::LogicalBlockOutOfRange)
    }
}

/// Writing one pointer slot changes that slot's value and no other: the four
/// updated bytes lie outside every other slot's four bytes.
proof fn lemma_write_ptr_frame(data: Seq<u8>, post: Seq<u8>, i: int, v: int)
    requires
        data.len() == BLK_SIZE_BYTES,
        0 <= i < PTRS_PER_BLK,
        0 <= v < 0x100000000,
        post == data.update(4 * i, (v % 0x100) as u8).update(
            4 * i + 1,
            ((v / 0x100) % 0x100) as u8,
        ).update(4 * i + 2, ((v / 0x10000) % 0x100) as u8).update(
            4 * i + 3,
            (v / 0x1000000) as u8,
        ),
    ensures
        post.len() == BLK_SIZE_BYTES,
        ptr_at(post, i) == v,
        forall|k: int| 0 <= k < PTRS_PER_BLK && k != i ==> ptr_at(post, k) == ptr_at(data, k),
{
    assert(v == v % 0x100 + (v / 0x100) % 0x100 * 0x100 + (v / 0x10000) % 0x100 * 0x10000 + (v
        / 0x1000000) * 0x1000000) by (nonlinear_arith)
        requires
            0 <= v < 0x100000000,
    ;
    assert(ptr_at(post, i) == v);
    assert forall|k: int| 0 <= k < PTRS_PER_BLK && k != i implies ptr_at(post, k) == ptr_at(
        data,
        k,
    ) by {
        assert(post[4 * k] == data[4 * k]);
        assert(post[4 * k + 1] == data[4 * k + 1]);
        assert(post[4 * k + 2] == data[4 * k + 2]);
        assert(post[4 * k + 3] == data[4 * k + 3]);
    }
}

#[derive(Debug, PartialEq, Eq, Structural)]
pub enum GrowError {
    /// No inode stands in the table under the given id.
    InodeNotFound,
    /// The logical block index lies past the triply-indirect range.
    LogicalBlockOutOfRange,
    /// An intermediate pointer names a block that is outside the table or
    /// absent from it.
    BadPointerBlock,
    /// Growing would need more fresh blocks than the free count has left;
    /// nothing is allocated and nothing changes.
    NoFreeBlocks,
}

/// How many fresh blocks growing logical block `logical` must allocate and
/// link: one for each sentinel met walking down, the data block itself
/// included. Meaningful where the walk meets no corrupt pointer and ends in
/// a hole.
pub open spec fn links_to_grow(blks: Seq<Option<Block>>, ino: Inode, logical: u64) -> int {
    let p = PTRS_PER_BLK as int;
    if logical < SINGLE_IND_BOUND {
        1
    } else if logical < DBL_IND_BOUND {
        if ino.indirect_blk == INVALID_PTR {
            2
        } else {
            1
        }
    } else if logical < TRI_IND_BOUND {
        let l = logical - DBL_IND_BOUND;
        if ino.dbl_indirect_blk == INVALID_PTR {
            3
        } else {
            let t2 = ptr_at(blks[ino.dbl_indirect_blk as int]->Some_0.data@, l / p);
            if t2 == 0 {
                2
            } else {
                1
            }
        }
    } else {
        let l = logical - TRI_IND_BOUND;
        if ino.tri_indirect_blk == INVALID_PTR {
            4
        } else {
            let t2 = ptr_at(blks[ino.tri_indirect_blk as int]->Some_0.data@, l / (p * p));
            if t2 == 0 {
                3
            } else {
                let t3 = ptr_at(blks[t2]->Some_0.data@, (l / p) % p);
                if t3 == 0 {
                    2
                } else {
                    1
                }
            }
        }
    }
}

/// A growth that succeeded: the returned block is fresh, zeroed, in the
/// allocatable range, and where the logical index now resolves; exactly
/// [`links_to_grow`] blocks came off the free count; no block was freed, no
/// present block vanished, and the inode side moved only in the grown
/// inode's pointer tree, block count and timestamp.
pub open spec fn grown_ok(
    pre: FSState,
    ino_id: u32,
    logical: u64,
    post: FSState,
    rr: u32,
) -> bool {
    let ino = pre.inodes@[ino_id as int]->Some_0;
    let links = links_to_grow(pre.blks@, ino, logical);
    &&& post.inodes@.len() == pre.inodes@.len()
    &&& post.inodes@[ino_id as int] is Some
    &&& spec_resolve(post.blks@, post.inodes@[ino_id as int]->Some_0, logical) == Ok::<
        Option<u32>,
        AddrError,
    >(Some(rr))
    &&& RESERVED_DATA_BLKS <= rr < NUM_DATA_BLKS
    &&& !pre.blk_bits()[rr as int]
    &&& post.blk_bits()[rr as int]
    &&& (post.blks@[rr as int] matches Some(b) && forall|i: int|
        0 <= i < BLK_SIZE_BYTES ==> b.data@[i] == 0u8)
    &&& 1 <= links <= 4
    &&& post.metadata.free_blk_count == pre.metadata.free_blk_count - links
    &&& post.metadata.fixed_fields_unchanged(pre.metadata)
    &&& post.metadata.free_ino_count == pre.metadata.free_ino_count
    &&& post.ino_bits() == pre.ino_bits()
    &&& forall|j: int|
        0 <= j < pre.inodes@.len() && j != ino_id ==> post.inodes@[j] == pre.inodes@[j]
    &&& {
        let ino2 = post.inodes@[ino_id as int]->Some_0;
        &&& ino2.ino_id == ino.ino_id
        &&& ino2.size == ino.size
        &&& ino2.kind == ino.kind
        &&& ino2.perm == ino.perm
        &&& ino2.blocks == if ino.blocks + links <= u32::MAX {
            ino.blocks + links
        } else {
            u32::MAX as int
        }
    }
    &&& forall|j: int| 0 <= j < NUM_DATA_BLKS && pre.blk_bits()[j] ==> post.blk_bits()[j]
    &&& forall|j: int|
        0 <= j < pre.blks@.len() ==> ((#[trigger] pre.blks@[j]) is Some ==> post.blks@[j] is Some)
}

/// Whether the walk to `logical` passes the same pointer-table block twice —
/// a self-aliased tree that this core's own allocations never produce, and
/// that growth refuses as corrupt rather than rewiring.
pub open spec fn path_aliased(blks: Seq<Option<Block>>, ino: Inode, logical: u64) -> bool {
    let p = PTRS_PER_BLK as int;
    if logical < DBL_IND_BOUND {
        false
    } else if logical < TRI_IND_BOUND {
        let l = logical - DBL_IND_BOUND;
        let t1 = ino.dbl_indirect_blk;
        t1 != INVALID_PTR && {
            let t2 = ptr_at(blks[t1 as int]->Some_0.data@, l / p);
            t2 != 0 && t2 == t1
        }
    } else {
        let l = logical - TRI_IND_BOUND;
        let t1 = ino.tri_indirect_blk;
        t1 != INVALID_PTR && {
            let t2 = ptr_at(blks[t1 as int]->Some_0.data@, l / (p * p));
            t2 != 0 && (t2 == t1 || {
                let t3 = ptr_at(blks[t2]->Some_0.data@, (l / p) % p);
                t3 != 0 && (t3 == t1 || t3 == t2)
            })
        }
    }
}

/// What growing does, case by case over where the logical block stood
/// beforehand: an index that already resolves is returned with nothing
/// changed; a corrupt walk, a self-aliased walk and an out-of-range index
/// are refused unchanged; a hole is grown only when the free count covers
/// every needed link, and refused unchanged otherwise.
pub open spec fn grow_resolves(
    pre: FSState,
    ino: Inode,
    ino_id: u32,
    logical: u64,
    post: FSState,
    r: Result<u32, GrowError>,
) -> bool {
    let pre_resolve = spec_resolve(pre.blks@, ino, logical);
    let links = links_to_grow(pre.blks@, ino, logical);
    let aliased = path_aliased(pre.blks@, ino, logical);
    &&& (pre_resolve matches Ok(Some(x)) ==> r == Ok::<u32, GrowError>(x) && FSState::unchanged(
        pre,
        post,
    ))
    &&& (pre_resolve == Err::<Option<u32>, AddrError>(AddrError::BadPointerBlock) ==> r == Err::<
        u32,
        GrowError,
    >(GrowError::BadPointerBlock) && FSState::unchanged(pre, post))
    &&& (pre_resolve == Err::<Option<u32>, AddrError>(AddrError::LogicalBlockOutOfRange) ==> r
        == Err::<u32, GrowError>(GrowError::LogicalBlockOutOfRange) && FSState::unchanged(
        pre,
        post,
    ))
    &&& (pre_resolve == Ok::<Option<u32>, AddrError>(None) && aliased ==> r == Err::<
        u32,
        GrowError,
    >(GrowError::BadPointerBlock) && FSState::unchanged(pre, post))
    &&& (pre_resolve == Ok::<Option<u32>, AddrError>(None) && !aliased
        && pre.metadata.free_blk_count < links ==> r == Err::<u32, GrowError>(
        GrowError::NoFreeBlocks,
    ) && FSState::unchanged(pre, post))
    &&& (pre_resolve == Ok::<Option<u32>, AddrError>(None) && !aliased
        && pre.metadata.free_blk_count >= links ==> (r matches Ok(rr) && grown_ok(
        pre,
        ino_id,
        logical,
        post,
        rr,
    )))
}

/// Reads the `i`-th little-endian pointer out of a pointer-table block.
fn read_ptr(data: &Vec<u8>, i: usize) -> (r: u32)
    requires
        data@.len() == BLK_SIZE_BYTES,
        i < PTRS_PER_BLK,
    ensures
        r == ptr_at(data@, i as int),
{
    let b0 = data[4 * i] as u32;
    let b1 = data[4 * i + 1] as u32;
    let b2 = data[4 * i + 2] as u32;
    let b3 = data[4 * i + 3] as u32;
    b0 + b1 * 0x100 + b2 * 0x10000 + b3 * 0x1000000
}

/// A finished walk's sentinel resolved to a hole.
fn seal_exec(cur: Result<Option<u32>, AddrError>) -> (r: Result<Option<u32>, AddrError>)
    ensures
        r == seal(cur),
{
    match cur {
        Ok(Some(b)) => if b == INVALID_PTR {
            Ok(None)
        } else {
            Ok(Some(b))
        },
        Ok(None) => Ok(None),
        Err(e) => Err(e),
    }
}

impl FSState {
    /// Writes pointer `v` into slot `off` of the present table block `tbl`:
    /// that one slot now reads `v`, every other slot of the block and every
    /// other block keep their bytes, and nothing else in the state moves.
    fn write_ptr(&mut self, tbl: usize, off: usize, v: u32)
        requires
            old(self).wf(),
            tbl < old(self).blks@.len(),
            old(self).blks@[tbl as int] is Some,
            off < PTRS_PER_BLK,
        ensures
            final(self).wf(),
            final(self).blks@.len() == old(self).blks@.len(),
            forall|j: int|
                0 <= j < old(self).blks@.len() && j != tbl ==> final(self).blks@[j] == old(
                    self,
                ).blks@[j],
            final(self).blks@[tbl as int] is Some,
            ptr_at(final(self).blks@[tbl as int]->Some_0.data@, off as int) == v,
            forall|k: int|
                0 <= k < PTRS_PER_BLK && k != off ==> ptr_at(
                    final(self).blks@[tbl as int]->Some_0.data@,
                    k,
                ) == ptr_at(old(self).blks@[tbl as int]->Some_0.data@, k),
            final(self).blk_bits() == old(self).blk_bits(),
            final(self).metadata == old(self).metadata,
            final(self).ino_bits() == old(self).ino_bits(),
            final(self).inodes@ == old(self).inodes@,
    {
        let ghost pre = old(self).blks@[tbl as int]->Some_0.data@;
        let b0 = (v % 0x100) as u8;
        let b1 = ((v / 0x100) % 0x100) as u8;
        let b2 = ((v / 0x10000) % 0x100) as u8;
        let b3 = (v / 0x1000000) as u8;
        match &mut self.blks[tbl] {
            Some(blk) => {
                blk.data[4 * off] = b0;
                blk.data[4 * off + 1] = b1;
                blk.data[4 * off + 2] = b2;
                blk.data[4 * off + 3] = b3;
            },
            None => {},
        }
        proof {
            lemma_write_ptr_frame(
                pre,
                self.blks@[tbl as int]->Some_0.data@,
                off as int,
                v as int,
            );
        }
    }

    /// Installs a grown inode back into its table slot, its block count
    /// raised by the `links` freshly allocated blocks (saturating) and its
    /// timestamp refreshed; nothing else in the state moves.
    fn install_grown_ino(&mut self, ino_id: u32, ino: Inode, links: u32)
        requires
            old(self).wf(),
            ino_id < old(self).inodes@.len(),
        ensures
            final(self).wf(),
            final(self).inodes@.len() == old(self).inodes@.len(),
            forall|j: int|
                0 <= j < old(self).inodes@.len() && j != ino_id ==> final(self).inodes@[j] == old(
                    self,
                ).inodes@[j],
            final(self).inodes@[ino_id as int] matches Some(i2) && {
                &&& i2.ino_id == ino.ino_id
                &&& i2.size == ino.size
                &&& i2.kind == ino.kind
                &&& i2.perm == ino.perm
                &&& i2.direct_blks == ino.direct_blks
                &&& i2.indirect_blk == ino.indirect_blk
                &&& i2.dbl_indirect_blk == ino.dbl_indirect_blk
                &&& i2.tri_indirect_blk == ino.tri_indirect_blk
                &&& i2.blocks == if ino.blocks + links <= u32::MAX {
                    ino.blocks + links
                } else {
                    u32::MAX as int
                }
            },
            final(self).ino_bits() == old(self).ino_bits(),
            final(self).blk_bits() == old(self).blk_bits(),
            final(self).blks@ == old(self).blks@,
            final(self).metadata == old(self).metadata,
    {
        let mut ino2 = ino;
        ino2.blocks = if ino2.blocks <= u32::MAX - links {
            ino2.blocks + links
        } else {
            u32::MAX
        };
        ino2.update_mtime();
        self.inodes[ino_id as usize] = Some(ino2);
    }

    /// Growth inside the direct range: a sentinel direct slot gets one fresh
    /// zeroed block linked straight into the inode.
    fn grow_direct(&mut self, ino_id: u32, ino: Inode, logical: u64) -> (r: Result<
        u32,
        GrowError,
    >)
        requires
            old(self).wf(),
            ino_id < old(self).inodes@.len(),
            old(self).inodes@[ino_id as int] == Some(ino),
            logical < SINGLE_IND_BOUND,
        ensures
            final(self).wf(),
            grow_resolves(*old(self), ino, ino_id, logical, *final(self), r),
    {
        let l = logical as usize;
        let cur = ino.direct_blks[l];
        if cur != INVALID_PTR {
            return Ok(cur);
        }
        if self.metadata.free_blk_count < 1 {
            return Err(GrowError::NoFreeBlocks);
        }
        let nb = match self.alloc_blk() {
            Ok(n) => n,
            Err(_) => {
                return Err(GrowError::NoFreeBlocks);
            },
        };
        let mut ino2 = ino;
        ino2.direct_blks[l] = nb;
        self.install_grown_ino(ino_id, ino2, 1);
        Ok(nb)
    }

    /// Growth inside the singly-indirect range: the pointer-table block is
    /// allocated first when the inode's indirect pointer is the sentinel,
    /// then a fresh zeroed data block is linked into its slot.
    fn grow_single(&mut self, ino_id: u32, ino: Inode, logical: u64) -> (r: Result<
        u32,
        GrowError,
    >)
        requires
            old(self).wf(),
            ino_id < old(self).inodes@.len(),
            old(self).inodes@[ino_id as int] == Some(ino),
            SINGLE_IND_BOUND <= logical < DBL_IND_BOUND,
        ensures
            final(self).wf(),
            grow_resolves(*old(self), ino, ino_id, logical, *final(self), r),
    {
        let off = (logical - SINGLE_IND_BOUND) as usize;
        let t1 = ino.indirect_blk;
        let links: u32;
        if t1 == INVALID_PTR {
            links = 2;
        } else {
            let t1i = t1 as usize;
            if t1i >= self.blks.len() {
                return Err(GrowError::BadPointerBlock);
            }
            let existing = match &self.blks[t1i] {
                None => {
                    return Err(GrowError::BadPointerBlock);
                },
                Some(b) => read_ptr(&b.data, off),
            };
            if existing != INVALID_PTR {
                return Ok(existing);
            }
            links = 1;
        }
        if self.metadata.free_blk_count < links {
            return Err(GrowError::NoFreeBlocks);
        }
        let t1f = if t1 == INVALID_PTR {
            match self.alloc_blk() {
                Ok(n) => n,
                Err(_) => {
                    return Err(GrowError::NoFreeBlocks);
                },
            }
        } else {
            t1
        };
        let nb = match self.alloc_blk() {
            Ok(n) => n,
            Err(_) => {
                return Err(GrowError::NoFreeBlocks);
            },
        };
        self.write_ptr(t1f as usize, off, nb);
        let mut ino2 = ino;
        ino2.indirect_blk = t1f;
        self.install_grown_ino(ino_id, ino2, links);
        Ok(nb)
    }

    /// Growth inside the doubly-indirect range: up to two pointer-table
    /// blocks are allocated and linked on the way down, then a fresh zeroed
    /// data block is linked into the second-level slot.
    fn grow_double(&mut self, ino_id: u32, ino: Inode, logical: u64) -> (r: Result<
        u32,
        GrowError,
    >)
        requires
            old(self).wf(),
            ino_id < old(self).inodes@.len(),
            old(self).inodes@[ino_id as int] == Some(ino),
            DBL_IND_BOUND <= logical < TRI_IND_BOUND,
        ensures
            final(self).wf(),
            grow_resolves(*old(self), ino, ino_id, logical, *final(self), r),
    {
        let l = logical - DBL_IND_BOUND;
        let off1 = (l / PTRS_PER_BLK) as usize;
        let off2 = (l % PTRS_PER_BLK) as usize;
        let t1 = ino.dbl_indirect_blk;
        let links: u32;
        let mut t2_known: u32 = INVALID_PTR;
        if t1 == INVALID_PTR {
            links = 3;
        } else {
            let t1i = t1 as usize;
            if t1i >= self.blks.len() {
                return Err(GrowError::BadPointerBlock);
            }
            let t2 = match &self.blks[t1i] {
                None => {
                    return Err(GrowError::BadPointerBlock);
                },
                Some(b) => read_ptr(&b.data, off1),
            };
            if t2 == INVALID_PTR {
                links = 2;
            } else {
                let t2i = t2 as usize;
                if t2i >= self.blks.len() {
                    return Err(GrowError::BadPointerBlock);
                }
                let d = match &self.blks[t2i] {
                    None => {
                        return Err(GrowError::BadPointerBlock);
                    },
                    Some(b) => read_ptr(&b.data, off2),
                };
                if d != INVALID_PTR {
                    return Ok(d);
                }
                if t2 == t1 {
                    return Err(GrowError::BadPointerBlock);
                }
                links = 1;
                t2_known = t2;
            }
        }
        if self.metadata.free_blk_count < links {
            return Err(GrowError::NoFreeBlocks);
        }
        let t1f = if t1 == INVALID_PTR {
            match self.alloc_blk() {
                Ok(n) => n,
                Err(_) => {
                    return Err(GrowError::NoFreeBlocks);
                },
            }
        } else {
            t1
        };
        let t2f = if links >= 2 {
            let n2 = match self.alloc_blk() {
                Ok(n) => n,
                Err(_) => {
                    return Err(GrowError::NoFreeBlocks);
                },
            };
            self.write_ptr(t1f as usize, off1, n2);
            n2
        } else {
            t2_known
        };
        let nb = match self.alloc_blk() {
            Ok(n) => n,
            Err(_) => {
                return Err(GrowError::NoFreeBlocks);
            },
        };
        self.write_ptr(t2f as usize, off2, nb);
        let mut ino2 = ino;
        ino2.dbl_indirect_blk = t1f;
        self.install_grown_ino(ino_id, ino2, links);
        Ok(nb)
    }

    /// Growth inside the triply-indirect range: up to three pointer-table
    /// blocks are allocated and linked on the way down, then a fresh zeroed
    /// data block is linked into the third-level slot.
    fn grow_triple(&mut self, ino_id: u32, ino: Inode, logical: u64) -> (r: Result<
        u32,
        GrowError,
    >)
        requires
            old(self).wf(),
            ino_id < old(self).inodes@.len(),
            old(self).inodes@[ino_id as int] == Some(ino),
            TRI_IND_BOUND <= logical < MAX_LOGICAL_BOUND,
        ensures
            final(self).wf(),
            grow_resolves(*old(self), ino, ino_id, logical, *final(self), r),
    {
        let l = logical - TRI_IND_BOUND;
        let off1 = (l / (PTRS_PER_BLK * PTRS_PER_BLK)) as usize;
        let off2 = ((l / PTRS_PER_BLK) % PTRS_PER_BLK) as usize;
        let off3 = (l % PTRS_PER_BLK) as usize;
        let t1 = ino.tri_indirect_blk;
        let links: u32;
        let mut t2_known: u32 = INVALID_PTR;
        let mut t3_known: u32 = INVALID_PTR;
        if t1 == INVALID_PTR {
            links = 4;
        } else {
            let t1i = t1 as usize;
            if t1i >= self.blks.len() {
                return Err(GrowError::BadPointerBlock);
            }
            let t2 = match &self.blks[t1i] {
                None => {
                    return Err(GrowError::BadPointerBlock);
                },
                Some(b) => read_ptr(&b.data, off1),
            };
            if t2 == INVALID_PTR {
                links = 3;
            } else {
                let t2i = t2 as usize;
                if t2i >= self.blks.len() {
                    return Err(GrowError::BadPointerBlock);
                }
                let t3 = match &self.blks[t2i] {
                    None => {
                        return Err(GrowError::BadPointerBlock);
                    },
                    Some(b) => read_ptr(&b.data, off2),
                };
                if t3 == INVALID_PTR {
                    if t2 == t1 {
                        return Err(GrowError::BadPointerBlock);
                    }
                    links = 2;
                    t2_known = t2;
                } else {
                    let t3i = t3 as usize;
                    if t3i >= self.blks.len() {
                        return Err(GrowError::BadPointerBlock);
                    }
                    let d = match &self.blks[t3i] {
                        None => {
                            return Err(GrowError::BadPointerBlock);
                        },
                        Some(b) => read_ptr(&b.data, off3),
                    };
                    if d != INVALID_PTR {
                        return Ok(d);
                    }
                    if t2 == t1 || t3 == t1 || t3 == t2 {
                        return Err(GrowError::BadPointerBlock);
                    }
                    links = 1;
                    t2_known = t2;
                    t3_known = t3;
                }
            }
        }
        if self.metadata.free_blk_count < links {
            return Err(GrowError::NoFreeBlocks);
        }
        let t1f = if t1 == INVALID_PTR {
            match self.alloc_blk() {
                Ok(n) => n,
                Err(_) => {
                    return Err(GrowError::NoFreeBlocks);
                },
            }
        } else {
            t1
        };
        let t2f = if links >= 3 {
            let n2 = match self.alloc_blk() {
                Ok(n) => n,
                Err(_) => {
                    return Err(GrowError::NoFreeBlocks);
                },
            };
            self.write_ptr(t1f as usize, off1, n2);
            n2
        } else {
            t2_known
        };
        let t3f = if links >= 2 {
            let n3 = match self.alloc_blk() {
                Ok(n) => n,
                Err(_) => {
                    return Err(GrowError::NoFreeBlocks);
                },
            };
            self.write_ptr(t2f as usize, off2, n3);
            n3
        } else {
            t3_known
        };
        let nb = match self.alloc_blk() {
            Ok(n) => n,
            Err(_) => {
                return Err(GrowError::NoFreeBlocks);
            },
        };
        self.write_ptr(t3f as usize, off3, nb);
        let mut ino2 = ino;
        ino2.tri_indirect_blk = t1f;
        self.install_grown_ino(ino_id, ino2, links);
        Ok(nb)
    }

    /// One level of pointer-table lookup against this state's block table.
    fn step_from(&self, cur: Result<Option<u32>, AddrError>, off: usize) -> (r: Result<
        Option<u32>,
        AddrError,
    >)
        requires
            self.wf(),
            off < PTRS_PER_BLK,
        ensures
            r == step_through(self.blks@, cur, off as int),
    {
        let c = match cur {
            Err(e) => {
                return Err(e);
            },
            Ok(None) => {
                return Ok(None);
            },
            Ok(Some(c)) => c,
        };
        if c == INVALID_PTR {
            return Ok(None);
        }
        let idx = c as usize;
        if idx >= self.blks.len() {
            return Err(AddrError::BadPointerBlock);
        }
        match &self.blks[idx] {
            None => Err(AddrError::BadPointerBlock),
            Some(b) => Ok(Some(read_ptr(&b.data, off))),
        }
    }

    /// Resolves logical block `logical` of the inode at `ino_id` for
    /// writing, growing the file past any unallocated pointer on the way: a
    /// hole gets a fresh zeroed data block, and each indirect level whose
    /// pointer-table block is missing gets that table allocated and linked
    /// before deeper resolution proceeds. Everything needed is budgeted
    /// against the free-block count first, so a growth either happens whole
    /// or refuses with `NoFreeBlocks` and changes nothing.
    pub fn ensure_blk(&mut self, ino_id: u32, logical: u64) -> (r: Result<u32, GrowError>)
        requires
            old(self).wf(),
        ensures
            final(self).wf(),
            (ino_id >= old(self).inodes@.len() || old(self).inodes@[ino_id as int] is None) ==> r
                == Err::<u32, GrowError>(GrowError::InodeNotFound) && FSState::unchanged(
                *old(self),
                *final(self),
            ),
            (ino_id < old(self).inodes@.len() && old(self).inodes@[ino_id as int] is Some)
                ==> grow_resolves(
                *old(self),
                old(self).inodes@[ino_id as int]->Some_0,
                ino_id,
                logical,
                *final(self),
                r,
            ),
    {
        let idx = ino_id as usize;
        if idx >= self.inodes.len() {
            return Err(GrowError::InodeNotFound);
        }
        let ino = match self.inodes[idx] {
            Some(i) => i,
            None => {
                return Err(GrowError::InodeNotFound);
            },
        };
        if logical < SINGLE_IND_BOUND {
            self.grow_direct(ino_id, ino, logical)
        } else if logical < DBL_IND_BOUND {
            self.grow_single(ino_id, ino, logical)
        } else if logical < TRI_IND_BOUND {
            self.grow_double(ino_id, ino, logical)
        } else if logical < MAX_LOGICAL_BOUND {
            self.grow_triple(ino_id, ino, logical)
        } else {
            Err(GrowError::LogicalBlockOutOfRange)
        }
    }

    /// Resolves logical block `logical` of `ino` to a physical block id,
    /// a hole, or an error, exactly as [`spec_resolve`] lays the
    /// direct/indirect ranges out.
    pub fn resolve_blk(&self, ino: &Inode, logical: u64) -> (r: Result<Option<u32>, AddrError>)
        requires
            self.wf(),
        ensures
            r == spec_resolve(self.blks@, *ino, logical),
    {
        if logical < SINGLE_IND_BOUND {
            let p = ino.direct_blks[logical as usize];
            seal_exec(Ok(Some(p)))
        } else if logical < DBL_IND_BOUND {
            let off = (logical - SINGLE_IND_BOUND) as usize;
            let s1 = self.step_from(Ok(Some(ino.indirect_blk)), off);
            seal_exec(s1)
        } else if logical < TRI_IND_BOUND {
            let l = logical - DBL_IND_BOUND;
            let off1 = (l / PTRS_PER_BLK) as usize;
            let off2 = (l % PTRS_PER_BLK) as usize;
            let s1 = self.step_from(Ok(Some(ino.dbl_indirect_blk)), off1);
            let s2 = self.step_from(s1, off2);
            seal_exec(s2)
        } else if logical < MAX_LOGICAL_BOUND {
            let l = logical - TRI_IND_BOUND;
            let off1 = (l / (PTRS_PER_BLK * PTRS_PER_BLK)) as usize;
            let off2 = ((l / PTRS_PER_BLK) % PTRS_PER_BLK) as usize;
            let off3 = (l % PTRS_PER_BLK) as usize;
            let s1 = self.step_from(Ok(Some(ino.tri_indirect_blk)), off1);
            let s2 = self.step_from(s1, off2);
            let s3 = self.step_from(s2, off3);
            seal_exec(s3)
        } else {
            Err(AddrError::LogicalBlockOutOfRange)
        }
    }
}

} // verus!
