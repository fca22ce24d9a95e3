//! Free/used tracking over a bit vector with a reserved prefix: one bit per
//! object index, `false` = free, `true` = in use. The backing bit storage
//! comes from the bitvec crate and is modelled as a sequence of booleans.

use vstd::prelude::*;

use crate::metadata::{MAX_NUM_INODES, NUM_DATA_BLKS, RESERVED_DATA_BLKS, RESERVED_INODES};

verus! {

/// Heap-backed bit storage from the bitvec crate. Verus sees nothing inside
/// it; its contents are modelled by [`bit_seq`] and reached only through the
/// trusted wrappers below.
#[verifier::external_body]
pub struct BitStorage {
    bits: bitvec::vec::BitVec<u8, bitvec::order::Lsb0>,
}

/// The bits held by the storage, in index order.
pub uninterp spec fn bit_seq(bits: BitStorage) -> Seq<bool>;

/// Relies on bitvec's BitVec::repeat: a bit vector of `len` copies of `bit`.
#[verifier::external_body]
fn bv_repeat(bit: bool, len: usize) -> (r: BitStorage)
    ensures
        bit_seq(r) == Seq::new(len as nat, |i: int| bit),
{
    BitStorage { bits: bitvec::vec::BitVec::repeat(bit, len) }
}

/// Relies on bitvec's BitSlice::set (reached through deref): writes the one
/// bit at `idx` and leaves every other bit as it was.
#[verifier::external_body]
fn bv_set(bits: &mut BitStorage, idx: usize, val: bool)
    requires
        idx < bit_seq(*old(bits)).len(),
    ensures
        bit_seq(*final(bits)) == bit_seq(*old(bits)).update(idx as int, val),
{
    bits.bits.set(idx, val);
}

/// Relies on bitvec's index operator on BitSlice: reads the bit at `idx`.
#[verifier::external_body]
fn bv_get(bits: &BitStorage, idx: usize) -> (r: bool)
    requires
        idx < bit_seq(*bits).len(),
    ensures
        r == bit_seq(*bits)[idx as int],
{
    bits.bits[idx]
}

#[derive(Debug, PartialEq, Eq, Structural)]
pub enum BitMapError {
    RestrictedEntry,
    AlreadyAlloced,
    AlreadyFree,
    NoFreeEntriesOnAlloc,
}

/// Number of clear (free) bits in `bits` over the index range `[from, to)`.
pub open spec fn count_clear(bits: Seq<bool>, from: int, to: int) -> int
    decreases to - from,
{
    if from >= to {
        0
    } else {
        (if bits[from] {
            0int
        } else {
            1int
        }) + count_clear(bits, from + 1, to)
    }
}

/// Number of set (in-use) bits in `bits` over the index range `[from, to)`.
pub open spec fn count_set(bits: Seq<bool>, from: int, to: int) -> int
    decreases to - from,
{
    if from >= to {
        0
    } else {
        (if bits[from] {
            1int
        } else {
            0int
        }) + count_set(bits, from + 1, to)
    }
}

/// Set and clear bits together exhaust the range.
pub proof fn lemma_count_set_clear_total(bits: Seq<bool>, from: int, to: int)
    requires
        from <= to,
    ensures
        count_set(bits, from, to) + count_clear(bits, from, to) == to - from,
    decreases to - from,
{
    if from < to {
        lemma_count_set_clear_total(bits, from + 1, to);
    }
}

/// The count of clear bits over a range of length `to - from` lies in
/// `[0, to - from]`.
pub proof fn lemma_count_clear_bounds(bits: Seq<bool>, from: int, to: int)
    ensures
        0 <= count_clear(bits, from, to) <= if to >= from {
            to - from
        } else {
            0
        },
    decreases to - from,
{
    if from < to {
        lemma_count_clear_bounds(bits, from + 1, to);
    }
}

/// Counting clear bits splits at any midpoint of the range.
pub proof fn lemma_count_clear_split(bits: Seq<bool>, from: int, mid: int, to: int)
    requires
        from <= mid <= to,
    ensures
        count_clear(bits, from, to) == count_clear(bits, from, mid) + count_clear(bits, mid, to),
    decreases mid - from,
{
    if from < mid {
        lemma_count_clear_split(bits, from + 1, mid, to);
    }
}

/// Writing one bit inside the counted range moves the count of clear bits by
/// exactly the difference the write makes at that index.
pub proof fn lemma_count_clear_update(bits: Seq<bool>, from: int, to: int, j: int, v: bool)
    requires
        from <= j < to,
        0 <= from,
        to <= bits.len(),
    ensures
        count_clear(bits.update(j, v), from, to) == count_clear(bits, from, to) + (if v {
            0int
        } else {
            1int
        }) - (if bits[j] {
            0int
        } else {
            1int
        }),
    decreases j - from,
{
    if from < j {
        lemma_count_clear_update(bits, from + 1, to, j, v);
    } else {
        assert(count_clear(bits.update(j, v), j + 1, to) == count_clear(bits, j + 1, to)) by {
            lemma_count_clear_agree(bits, bits.update(j, v), j + 1, to);
        }
    }
}

/// Two bit sequences that agree on a range have the same count of clear bits
/// over it.
pub proof fn lemma_count_clear_agree(a: Seq<bool>, b: Seq<bool>, from: int, to: int)
    requires
        forall|i: int| from <= i < to ==> a[i] == b[i],
    ensures
        count_clear(a, from, to) == count_clear(b, from, to),
    decreases to - from,
{
    if from < to {
        lemma_count_clear_agree(a, b, from + 1, to);
    }
}

/// A range whose bits are all set holds no clear bit.
pub proof fn lemma_count_clear_all_set(bits: Seq<bool>, from: int, to: int)
    requires
        forall|i: int| from <= i < to ==> bits[i],
    ensures
        count_clear(bits, from, to) == 0,
    decreases to - from,
{
    if from < to {
        lemma_count_clear_all_set(bits, from + 1, to);
    }
}

/// A range whose bits are all clear counts its full length as free.
pub proof fn lemma_count_clear_all_clear(bits: Seq<bool>, from: int, to: int)
    requires
        from <= to,
        forall|i: int| from <= i < to ==> !bits[i],
    ensures
        count_clear(bits, from, to) == to - from,
    decreases to - from,
{
    if from < to {
        lemma_count_clear_all_clear(bits, from + 1, to);
    }
}

/// A clear bit inside the range makes the count of clear bits positive.
pub proof fn lemma_count_clear_at_least_one(bits: Seq<bool>, from: int, to: int, j: int)
    requires
        from <= j < to,
        !bits[j],
    ensures
        count_clear(bits, from, to) >= 1,
{
    lemma_count_clear_split(bits, from, j, to);
    lemma_count_clear_split(bits, j, j + 1, to);
    lemma_count_clear_bounds(bits, from, j);
    lemma_count_clear_bounds(bits, j + 1, to);
}

/// A set bit inside the range keeps the count of clear bits strictly under
/// the range's length.
pub proof fn lemma_count_clear_below_cap(bits: Seq<bool>, from: int, to: int, j: int)
    requires
        from <= j < to,
        bits[j],
    ensures
        count_clear(bits, from, to) <= to - from - 1,
{
    lemma_count_clear_split(bits, from, j, to);
    lemma_count_clear_split(bits, j, j + 1, to);
    lemma_count_clear_bounds(bits, from, j);
    lemma_count_clear_bounds(bits, j + 1, to);
}

/// What marking `idx` in use does: an index outside `[reserved, max)` is
/// refused as restricted and an index already in use as already allocated,
/// both leaving every bit unchanged; a clear in-range bit is set and nothing
/// else moves.
pub open spec fn set_alloc_resolves(
    pre: Seq<bool>,
    reserved: usize,
    max: usize,
    idx: usize,
    post: Seq<bool>,
    r: Result<(), BitMapError>,
) -> bool {
    &&& (idx < reserved || idx >= max) ==> r == Err::<(), BitMapError>(BitMapError::RestrictedEntry)
        && post == pre
    &&& (reserved <= idx < max && pre[idx as int]) ==> r == Err::<(), BitMapError>(
        BitMapError::AlreadyAlloced,
    ) && post == pre
    &&& (reserved <= idx < max && !pre[idx as int]) ==> r == Ok::<(), BitMapError>(()) && post
        == pre.update(idx as int, true)
}

/// What marking `idx` free does: restricted indices and bits already clear
/// are refused with every bit unchanged; a set in-range bit is cleared and
/// nothing else moves.
pub open spec fn set_free_resolves(
    pre: Seq<bool>,
    reserved: usize,
    max: usize,
    idx: usize,
    post: Seq<bool>,
    r: Result<(), BitMapError>,
) -> bool {
    &&& (idx < reserved || idx >= max) ==> r == Err::<(), BitMapError>(BitMapError::RestrictedEntry)
        && post == pre
    &&& (reserved <= idx < max && !pre[idx as int]) ==> r == Err::<(), BitMapError>(
        BitMapError::AlreadyFree,
    ) && post == pre
    &&& (reserved <= idx < max && pre[idx as int]) ==> r == Ok::<(), BitMapError>(()) && post
        == pre.update(idx as int, false)
}

/// What a first-fit scan returns: the lowest clear bit of `[reserved, max)`,
/// or nothing when that whole range is in use.
pub open spec fn find_first_free_resolves(
    bits: Seq<bool>,
    reserved: usize,
    max: usize,
    r: Option<usize>,
) -> bool {
    match r {
        Some(idx) => {
            &&& reserved <= idx < max
            &&& !bits[idx as int]
            &&& forall|j: int| reserved <= j < idx ==> bits[j]
        },
        None => forall|j: int| reserved <= j < max ==> bits[j],
    }
}

/// Free/used tracking over `max` bits with the prefix `[0, reserved)` held
/// back from allocation. The bit order is the index order of the objects it
/// tracks.
pub struct FreeObjectBitmap {
    bits: BitStorage,
    reserved: usize,
    max: usize,
}

impl View for FreeObjectBitmap {
    type V = Seq<bool>;

    closed spec fn view(&self) -> Seq<bool> {
        bit_seq(self.bits)
    }
}

impl FreeObjectBitmap {
    pub closed spec fn spec_reserved(&self) -> usize {
        self.reserved
    }

    pub closed spec fn spec_max(&self) -> usize {
        self.max
    }

    pub open spec fn wf(&self) -> bool {
        &&& self@.len() == self.spec_max()
        &&& self.spec_reserved() <= self.spec_max()
    }

    /// A bitmap of `max` bits whose reserved prefix `[0, reserved)` is
    /// pre-marked in use and whose remaining bits are all free.
    pub fn new(reserved: usize, max: usize) -> (r: Self)
        requires
            reserved <= max,
        ensures
            r.wf(),
            r.spec_reserved() == reserved,
            r.spec_max() == max,
            forall|i: int| 0 <= i < reserved ==> r@[i],
            forall|i: int| reserved <= i < max ==> !r@[i],
    {
        let mut bits = bv_repeat(false, max);
        let mut i: usize = 0;
        while i < reserved
            invariant
                i <= reserved <= max,
                bit_seq(bits).len() == max,
                forall|j: int| 0 <= j < i ==> bit_seq(bits)[j],
                forall|j: int| i <= j < max ==> !bit_seq(bits)[j],
            decreases reserved - i,
        {
            bv_set(&mut bits, i, true);
            i = i + 1;
        }
        FreeObjectBitmap { bits, reserved, max }
    }

    /// Lowest index in `[reserved, max)` whose bit is clear, or `None` when
    /// the whole allocatable range is in use.
    pub fn find_first_free(&self) -> (r: Option<usize>)
        requires
            self.wf(),
        ensures
            find_first_free_resolves(self@, self.spec_reserved(), self.spec_max(), r),
    {
        let mut idx: usize = self.reserved;
        while idx < self.max
            invariant
                self.wf(),
                self.spec_reserved() <= idx <= self.spec_max(),
                forall|j: int| self.spec_reserved() <= j < idx ==> self@[j],
            decreases self.max - idx,
        {
            if !bv_get(&self.bits, idx) {
                return Some(idx);
            }
            idx = idx + 1;
        }
        None
    }

    /// Marks `idx` in use: refused as restricted outside `[reserved, max)`
    /// and as already allocated when the bit is set, with no bit changed in
    /// either case.
    pub fn set_alloc(&mut self, idx: usize) -> (r: Result<(), BitMapError>)
        requires
            old(self).wf(),
        ensures
            final(self).wf(),
            final(self).spec_reserved() == old(self).spec_reserved(),
            final(self).spec_max() == old(self).spec_max(),
            set_alloc_resolves(
                old(self)@,
                old(self).spec_reserved(),
                old(self).spec_max(),
                idx,
                final(self)@,
                r,
            ),
    {
        if idx < self.reserved || idx >= self.max {
            return Err(BitMapError::RestrictedEntry);
        }
        if bv_get(&self.bits, idx) {
            Err(BitMapError::AlreadyAlloced)
        } else {
            bv_set(&mut self.bits, idx, true);
            Ok(())
        }
    }

    /// Marks `idx` free: refused as restricted outside `[reserved, max)` and
    /// as already free when the bit is clear, with no bit changed in either
    /// case.
    pub fn set_free(&mut self, idx: usize) -> (r: Result<(), BitMapError>)
        requires
            old(self).wf(),
        ensures
            final(self).wf(),
            final(self).spec_reserved() == old(self).spec_reserved(),
            final(self).spec_max() == old(self).spec_max(),
            set_free_resolves(
                old(self)@,
                old(self).spec_reserved(),
                old(self).spec_max(),
                idx,
                final(self)@,
                r,
            ),
    {
        if idx < self.reserved || idx >= self.max {
            return Err(BitMapError::RestrictedEntry);
        }
        if !bv_get(&self.bits, idx) {
            Err(BitMapError::AlreadyFree)
        } else {
            bv_set(&mut self.bits, idx, false);
            Ok(())
        }
    }

    /// Reads the bit at `idx`, refusing an index outside `[reserved, max)`.
    pub fn is_alloced(&self, idx: usize) -> (r: Result<bool, BitMapError>)
        requires
            self.wf(),
        ensures
            (idx < self.spec_reserved() || idx >= self.spec_max()) ==> r == Err::<
                bool,
                BitMapError,
            >(BitMapError::RestrictedEntry),
            self.spec_reserved() <= idx < self.spec_max() ==> r == Ok::<bool, BitMapError>(
                self@[idx as int],
            ),
    {
        if idx < self.reserved || idx >= self.max {
            Err(BitMapError::RestrictedEntry)
        } else {
            Ok(bv_get(&self.bits, idx))
        }
    }

    /// Writes one bit with no regard for the reserved range: the raw
    /// state-injection hook that loading an existing bitmap needs.
    pub fn set_bit(&mut self, idx: usize, val: bool)
        requires
            old(self).wf(),
            idx < old(self).spec_max(),
        ensures
            final(self).wf(),
            final(self).spec_reserved() == old(self).spec_reserved(),
            final(self).spec_max() == old(self).spec_max(),
            final(self)@ == old(self)@.update(idx as int, val),
    {
        bv_set(&mut self.bits, idx, val);
    }

    /// Reads one bit with no regard for the reserved range.
    pub fn get_bit(&self, idx: usize) -> (r: bool)
        requires
            self.wf(),
            idx < self.spec_max(),
        ensures
            r == self@[idx as int],
    {
        bv_get(&self.bits, idx)
    }

    /// Writes every bit, the reserved prefix included.
    pub fn fill(&mut self, val: bool)
        requires
            old(self).wf(),
        ensures
            final(self).wf(),
            final(self).spec_reserved() == old(self).spec_reserved(),
            final(self).spec_max() == old(self).spec_max(),
            final(self)@ == Seq::new(old(self)@.len(), |i: int| val),
    {
        let mut i: usize = 0;
        while i < self.max
            invariant
                i <= self.spec_max(),
                self.wf(),
                self.spec_reserved() == old(self).spec_reserved(),
                self.spec_max() == old(self).spec_max(),
                forall|j: int| 0 <= j < i ==> self@[j] == val,
            decreases self.max - i,
        {
            bv_set(&mut self.bits, i, val);
            i = i + 1;
        }
        proof {
            assert(self@ =~= Seq::new(old(self)@.len(), |i: int| val));
        }
    }
}

/// The free-block bitmap: one bit per data block, the metadata and bitmap
/// storage blocks held back.
pub struct FreeBlockBitmap {
    pub map: FreeObjectBitmap,
}

impl Default for FreeBlockBitmap {
    /// A fresh block bitmap: the reserved blocks in use, all others free.
    fn default() -> (r: Self)
        ensures
            r.map.wf(),
            r.map.spec_reserved() == RESERVED_DATA_BLKS as usize,
            r.map.spec_max() == NUM_DATA_BLKS as usize,
            forall|i: int| 0 <= i < RESERVED_DATA_BLKS ==> r.map@[i],
            forall|i: int| RESERVED_DATA_BLKS <= i < NUM_DATA_BLKS ==> !r.map@[i],
    {
        FreeBlockBitmap {
            map: FreeObjectBitmap::new(RESERVED_DATA_BLKS as usize, NUM_DATA_BLKS as usize),
        }
    }
}

impl FreeBlockBitmap {
    /// First-fit scan of the block bitmap.
    pub fn find_first_free(&self) -> (r: Option<usize>)
        requires
            self.map.wf(),
        ensures
            find_first_free_resolves(self.map@, self.map.spec_reserved(), self.map.spec_max(), r),
    {
        self.map.find_first_free()
    }

    /// Marks one block in use, refusing restricted and already-set indices.
    pub fn set_alloc(&mut self, idx: usize) -> (r: Result<(), BitMapError>)
        requires
            old(self).map.wf(),
        ensures
            final(self).map.wf(),
            final(self).map.spec_reserved() == old(self).map.spec_reserved(),
            final(self).map.spec_max() == old(self).map.spec_max(),
            set_alloc_resolves(
                old(self).map@,
                old(self).map.spec_reserved(),
                old(self).map.spec_max(),
                idx,
                final(self).map@,
                r,
            ),
    {
        self.map.set_alloc(idx)
    }

    /// Marks one block free, refusing restricted and already-clear indices.
    pub fn set_free(&mut self, idx: usize) -> (r: Result<(), BitMapError>)
        requires
            old(self).map.wf(),
        ensures
            final(self).map.wf(),
            final(self).map.spec_reserved() == old(self).map.spec_reserved(),
            final(self).map.spec_max() == old(self).map.spec_max(),
            set_free_resolves(
                old(self).map@,
                old(self).map.spec_reserved(),
                old(self).map.spec_max(),
                idx,
                final(self).map@,
                r,
            ),
    {
        self.map.set_free(idx)
    }

    /// Reads one block's bit, refusing restricted indices.
    pub fn is_alloced(&self, idx: usize) -> (r: Result<bool, BitMapError>)
        requires
            self.map.wf(),
        ensures
            (idx < self.map.spec_reserved() || idx >= self.map.spec_max()) ==> r == Err::<
                bool,
                BitMapError,
            >(BitMapError::RestrictedEntry),
            self.map.spec_reserved() <= idx < self.map.spec_max() ==> r == Ok::<bool, BitMapError>(
                self.map@[idx as int],
            ),
    {
        self.map.is_alloced(idx)
    }
}

/// The free-inode bitmap: one bit per inode id, the null sentinel and the
/// root id held back.
pub struct FreeInodeBitmap {
    pub map: FreeObjectBitmap,
}

impl Default for FreeInodeBitmap {
    /// A fresh inode bitmap: the reserved inode ids in use, all others free.
    fn default() -> (r: Self)
        ensures
            r.map.wf(),
            r.map.spec_reserved() == RESERVED_INODES as usize,
            r.map.spec_max() == MAX_NUM_INODES as usize,
            forall|i: int| 0 <= i < RESERVED_INODES ==> r.map@[i],
            forall|i: int| RESERVED_INODES <= i < MAX_NUM_INODES ==> !r.map@[i],
    {
        FreeInodeBitmap {
            map: FreeObjectBitmap::new(RESERVED_INODES as usize, MAX_NUM_INODES as usize),
        }
    }
}

impl FreeInodeBitmap {
    /// First-fit scan of the inode bitmap.
    pub fn find_first_free(&self) -> (r: Option<usize>)
        requires
            self.map.wf(),
        ensures
            find_first_free_resolves(self.map@, self.map.spec_reserved(), self.map.spec_max(), r),
    {
        self.map.find_first_free()
    }

    /// Marks one inode id in use, refusing restricted and already-set
    /// indices.
    pub fn set_alloc(&mut self, idx: usize) -> (r: Result<(), BitMapError>)
        requires
            old(self).map.wf(),
        ensures
            final(self).map.wf(),
            final(self).map.spec_reserved() == old(self).map.spec_reserved(),
            final(self).map.spec_max() == old(self).map.spec_max(),
            set_alloc_resolves(
                old(self).map@,
                old(self).map.spec_reserved(),
                old(self).map.spec_max(),
                idx,
                final(self).map@,
                r,
            ),
    {
        self.map.set_alloc(idx)
    }

    /// Marks one inode id free, refusing restricted and already-clear
    /// indices.
    pub fn set_free(&mut self, idx: usize) -> (r: Result<(), BitMapError>)
        requires
            old(self).map.wf(),
        ensures
            final(self).map.wf(),
            final(self).map.spec_reserved() == old(self).map.spec_reserved(),
            final(self).map.spec_max() == old(self).map.spec_max(),
            set_free_resolves(
                old(self).map@,
                old(self).map.spec_reserved(),
                old(self).map.spec_max(),
                idx,
                final(self).map@,
                r,
            ),
    {
        self.map.set_free(idx)
    }

    /// Reads one inode id's bit, refusing restricted indices.
    pub fn is_alloced(&self, idx: usize) -> (r: Result<bool, BitMapError>)
        requires
            self.map.wf(),
        ensures
            (idx < self.map.spec_reserved() || idx >= self.map.spec_max()) ==> r == Err::<
                bool,
                BitMapError,
            >(BitMapError::RestrictedEntry),
            self.map.spec_reserved() <= idx < self.map.spec_max() ==> r == Ok::<bool, BitMapError>(
                self.map@[idx as int],
            ),
    {
        self.map.is_alloced(idx)
    }
}

} // verus!
