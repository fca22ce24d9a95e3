use rusty_file_system::addr::{
    AddrError, DBL_IND_BOUND, MAX_LOGICAL_BOUND, PTRS_PER_BLK, SINGLE_IND_BOUND, TRI_IND_BOUND,
};
use rusty_file_system::inode::{FileKind, Inode};
use rusty_file_system::state::{Block, FSState};

fn ptr_block(entries: &[(usize, u32)]) -> Block {
    let mut data = vec![0u8; 4096];
    for (i, v) in entries {
        data[4 * i..4 * i + 4].copy_from_slice(&v.to_le_bytes());
    }
    Block { data }
}

#[test]
fn logical_11_resolves_via_the_direct_table() {
    let state = FSState::default();
    let mut ino = Inode::new(2, FileKind::RegularFile, 0o644);
    ino.direct_blks[11] = 77;
    assert_eq!(state.resolve_blk(&ino, 11), Ok(Some(77)));
}

#[test]
fn logical_12_is_the_first_singly_indirect_block() {
    let mut state = FSState::default();
    state.blks[5] = Some(ptr_block(&[(0, 88)]));
    let mut ino = Inode::new(2, FileKind::RegularFile, 0o644);
    ino.direct_blks[11] = 77;
    ino.indirect_blk = 5;
    assert_eq!(state.resolve_blk(&ino, SINGLE_IND_BOUND), Ok(Some(88)));
}

#[test]
fn last_singly_indirect_block_reads_the_final_pointer() {
    let mut state = FSState::default();
    let last = PTRS_PER_BLK as usize - 1;
    state.blks[5] = Some(ptr_block(&[(last, 123)]));
    let mut ino = Inode::new(2, FileKind::RegularFile, 0o644);
    ino.indirect_blk = 5;
    assert_eq!(state.resolve_blk(&ino, DBL_IND_BOUND - 1), Ok(Some(123)));
}

#[test]
fn first_doubly_indirect_block_walks_two_levels() {
    let mut state = FSState::default();
    state.blks[5] = Some(ptr_block(&[(0, 6)]));
    state.blks[6] = Some(ptr_block(&[(0, 99)]));
    let mut ino = Inode::new(2, FileKind::RegularFile, 0o644);
    ino.dbl_indirect_blk = 5;
    assert_eq!(state.resolve_blk(&ino, DBL_IND_BOUND), Ok(Some(99)));
}

// A logical block at 12 + P + P^2 is the first to require the triply-indirect
// table.
#[test]
fn first_triply_indirect_block_walks_three_levels() {
    let mut state = FSState::default();
    state.blks[5] = Some(ptr_block(&[(0, 6)]));
    state.blks[6] = Some(ptr_block(&[(0, 7)]));
    state.blks[7] = Some(ptr_block(&[(0, 111)]));
    let mut ino = Inode::new(2, FileKind::RegularFile, 0o644);
    ino.tri_indirect_blk = 5;
    assert_eq!(
        TRI_IND_BOUND,
        12 + PTRS_PER_BLK + PTRS_PER_BLK * PTRS_PER_BLK
    );
    assert_eq!(state.resolve_blk(&ino, TRI_IND_BOUND), Ok(Some(111)));
    // One block earlier still resolves through the doubly-indirect tree.
    state.blks[8] = Some(ptr_block(&[(PTRS_PER_BLK as usize - 1, 9)]));
    state.blks[9] = Some(ptr_block(&[(PTRS_PER_BLK as usize - 1, 222)]));
    ino.dbl_indirect_blk = 8;
    assert_eq!(state.resolve_blk(&ino, TRI_IND_BOUND - 1), Ok(Some(222)));
}

#[test]
fn sentinel_pointers_read_as_holes() {
    let mut state = FSState::default();
    let ino = Inode::new(2, FileKind::RegularFile, 0o644);
    // Fresh inode: every range is a hole.
    assert_eq!(state.resolve_blk(&ino, 0), Ok(None));
    assert_eq!(state.resolve_blk(&ino, 11), Ok(None));
    assert_eq!(state.resolve_blk(&ino, 12), Ok(None));
    assert_eq!(state.resolve_blk(&ino, DBL_IND_BOUND), Ok(None));
    assert_eq!(state.resolve_blk(&ino, TRI_IND_BOUND), Ok(None));

    // A pointer block whose entry is the sentinel is a hole one level down.
    state.blks[5] = Some(ptr_block(&[]));
    let mut ino2 = Inode::new(2, FileKind::RegularFile, 0o644);
    ino2.indirect_blk = 5;
    assert_eq!(state.resolve_blk(&ino2, 12), Ok(None));
}

#[test]
fn out_of_range_logical_block_is_a_fatal_request_error() {
    let state = FSState::default();
    let ino = Inode::new(2, FileKind::RegularFile, 0o644);
    assert_eq!(
        state.resolve_blk(&ino, MAX_LOGICAL_BOUND),
        Err(AddrError::LogicalBlockOutOfRange)
    );
    assert_eq!(
        state.resolve_blk(&ino, u64::MAX),
        Err(AddrError::LogicalBlockOutOfRange)
    );
}

#[test]
fn a_pointer_to_an_absent_block_is_reported_corrupt() {
    let state = FSState::default();
    let mut ino = Inode::new(2, FileKind::RegularFile, 0o644);
    ino.indirect_blk = 5; // no block behind it
    assert_eq!(
        state.resolve_blk(&ino, 12),
        Err(AddrError::BadPointerBlock)
    );
}

use rusty_file_system::addr::GrowError;
use rusty_file_system::bitmap::{FreeBlockBitmap, FreeInodeBitmap};
use rusty_file_system::metadata::{FSMetadata, MAX_NUM_INODES, NUM_DATA_BLKS, RESERVED_DATA_BLKS};

#[test]
fn grow_direct_links_a_fresh_zeroed_block() {
    let mut state = FSState::default();
    let id = state.alloc_inode(FileKind::RegularFile, 0o644).unwrap();
    let free_before = state.metadata.free_blk_count;

    let blk = state.ensure_blk(id, 0).unwrap();
    assert_eq!(blk, RESERVED_DATA_BLKS);
    assert_eq!(state.metadata.free_blk_count, free_before - 1);

    let ino = *state.get_ino_ref(id).unwrap();
    assert_eq!(ino.direct_blks[0], blk);
    assert_eq!(ino.blocks, 1);
    assert_eq!(state.resolve_blk(&ino, 0), Ok(Some(blk)));
    assert!(state.blks[blk as usize]
        .as_ref()
        .unwrap()
        .data
        .iter()
        .all(|b| *b == 0));
}

#[test]
fn grow_single_builds_the_pointer_table_first() {
    let mut state = FSState::default();
    let id = state.alloc_inode(FileKind::RegularFile, 0o644).unwrap();
    let free_before = state.metadata.free_blk_count;

    let blk = state.ensure_blk(id, SINGLE_IND_BOUND).unwrap();
    // One pointer-table block and one data block came off the free count.
    assert_eq!(state.metadata.free_blk_count, free_before - 2);

    let ino = *state.get_ino_ref(id).unwrap();
    assert_ne!(ino.indirect_blk, 0);
    assert_ne!(ino.indirect_blk, blk);
    assert_eq!(ino.blocks, 2);
    assert_eq!(state.resolve_blk(&ino, SINGLE_IND_BOUND), Ok(Some(blk)));
}

#[test]
fn grow_is_idempotent_on_an_existing_block() {
    let mut state = FSState::default();
    let id = state.alloc_inode(FileKind::RegularFile, 0o644).unwrap();
    let blk = state.ensure_blk(id, 20).unwrap();
    let free_after = state.metadata.free_blk_count;
    let again = state.ensure_blk(id, 20).unwrap();
    assert_eq!(again, blk);
    assert_eq!(state.metadata.free_blk_count, free_after);
}

#[test]
fn grow_triple_allocates_the_whole_chain() {
    let mut state = FSState::default();
    let id = state.alloc_inode(FileKind::RegularFile, 0o644).unwrap();
    let free_before = state.metadata.free_blk_count;

    let blk = state.ensure_blk(id, TRI_IND_BOUND).unwrap();
    // Three pointer-table blocks and one data block.
    assert_eq!(state.metadata.free_blk_count, free_before - 4);

    let ino = *state.get_ino_ref(id).unwrap();
    assert_ne!(ino.tri_indirect_blk, 0);
    assert_eq!(ino.blocks, 4);
    assert_eq!(state.resolve_blk(&ino, TRI_IND_BOUND), Ok(Some(blk)));

    // Growing the neighbour in the same leaf table costs one more block.
    let blk2 = state.ensure_blk(id, TRI_IND_BOUND + 1).unwrap();
    assert_ne!(blk2, blk);
    assert_eq!(state.metadata.free_blk_count, free_before - 5);
    let ino = *state.get_ino_ref(id).unwrap();
    assert_eq!(state.resolve_blk(&ino, TRI_IND_BOUND + 1), Ok(Some(blk2)));
    assert_eq!(state.resolve_blk(&ino, TRI_IND_BOUND), Ok(Some(blk)));
}

#[test]
fn grow_refuses_when_the_budget_falls_short() {
    // A state with exactly one free block left, needing two for the growth.
    let mut metadata = FSMetadata::default();
    metadata.free_blk_count = 1;
    let inode_bitmap = FreeInodeBitmap::default();
    let mut inodes = vec![None; MAX_NUM_INODES as usize];
    inodes[2] = Some(Inode::new(2, FileKind::RegularFile, 0o644));
    let mut blk_bitmap = FreeBlockBitmap::default();
    blk_bitmap.map.fill(true);
    blk_bitmap.map.set_bit(100, false);
    let blks = (0..NUM_DATA_BLKS).map(|_| None).collect();
    let mut state = FSState::new(metadata, inode_bitmap, inodes, blk_bitmap, blks);

    let r = state.ensure_blk(2, SINGLE_IND_BOUND);
    assert!(matches!(r, Err(GrowError::NoFreeBlocks)));
    assert_eq!(state.metadata.free_blk_count, 1);
    assert_eq!(state.get_ino_ref(2).unwrap().indirect_blk, 0);

    // The one remaining block still covers a direct-range growth.
    let blk = state.ensure_blk(2, 3).unwrap();
    assert_eq!(blk, 100);
    assert_eq!(state.metadata.free_blk_count, 0);
}

#[test]
fn grow_reports_missing_inode_and_range_errors() {
    let mut state = FSState::default();
    assert!(matches!(
        state.ensure_blk(2, 0),
        Err(GrowError::InodeNotFound)
    ));
    assert!(matches!(
        state.ensure_blk(MAX_NUM_INODES + 7, 0),
        Err(GrowError::InodeNotFound)
    ));
    let id = state.alloc_inode(FileKind::RegularFile, 0o644).unwrap();
    assert!(matches!(
        state.ensure_blk(id, MAX_LOGICAL_BOUND),
        Err(GrowError::LogicalBlockOutOfRange)
    ));
}

#[test]
fn grow_refuses_a_corrupt_pointer_table() {
    let mut state = FSState::default();
    let id = state.alloc_inode(FileKind::RegularFile, 0o644).unwrap();
    let mut ino = *state.get_ino_ref(id).unwrap();
    ino.indirect_blk = 9; // nothing behind it
    state.inodes[id as usize] = Some(ino);
    assert!(matches!(
        state.ensure_blk(id, SINGLE_IND_BOUND),
        Err(GrowError::BadPointerBlock)
    ));
}
