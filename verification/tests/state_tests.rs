use rusty_file_system::bitmap::{BitMapError, FreeBlockBitmap, FreeInodeBitmap};
use rusty_file_system::inode::{FileKind, Inode, InodeError, ROOT_INO};
use rusty_file_system::metadata::{
    FSMetadata, MAX_NUM_INODES, NUM_DATA_BLKS, RESERVED_DATA_BLKS, RESERVED_INODES,
};
use rusty_file_system::state::{FSState, FSStateError};

// Allocate/free round-trip: a fresh state hands out the first unreserved id,
// and first-fit reuse hands the same id out again after a free.
#[test]
fn alloc_free_realloc_reuses_first_fit_id() {
    let mut state = FSState::default();
    let id = state.alloc_inode(FileKind::RegularFile, 0o644).unwrap();
    assert_eq!(id, RESERVED_INODES);
    assert!(state.free_inode(id).is_ok());
    let again = state.alloc_inode(FileKind::RegularFile, 0o644).unwrap();
    assert_eq!(again, id);
}

// Sequential allocation: three consecutive calls on a fresh state.
#[test]
fn sequential_allocation_returns_consecutive_ids() {
    let mut state = FSState::default();
    let a = state.alloc_inode(FileKind::RegularFile, 0o644).unwrap();
    let b = state.alloc_inode(FileKind::Directory, 0o755).unwrap();
    let c = state.alloc_inode(FileKind::Symlink, 0o777).unwrap();
    assert_eq!(a, RESERVED_INODES);
    assert_eq!(b, RESERVED_INODES + 1);
    assert_eq!(c, RESERVED_INODES + 2);
}

// Exhaustion: every allocatable inode succeeds, the next call fails, and the
// free count reads zero at that point.
#[test]
fn inode_exhaustion_fails_with_no_free_inodes() {
    let mut state = FSState::default();
    for i in 0..(MAX_NUM_INODES - RESERVED_INODES) {
        let id = state.alloc_inode(FileKind::RegularFile, 0o644).unwrap();
        assert_eq!(id, RESERVED_INODES + i);
    }
    assert_eq!(state.metadata.free_ino_count, 0);
    let r = state.alloc_inode(FileKind::RegularFile, 0o644);
    assert!(matches!(r, Err(InodeError::NoFreeInodesOnAlloc)));
    assert_eq!(state.metadata.free_ino_count, 0);
}

fn set_inode_bits(state: &FSState) -> u32 {
    let mut set = 0;
    for i in RESERVED_INODES as usize..MAX_NUM_INODES as usize {
        if state.inode_bitmap.map.get_bit(i) {
            set += 1;
        }
    }
    set
}

fn set_block_bits(state: &FSState) -> u32 {
    let mut set = 0;
    for i in RESERVED_DATA_BLKS as usize..NUM_DATA_BLKS as usize {
        if state.blk_bitmap.map.get_bit(i) {
            set += 1;
        }
    }
    set
}

// Counter/bitmap agreement: after a mixed sequence of alloc/free calls, the
// set bits in the allocatable range equal capacity minus the free count, on
// both the inode and the block side.
#[test]
fn counters_agree_with_bitmaps_after_mixed_calls() {
    let mut state = FSState::default();
    let a = state.alloc_inode(FileKind::RegularFile, 0o644).unwrap();
    let _b = state.alloc_inode(FileKind::Directory, 0o755).unwrap();
    state.free_inode(a).unwrap();
    let _c = state.alloc_inode(FileKind::Symlink, 0o777).unwrap();
    let _d = state.alloc_inode(FileKind::RegularFile, 0o600).unwrap();
    let blk = state.alloc_blk().unwrap();
    let _blk2 = state.alloc_blk().unwrap();
    state.free_blk(blk).unwrap();

    assert_eq!(
        set_inode_bits(&state),
        (MAX_NUM_INODES - RESERVED_INODES) - state.metadata.free_ino_count
    );
    assert_eq!(
        set_block_bits(&state),
        (NUM_DATA_BLKS - RESERVED_DATA_BLKS) - state.metadata.free_blk_count
    );
}

#[test]
fn alloc_inode_fills_table_slot_with_fresh_inode() {
    let mut state = FSState::default();
    let id = state.alloc_inode(FileKind::Directory, 0o755).unwrap();
    let ino = state.get_ino_ref(id).unwrap();
    assert_eq!(ino.ino_id, id);
    assert_eq!(ino.kind, FileKind::Directory);
    assert_eq!(ino.perm, 0o755);
    assert_eq!(ino.size, 0);
    assert_eq!(ino.blocks, 0);
    assert!(ino.direct_blks.iter().all(|p| *p == 0));
    assert_eq!(ino.indirect_blk, 0);
    assert_eq!(ino.dbl_indirect_blk, 0);
    assert_eq!(ino.tri_indirect_blk, 0);
}

#[test]
fn free_inode_rejects_restricted_and_free_ids() {
    let mut state = FSState::default();
    assert!(matches!(state.free_inode(0), Err(InodeError::InvalidInoId)));
    assert!(matches!(
        state.free_inode(ROOT_INO),
        Err(InodeError::InvalidInoId)
    ));
    assert!(matches!(
        state.free_inode(MAX_NUM_INODES),
        Err(InodeError::InvalidInoId)
    ));
    assert!(matches!(
        state.free_inode(5),
        Err(InodeError::BitmapError(BitMapError::AlreadyFree))
    ));
    assert_eq!(
        state.metadata.free_ino_count,
        MAX_NUM_INODES - RESERVED_INODES
    );
}

#[test]
fn free_inode_clears_table_slot() {
    let mut state = FSState::default();
    let id = state.alloc_inode(FileKind::RegularFile, 0o644).unwrap();
    state.free_inode(id).unwrap();
    assert!(matches!(
        state.get_ino_ref(id),
        Err(FSStateError::InodeError(InodeError::InodeNotFound))
    ));
}

#[test]
fn alloc_blk_returns_first_unreserved_zeroed_block() {
    let mut state = FSState::default();
    let id = state.alloc_blk().unwrap();
    assert_eq!(id, RESERVED_DATA_BLKS);
    assert_eq!(
        state.metadata.free_blk_count,
        NUM_DATA_BLKS - RESERVED_DATA_BLKS - 1
    );
    let blk = state.blks[id as usize].as_ref().unwrap();
    assert_eq!(blk.data.len(), 4096);
    assert!(blk.data.iter().all(|b| *b == 0));
}

#[test]
fn free_blk_round_trip_and_errors() {
    let mut state = FSState::default();
    let id = state.alloc_blk().unwrap();
    assert!(state.free_blk(id).is_ok());
    assert!(state.blks[id as usize].is_none());
    assert_eq!(
        state.metadata.free_blk_count,
        NUM_DATA_BLKS - RESERVED_DATA_BLKS
    );
    assert!(matches!(
        state.free_blk(id),
        Err(BitMapError::AlreadyFree)
    ));
    assert!(matches!(
        state.free_blk(0),
        Err(BitMapError::RestrictedEntry)
    ));
    assert!(matches!(
        state.free_blk(NUM_DATA_BLKS),
        Err(BitMapError::RestrictedEntry)
    ));
}

// Exhausting the block side without a gigabyte of allocations: reassemble a
// state whose block bitmap is already full.
#[test]
fn alloc_blk_exhaustion_fails_with_no_free_entries() {
    let mut metadata = FSMetadata::default();
    metadata.free_blk_count = 0;
    let inode_bitmap = FreeInodeBitmap::default();
    let inodes = vec![None; MAX_NUM_INODES as usize];
    let mut blk_bitmap = FreeBlockBitmap::default();
    blk_bitmap.map.fill(true);
    let blks = (0..NUM_DATA_BLKS).map(|_| None).collect();
    let mut state = FSState::new(metadata, inode_bitmap, inodes, blk_bitmap, blks);
    let r = state.alloc_blk();
    assert!(matches!(r, Err(BitMapError::NoFreeEntriesOnAlloc)));
    assert_eq!(state.metadata.free_blk_count, 0);
}

#[test]
fn get_ino_ref_defends_against_missing_and_out_of_table_ids() {
    let state = FSState::default();
    assert!(matches!(
        state.get_ino_ref(2),
        Err(FSStateError::InodeError(InodeError::InodeNotFound))
    ));
    assert!(matches!(
        state.get_ino_ref(MAX_NUM_INODES + 100),
        Err(FSStateError::InodeError(InodeError::InodeNotFound))
    ));
}

#[test]
fn get_root_ino_ref_finds_installed_root() {
    let mut state = FSState::default();
    assert!(matches!(
        state.get_root_ino_ref(),
        Err(FSStateError::InodeError(InodeError::InodeNotFound))
    ));
    let root = rusty_file_system::inode::create_root_ino();
    state.inodes[ROOT_INO as usize] = Some(root);
    let got = state.get_root_ino_ref().unwrap();
    assert_eq!(got.ino_id, ROOT_INO);
    assert_eq!(got.kind, FileKind::Directory);
    assert_eq!(got.perm, 0o755);
}

#[test]
fn read_ino_alloc_installs_on_clear_bit_only() {
    let mut state = FSState::default();
    let ino = Inode::new(5, FileKind::RegularFile, 0o600);
    assert_eq!(state.read_ino_alloc(ino).unwrap(), 5);
    assert_eq!(state.get_ino_ref(5).unwrap().perm, 0o600);

    let restricted = Inode::new(0, FileKind::RegularFile, 0o600);
    assert!(matches!(
        state.read_ino_alloc(restricted),
        Err(InodeError::BitmapError(BitMapError::RestrictedEntry))
    ));

    let taken = state.alloc_inode(FileKind::RegularFile, 0o644).unwrap();
    let clash = Inode::new(taken, FileKind::RegularFile, 0o600);
    assert!(matches!(
        state.read_ino_alloc(clash),
        Err(InodeError::BitmapError(BitMapError::AlreadyAlloced))
    ));
}

#[test]
fn reassembled_state_keeps_its_parts() {
    let metadata = FSMetadata::default();
    let inode_bitmap = FreeInodeBitmap::default();
    let mut inodes: Vec<Option<Inode>> = vec![None; MAX_NUM_INODES as usize];
    inodes[3] = Some(Inode::new(3, FileKind::Symlink, 0o777));
    let blk_bitmap = FreeBlockBitmap::default();
    let blks = (0..NUM_DATA_BLKS).map(|_| None).collect();
    let state = FSState::new(metadata, inode_bitmap, inodes, blk_bitmap, blks);
    assert_eq!(state.get_ino_ref(3).unwrap().kind, FileKind::Symlink);
    assert_eq!(state.metadata.ino_count, MAX_NUM_INODES);
}
