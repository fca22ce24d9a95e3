//! In-memory storage-management core of a Unix-style filesystem: bitmap
//! allocators for inodes and data blocks, superblock counters kept in
//! lock-step with the bitmaps, inodes with a direct/indirect block-pointer
//! tree, a fixed-capacity directory codec, and the filesystem state that
//! coordinates them.

pub mod addr;
pub mod bitmap;
pub mod directory;
pub mod inode;
pub mod metadata;
pub mod state;
