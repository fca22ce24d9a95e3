use rusty_file_system::directory::{
    new_dir_with_entries, DirEntry, Directory, DirectoryError, DIR_SIZE_LEN, MAX_FILENAME_LEN,
};

// Directory entry round-trip at the maximum length, one past it, and empty.
#[test]
fn dir_entry_round_trip_at_boundaries() {
    let max_name = "x".repeat(MAX_FILENAME_LEN);
    let entry = DirEntry::new(7, &max_name).unwrap();
    assert_eq!(entry.name_str().unwrap(), max_name);

    let too_long = "x".repeat(MAX_FILENAME_LEN + 1);
    assert!(matches!(
        DirEntry::new(7, &too_long),
        Err(DirectoryError::NameTooLong)
    ));

    assert!(matches!(
        DirEntry::new(7, ""),
        Err(DirectoryError::NameEmpty)
    ));
}

#[test]
fn dir_entry_keeps_id_and_exact_length() {
    let entry = DirEntry::new(42, "hello.txt").unwrap();
    assert_eq!(entry.ino_id, 42);
    assert_eq!(entry.name_len, 9);
    assert_eq!(entry.name.len(), MAX_FILENAME_LEN);
    assert_eq!(entry.name_str().unwrap(), "hello.txt");
}

#[test]
fn dir_entry_round_trips_multibyte_names() {
    let name = "f\u{00e9}\u{4e2d}\u{1f600}";
    let entry = DirEntry::new(3, name).unwrap();
    assert_eq!(entry.name_len as usize, name.len());
    assert_eq!(entry.name_str().unwrap(), name);
}

// The encoding length, not the character count, is what the limit bounds.
#[test]
fn dir_entry_length_limit_counts_bytes() {
    let name = "\u{4e2d}".repeat(85); // 3 bytes each: 255 bytes
    let entry = DirEntry::new(1, &name).unwrap();
    assert_eq!(entry.name_len as usize, 255);
    let over = "\u{4e2d}".repeat(86); // 258 bytes
    assert!(matches!(
        DirEntry::new(1, &over),
        Err(DirectoryError::NameTooLong)
    ));
}

#[test]
fn dir_entry_name_str_rejects_malformed_bytes() {
    let mut name = vec![0u8; MAX_FILENAME_LEN];
    name[0] = 0xff;
    name[1] = 0xfe;
    let entry = DirEntry {
        ino_id: 1,
        name_len: 2,
        name,
    };
    assert!(matches!(
        entry.name_str(),
        Err(DirectoryError::InvalidUtf8)
    ));
}

#[test]
fn set_entries_rejects_an_oversized_array() {
    let mut dir = Directory::default();
    let entries: Vec<Option<DirEntry>> = (0..DIR_SIZE_LEN + 1)
        .map(|i| Some(DirEntry::new(i as u32 + 2, "f").unwrap()))
        .collect();
    assert!(matches!(
        dir.set_entries(entries),
        Err(DirectoryError::NoEmptySlot)
    ));
}

#[test]
fn set_entries_replaces_and_pads_with_free_slots() {
    let mut dir = Directory::default();
    let entries = vec![
        Some(DirEntry::new(2, "a").unwrap()),
        None,
        Some(DirEntry::new(3, "b").unwrap()),
    ];
    assert!(dir.set_entries(entries).is_ok());
    assert_eq!(dir.find_entry("a"), Some(0));
    assert_eq!(dir.find_entry("b"), Some(2));
    assert_eq!(dir.find_entry("c"), None);
}

#[test]
fn new_dir_with_entries_builds_or_refuses() {
    let entries = vec![Some(DirEntry::new(2, "a").unwrap())];
    let dir = new_dir_with_entries(entries).unwrap();
    assert_eq!(dir.find_entry("a"), Some(0));

    let too_many: Vec<Option<DirEntry>> = (0..DIR_SIZE_LEN + 1).map(|_| None).collect();
    assert!(matches!(
        new_dir_with_entries(too_many),
        Err(DirectoryError::NoEmptySlot)
    ));
}

#[test]
fn add_entry_takes_lowest_free_slot_without_disturbing_others() {
    let mut dir = Directory::default();
    let slot_a = dir.add_entry(DirEntry::new(2, "a").unwrap()).unwrap();
    let slot_b = dir.add_entry(DirEntry::new(3, "b").unwrap()).unwrap();
    assert_eq!(slot_a, 0);
    assert_eq!(slot_b, 1);

    assert!(dir.remove_entry("a").is_some());
    let slot_c = dir.add_entry(DirEntry::new(4, "c").unwrap()).unwrap();
    assert_eq!(slot_c, 0);
    assert_eq!(dir.find_entry("b"), Some(1));
}

#[test]
fn add_entry_refuses_a_full_directory() {
    let mut dir = Directory::default();
    for i in 0..DIR_SIZE_LEN {
        let name = format!("f{}", i);
        dir.add_entry(DirEntry::new(i as u32 + 2, &name).unwrap())
            .unwrap();
    }
    let r = dir.add_entry(DirEntry::new(99, "overflow").unwrap());
    assert!(matches!(r, Err(DirectoryError::NoEmptySlot)));
}

#[test]
fn remove_entry_frees_the_slot_and_returns_the_entry() {
    let mut dir = Directory::default();
    dir.add_entry(DirEntry::new(2, "keep").unwrap()).unwrap();
    dir.add_entry(DirEntry::new(3, "drop").unwrap()).unwrap();

    let removed = dir.remove_entry("drop").unwrap();
    assert_eq!(removed.ino_id, 3);
    assert_eq!(dir.find_entry("drop"), None);
    assert_eq!(dir.find_entry("keep"), Some(0));
    assert!(dir.remove_entry("drop").is_none());
}
