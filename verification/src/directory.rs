//! Directory codec: fixed-size name-to-inode-id entry records, a directory
//! being a fixed-capacity array of optional entries sized so that the whole
//! array serializes into exactly one storage block.

use vstd::prelude::*;
use vstd::utf8::{decode_utf8, encode_utf8, valid_utf8};

verus! {

/// Longest filename, in bytes of its UTF-8 encoding.
pub const MAX_FILENAME_LEN: usize = 255;

/// Bytes of one serialized entry record: a 4-byte inode id, a 1-byte name
/// length, and the 255-byte name buffer.
pub const DIR_ENTRY_SIZE_BYTES: usize = 260;

/// Entry slots per directory: `BLK_SIZE_BYTES / DIR_ENTRY_SIZE_BYTES`, so a
/// full directory fits in one block.
pub const DIR_SIZE_LEN: usize = 15;

#[derive(Debug, PartialEq, Eq, Structural)]
pub enum DirectoryError {
    NameTooLong,
    NameEmpty,
    InvalidUtf8,
    NoEmptySlot,
}

/// One name-to-inode-id record. The name buffer is fixed at
/// [`MAX_FILENAME_LEN`] bytes; only the first `name_len` bytes are
/// significant, and they are required to decode as UTF-8.
#[derive(Clone, Debug, PartialEq)]
pub struct DirEntry {
    pub ino_id: u32,
    pub name_len: u8,
    pub name: Vec<u8>,
}

/// Relies on std::str::from_utf8, applied to the first `len` bytes of
/// `bytes`: it succeeds exactly on valid UTF-8 and returns the string those
/// bytes encode.
#[verifier::external_body]
fn prefix_to_str(bytes: &Vec<u8>, len: usize) -> (r: Option<&str>)
    requires
        len <= bytes@.len(),
    ensures
        match r {
            Some(s) => valid_utf8(bytes@.take(len as int)) && s@ == decode_utf8(
                bytes@.take(len as int),
            ),
            None => !valid_utf8(bytes@.take(len as int)),
        },
{
    std::str::from_utf8(&bytes[..len]).ok()
}

impl DirEntry {
    /// The significant prefix of the name buffer.
    pub open spec fn name_bytes(self) -> Seq<u8> {
        self.name@.take(self.name_len as int)
    }

    /// The buffer is full-size and the significant length is non-empty and
    /// within it.
    pub open spec fn wf(self) -> bool {
        &&& self.name@.len() == MAX_FILENAME_LEN
        &&& 1 <= self.name_len <= MAX_FILENAME_LEN
    }

    /// A new directory entry for the given inode id and name. An empty name
    /// and a name whose encoding exceeds [`MAX_FILENAME_LEN`] bytes are
    /// refused; otherwise the name's bytes are copied into the fixed buffer
    /// and their exact count recorded.
    pub fn new(ino_id: u32, name: &str) -> (r: Result<Self, DirectoryError>)
        ensures
            encode_utf8(name@).len() == 0 ==> r == Err::<DirEntry, DirectoryError>(
                DirectoryError::NameEmpty,
            ),
            encode_utf8(name@).len() > MAX_FILENAME_LEN ==> r == Err::<DirEntry, DirectoryError>(
                DirectoryError::NameTooLong,
            ),
            1 <= encode_utf8(name@).len() <= MAX_FILENAME_LEN ==> (r matches Ok(e) && {
                &&& e.wf()
                &&& e.ino_id == ino_id
                &&& e.name_len == encode_utf8(name@).len()
                &&& e.name_bytes() == encode_utf8(name@)
            }),
    {
        let name_bytes = name.as_bytes();

        if name_bytes.is_empty() {
            return Err(DirectoryError::NameEmpty);
        }
        if name_bytes.len() > MAX_FILENAME_LEN {
            return Err(DirectoryError::NameTooLong);
        }

        let mut buf: Vec<u8> = Vec::new();
        let mut i: usize = 0;
        while i < name_bytes.len()
            invariant
                i <= name_bytes@.len() <= MAX_FILENAME_LEN,
                buf@.len() == i,
                forall|j: int| 0 <= j < i ==> buf@[j] == name_bytes@[j],
            decreases name_bytes@.len() - i,
        {
            buf.push(name_bytes[i]);
            i = i + 1;
        }
        while buf.len() < MAX_FILENAME_LEN
            invariant
                name_bytes@.len() <= buf@.len() <= MAX_FILENAME_LEN,
                forall|j: int| 0 <= j < name_bytes@.len() ==> buf@[j] == name_bytes@[j],
            decreases MAX_FILENAME_LEN - buf@.len(),
        {
            buf.push(0);
        }
        proof {
            assert(buf@.take(name_bytes@.len() as int) =~= name_bytes@);
        }

        Ok(DirEntry { ino_id, name_len: name_bytes.len() as u8, name: buf })
    }

    /// Decodes the significant prefix of the name buffer as UTF-8; malformed
    /// content — which entries built by [`DirEntry::new`] never hold — is
    /// reported, not swallowed.
    pub fn name_str(&self) -> (r: Result<&str, DirectoryError>)
        requires
            self.wf(),
        ensures
            valid_utf8(self.name_bytes()) ==> (r matches Ok(s) && s@ == decode_utf8(
                self.name_bytes(),
            )),
            !valid_utf8(self.name_bytes()) ==> r matches Err(DirectoryError::InvalidUtf8),
    {
        match prefix_to_str(&self.name, self.name_len as usize) {
            Some(s) => Ok(s),
            None => Err(DirectoryError::InvalidUtf8),
        }
    }
}

/// Law: a directory entry round-trips its name. The stored prefix of an
/// entry built from a name is valid UTF-8 and decodes back to exactly that
/// name, so `name_str` on such an entry is owed success.
pub proof fn lemma_dir_entry_name_round_trip(name: Seq<char>, e: DirEntry)
    requires
        e.name_bytes() == encode_utf8(name),
    ensures
        valid_utf8(e.name_bytes()),
        decode_utf8(e.name_bytes()) == name,
{
    vstd::utf8::encode_utf8_valid_utf8(name);
    vstd::utf8::encode_utf8_decode_utf8(name);
}

/// Whether the slot holds an entry whose significant name bytes are exactly
/// `bytes`.
pub open spec fn slot_named(slot: Option<DirEntry>, bytes: Seq<u8>) -> bool {
    slot matches Some(e) && e.name_bytes() == bytes
}

/// One directory's contents: a fixed-length array of optional entries.
pub struct Directory {
    dir_entries: Vec<Option<DirEntry>>,
}

impl View for Directory {
    type V = Seq<Option<DirEntry>>;

    closed spec fn view(&self) -> Seq<Option<DirEntry>> {
        self.dir_entries@
    }
}

impl Directory {
    /// The slot array has exactly the per-block capacity and every occupied
    /// slot holds a well-formed entry.
    pub open spec fn wf(&self) -> bool {
        &&& self@.len() == DIR_SIZE_LEN
        &&& forall|i: int|
            0 <= i < self@.len() ==> (#[trigger] self@[i] matches Some(e) ==> e.wf())
    }
}

impl Default for Directory {
    /// An empty directory: every slot free.
    fn default() -> (r: Self)
        ensures
            r.wf(),
            r@.len() == DIR_SIZE_LEN,
            forall|i: int| 0 <= i < DIR_SIZE_LEN ==> r@[i] is None,
    {
        let mut dir_entries: Vec<Option<DirEntry>> = Vec::new();
        while dir_entries.len() < DIR_SIZE_LEN
            invariant
                dir_entries@.len() <= DIR_SIZE_LEN,
                forall|i: int| 0 <= i < dir_entries@.len() ==> dir_entries@[i] is None,
            decreases DIR_SIZE_LEN - dir_entries@.len(),
        {
            dir_entries.push(None);
        }
        Directory { dir_entries }
    }
}

/// A directory holding the given entries in its leading slots, every further
/// slot free; refused when the entries exceed the per-block capacity.
pub fn new_dir_with_entries(entries: Vec<Option<DirEntry>>) -> (r: Result<
    Directory,
    DirectoryError,
>)
    requires
        forall|i: int|
            0 <= i < entries@.len() ==> (#[trigger] entries@[i] matches Some(e) ==> e.wf()),
    ensures
        entries@.len() > DIR_SIZE_LEN ==> r matches Err(DirectoryError::NoEmptySlot),
        entries@.len() <= DIR_SIZE_LEN ==> (r matches Ok(dir) && {
            &&& dir.wf()
            &&& forall|i: int| 0 <= i < entries@.len() ==> dir@[i] == entries@[i]
            &&& forall|i: int| entries@.len() <= i < DIR_SIZE_LEN ==> dir@[i] is None
        }),
{
    let mut dir = Directory::default();
    let res = dir.set_entries(entries);
    match res {
        Ok(_) => Ok(dir),
        Err(e) => Err(e),
    }
}

impl Directory {
    /// Replaces the directory's contents with the given entries, padding
    /// with free slots up to the per-block capacity; an entry array longer
    /// than that capacity is refused and nothing changes.
    pub fn set_entries(&mut self, entries: Vec<Option<DirEntry>>) -> (r: Result<
        (),
        DirectoryError,
    >)
        requires
            old(self).wf(),
            forall|i: int|
                0 <= i < entries@.len() ==> (#[trigger] entries@[i] matches Some(e) ==> e.wf()),
        ensures
            final(self).wf(),
            entries@.len() > DIR_SIZE_LEN ==> (r matches Err(DirectoryError::NoEmptySlot))
                && final(self)@ == old(self)@,
            entries@.len() <= DIR_SIZE_LEN ==> (r matches Ok(())) && {
                &&& forall|i: int| 0 <= i < entries@.len() ==> final(self)@[i] == entries@[i]
                &&& forall|i: int| entries@.len() <= i < DIR_SIZE_LEN ==> final(self)@[i] is None
            },
    {
        if entries.len() > DIR_SIZE_LEN {
            return Err(DirectoryError::NoEmptySlot);
        }
        let ghost given = entries@;
        let mut entries = entries;
        while entries.len() < DIR_SIZE_LEN
            invariant
                given.len() <= entries@.len() <= DIR_SIZE_LEN,
                forall|i: int| 0 <= i < given.len() ==> entries@[i] == given[i],
                forall|i: int|
                    0 <= i < given.len() ==> (#[trigger] entries@[i] matches Some(e) ==> e.wf()),
                forall|i: int| given.len() <= i < entries@.len() ==> entries@[i] is None,
            decreases DIR_SIZE_LEN - entries@.len(),
        {
            entries.push(None);
        }
        self.dir_entries = entries;
        Ok(())
    }

    /// Inserts one entry into the lowest free slot without disturbing the
    /// others, returning that slot's index; a full directory is refused
    /// unchanged.
    pub fn add_entry(&mut self, entry: DirEntry) -> (r: Result<usize, DirectoryError>)
        requires
            old(self).wf(),
            entry.wf(),
        ensures
            final(self).wf(),
            r matches Ok(i) ==> {
                &&& 0 <= i < DIR_SIZE_LEN
                &&& old(self)@[i as int] is None
                &&& forall|j: int| 0 <= j < i ==> old(self)@[j] is Some
                &&& final(self)@ == old(self)@.update(i as int, Some(entry))
            },
            r matches Err(e) ==> {
                &&& e == DirectoryError::NoEmptySlot
                &&& forall|j: int| 0 <= j < DIR_SIZE_LEN ==> old(self)@[j] is Some
                &&& final(self)@ == old(self)@
            },
    {
        let mut i: usize = 0;
        while i < DIR_SIZE_LEN
            invariant
                self.wf(),
                self@ == old(self)@,
                entry.wf(),
                i <= DIR_SIZE_LEN,
                forall|j: int| 0 <= j < i ==> self@[j] is Some,
            decreases DIR_SIZE_LEN - i,
        {
            if self.dir_entries[i].is_none() {
                self.dir_entries[i] = Some(entry);
                return Ok(i);
            }
            i = i + 1;
        }
        Err(DirectoryError::NoEmptySlot)
    }

    /// The slot index of the first entry carrying exactly the given name, if
    /// any.
    pub fn find_entry(&self, name: &str) -> (r: Option<usize>)
        requires
            self.wf(),
        ensures
            match r {
                Some(i) => {
                    &&& 0 <= i < DIR_SIZE_LEN
                    &&& slot_named(self@[i as int], encode_utf8(name@))
                    &&& forall|j: int| 0 <= j < i ==> !slot_named(self@[j], encode_utf8(name@))
                },
                None => forall|j: int|
                    0 <= j < DIR_SIZE_LEN ==> !slot_named(self@[j], encode_utf8(name@)),
            },
    {
        let name_bytes = name.as_bytes();
        let mut i: usize = 0;
        while i < DIR_SIZE_LEN
            invariant
                self.wf(),
                i <= DIR_SIZE_LEN,
                name_bytes@ == encode_utf8(name@),
                forall|j: int| 0 <= j < i ==> !slot_named(self@[j], encode_utf8(name@)),
            decreases DIR_SIZE_LEN - i,
        {
            match &self.dir_entries[i] {
                Some(e) => {
                    if entry_name_matches(e, name_bytes) {
                        return Some(i);
                    }
                },
                None => {},
            }
            i = i + 1;
        }
        None
    }

    /// Removes the first entry carrying exactly the given name, freeing its
    /// slot and handing the entry back; a name not present leaves the
    /// directory unchanged.
    pub fn remove_entry(&mut self, name: &str) -> (r: Option<DirEntry>)
        requires
            old(self).wf(),
        ensures
            final(self).wf(),
            match r {
                Some(e) => exists|i: int|
                    {
                        &&& 0 <= i < DIR_SIZE_LEN
                        &&& old(self)@[i] == Some(e)
                        &&& e.name_bytes() == encode_utf8(name@)
                        &&& forall|j: int| 0 <= j < i ==> !slot_named(old(self)@[j], encode_utf8(name@))
                        &&& final(self)@ == old(self)@.update(i, None::<DirEntry>)
                    },
                None => {
                    &&& forall|j: int|
                        0 <= j < DIR_SIZE_LEN ==> !slot_named(old(self)@[j], encode_utf8(name@))
                    &&& final(self)@ == old(self)@
                },
            },
    {
        match self.find_entry(name) {
            Some(i) => self.dir_entries[i].take(),
            None => None,
        }
    }
}

/// Whether the entry's significant name bytes are exactly `bytes`.
fn entry_name_matches(e: &DirEntry, bytes: &[u8]) -> (r: bool)
    requires
        e.wf(),
    ensures
        r == (e.name_bytes() == bytes@),
{
    let len = e.name_len as usize;
    if bytes.len() != len {
        proof {
            assert(e.name_bytes().len() == len);
        }
        return false;
    }
    let mut k: usize = 0;
    while k < len
        invariant
            e.wf(),
            len == e.name_len as usize,
            bytes@.len() == len,
            k <= len,
            forall|j: int| 0 <= j < k ==> e.name@[j] == bytes@[j],
        decreases len - k,
    {
        if e.name[k] != bytes[k] {
            proof {
                assert(e.name_bytes()[k as int] != bytes@[k as int]);
            }
            return false;
        }
        k = k + 1;
    }
    proof {
        assert(e.name_bytes() =~= bytes@);
    }
    true
}

} // verus!
