//! The checksum index: which content was imported already, and where to.
//!
//! The index is the list of entries as the store holds them: a key, which is
//! a checksum written in decimal, and the path that content went to. Of two
//! entries with one key the earlier counts: content is never recorded again
//! under another path.

use crate::digits::{decimal, lemma_decimal_injective, to_decimal};
use crate::photo::Photo;
use vstd::prelude::*;

verus! {

/// One line of the store: content with this key went to this path.
#[derive(Debug, Clone)]
pub struct IndexEntry {
    pub key: String,
    pub path: String,
}

/// The checksum index of a run.
#[derive(Debug, Clone)]
pub struct ChecksumIndex {
    pub entries: Vec<IndexEntry>,
}

/// The key under which the store holds a checksum.
pub open spec fn key_of(checksum: u32) -> Seq<char> {
    decimal(checksum as nat)
}

/// The mapping that a list of entries stands for: each key with the path of
/// its first entry.
pub open spec fn mapping(entries: Seq<IndexEntry>) -> Map<Seq<char>, Seq<char>>
    decreases entries.len(),
{
    if entries.len() == 0 {
        Map::empty()
    } else {
        let earlier = mapping(entries.drop_last());
        let entry = entries.last();
        if earlier.contains_key(entry.key@) {
            earlier
        } else {
            earlier.insert(entry.key@, entry.path@)
        }
    }
}

/// The mapping after `key` was recorded with `path`: an existing entry wins,
/// a new key is added.
pub open spec fn recorded(index: Map<Seq<char>, Seq<char>>, key: Seq<char>, path: Seq<char>) -> Map<
    Seq<char>,
    Seq<char>,
> {
    if index.contains_key(key) {
        index
    } else {
        index.insert(key, path)
    }
}

/// What a lookup of `key` gives in a mapping.
pub open spec fn found(index: Map<Seq<char>, Seq<char>>, key: Seq<char>) -> Option<Seq<char>> {
    if index.contains_key(key) {
        Some(index[key])
    } else {
        None
    }
}

/// A key that none of the entries carries is not in their mapping.
pub proof fn lemma_absent(entries: Seq<IndexEntry>, key: Seq<char>)
    requires
        forall|j: int| 0 <= j < entries.len() ==> (#[trigger] entries[j]).key@ != key,
    ensures
        !mapping(entries).contains_key(key),
    decreases entries.len(),
{
    if entries.len() > 0 {
        let shorter = entries.drop_last();
        assert forall|j: int| 0 <= j < shorter.len() implies (#[trigger] shorter[j]).key@
            != key by {
            assert(shorter[j] == entries[j]);
        }
        lemma_absent(shorter, key);
    }
}

/// The first entry that carries a key gives the path it is mapped to.
pub proof fn lemma_first_entry_wins(entries: Seq<IndexEntry>, first: int)
    requires
        0 <= first < entries.len(),
        forall|j: int| 0 <= j < first ==> (#[trigger] entries[j]).key@ != entries[first].key@,
    ensures
        mapping(entries).contains_key(entries[first].key@),
        mapping(entries)[entries[first].key@] == entries[first].path@,
    decreases entries.len(),
{
    let shorter = entries.drop_last();
    let key = entries[first].key@;
    if first == entries.len() - 1 {
        assert forall|j: int| 0 <= j < shorter.len() implies (#[trigger] shorter[j]).key@
            != key by {
            assert(shorter[j] == entries[j]);
        }
        lemma_absent(shorter, key);
    } else {
        assert(shorter[first] == entries[first]);
        assert forall|j: int| 0 <= j < first implies (#[trigger] shorter[j]).key@
            != shorter[first].key@ by {
            assert(shorter[j] == entries[j]);
        }
        lemma_first_entry_wins(shorter, first);
    }
}

impl View for ChecksumIndex {
    type V = Map<Seq<char>, Seq<char>>;

    open spec fn view(&self) -> Map<Seq<char>, Seq<char>> {
        mapping(self.entries@)
    }
}

/// The key under which the store holds `checksum`: the number in decimal.
pub fn checksum_key(checksum: u32) -> (key: String)
    ensures
        key@ == key_of(checksum),
{
    to_decimal(checksum)
}

impl ChecksumIndex {
    /// An index without entries.
    pub fn new() -> (index: ChecksumIndex)
        ensures
            index@ == Map::<Seq<char>, Seq<char>>::empty(),
            index.entries@.len() == 0,
    {
        ChecksumIndex { entries: Vec::new() }
    }

    /// The path recorded for `checksum`, if any.
    pub fn lookup(&self, checksum: u32) -> (path: Option<String>)
        ensures
            crate::exif::text_of(path) == found(self@, key_of(checksum)),
    {
        let key = checksum_key(checksum);
        let mut i: usize = 0;
        while i < self.entries.len()
            invariant
                0 <= i <= self.entries@.len(),
                key@ == key_of(checksum),
                forall|j: int| 0 <= j < i ==> (#[trigger] self.entries@[j]).key@ != key@,
            decreases self.entries@.len() - i,
        {
            if self.entries[i].key == key {
                proof {
                    lemma_first_entry_wins(self.entries@, i as int);
                }
                return Some(self.entries[i].path.clone());
            }
            i += 1;
        }
        proof {
            lemma_absent(self.entries@, key@);
        }
        None
    }

    /// Records that content with `checksum` went to `path`, unless the
    /// checksum is recorded already: then the index stays as it is, and the
    /// first path wins. Says whether an entry was added; that entry is then
    /// the last one, and is what the store has to take.
    pub fn record(&mut self, checksum: u32, path: &str) -> (added: bool)
        ensures
            final(self)@ == recorded(old(self)@, key_of(checksum), path@),
            added == !old(self)@.contains_key(key_of(checksum)),
            !added ==> final(self).entries@ == old(self).entries@,
            added ==> final(self).entries@.len() == old(self).entries@.len() + 1,
            added ==> final(self).entries@.drop_last() == old(self).entries@,
            added ==> final(self).entries@.last().key@ == key_of(checksum),
            added ==> final(self).entries@.last().path@ == path@,
    {
        match self.lookup(checksum) {
            Some(_) => false,
            None => {
                let ghost before = self.entries@;
                self.entries.push(IndexEntry { key: checksum_key(checksum), path: path.to_owned() });
                assert(self.entries@.drop_last() =~= before);
                true
            },
        }
    }
}

/// The index that a store's entries stand for, as read when a run starts. A
/// store that is missing or cannot be read has no entries.
pub fn load_db(entries: Vec<IndexEntry>) -> (index: ChecksumIndex)
    ensures
        index.entries@ == entries@,
        index@ == mapping(entries@),
{
    ChecksumIndex { entries }
}

/// Records where a copied photo went, by the checksum of its content. Says
/// whether the store has a new entry to take.
pub fn write_photohash(index: &mut ChecksumIndex, photo: &Photo) -> (added: bool)
    ensures
        final(index)@ == recorded(old(index)@, key_of(photo.checksum), photo.output_filename@),
        added == !old(index)@.contains_key(key_of(photo.checksum)),
        !added ==> final(index).entries@ == old(index).entries@,
        added ==> final(index).entries@.len() == old(index).entries@.len() + 1,
        added ==> final(index).entries@.drop_last() == old(index).entries@,
        added ==> final(index).entries@.last().key@ == key_of(photo.checksum),
        added ==> final(index).entries@.last().path@ == photo.output_filename@,
{
    index.record(photo.checksum, photo.output_filename.as_str())
}

/// What was recorded is found again by an index loaded afresh from the same
/// entries: a key that was new when it was recorded leads to the path it was
/// recorded with.
pub proof fn recorded_entry_survives_reload(
    before: ChecksumIndex,
    after: ChecksumIndex,
    reloaded: ChecksumIndex,
    key: Seq<char>,
    path: Seq<char>,
)
    requires
        !before@.contains_key(key),
        after@ == recorded(before@, key, path),
        reloaded.entries@ == after.entries@,
    ensures
        found(reloaded@, key) == Some(path),
{
}

/// Recording never changes what an index holds for a key that it has: the
/// first path stays.
pub proof fn first_record_wins(index: Map<Seq<char>, Seq<char>>, key: Seq<char>, path: Seq<char>)
    requires
        index.contains_key(key),
    ensures
        recorded(index, key, path) == index,
{
}

/// Two checksums that differ have keys that differ.
pub proof fn keys_tell_checksums_apart(first: u32, second: u32)
    requires
        first != second,
    ensures
        key_of(first) != key_of(second),
{
    if key_of(first) == key_of(second) {
        lemma_decimal_injective(first as nat, second as nat);
    }
}

/// Recording one checksum leaves what is found for every other checksum as
/// it was.
pub proof fn record_keeps_other_checksums(
    index: Map<Seq<char>, Seq<char>>,
    checksum: u32,
    path: Seq<char>,
    other: u32,
)
    requires
        other != checksum,
    ensures
        found(recorded(index, key_of(checksum), path), key_of(other)) == found(
            index,
            key_of(other),
        ),
{
    keys_tell_checksums_apart(checksum, other);
}

/// Recording one key leaves every other key as it was.
pub proof fn record_keeps_others(
    index: Map<Seq<char>, Seq<char>>,
    key: Seq<char>,
    path: Seq<char>,
    other: Seq<char>,
)
    requires
        other != key,
    ensures
        found(recorded(index, key, path), other) == found(index, other),
{
}

} // verus!
