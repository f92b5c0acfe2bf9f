//! The key/value entries stored in the log, and the specification of the
//! duplicate-key discipline every append must pass: a batch may not collide
//! with itself, nor with the keys already stored.

use vstd::prelude::*;

verus! {

/// One immutable key/value record of the log.
#[derive(Clone, PartialEq, Eq, PartialOrd, Ord, Hash, Default, Debug)]
pub struct Entry {
    pub key: Vec<u8>,
    pub value: Vec<u8>,
}

/// A batch of entries, and the type of the stored log itself.
pub type Entries = Vec<Entry>;

/// The mathematical value of an entry: its key and value byte strings.
pub struct EntryModel {
    pub key: Seq<u8>,
    pub value: Seq<u8>,
}

impl View for Entry {
    type V = EntryModel;

    open spec fn view(&self) -> EntryModel {
        EntryModel { key: self.key@, value: self.value@ }
    }
}

impl Entry {
    /// Builds an entry from its key and value bytes.
    pub fn new(key: Vec<u8>, value: Vec<u8>) -> (r: Self)
        ensures
            r@.key == key@,
            r@.value == value@,
    {
        Entry { key, value }
    }
}

/// The mathematical values of a sequence of entries.
pub open spec fn spec_views(s: Seq<Entry>) -> Seq<EntryModel> {
    s.map_values(|e: Entry| e@)
}

/// Whether some entry of `s` carries the key `k`.
pub open spec fn spec_contains_key(s: Seq<Entry>, k: Seq<u8>) -> bool {
    exists|i: int| 0 <= i < s.len() && s[i]@.key == k
}

/// Whether the batch collides with itself: two entries share one key.
pub open spec fn spec_has_intra_dup(batch: Seq<Entry>) -> bool {
    exists|i: int, j: int| 0 <= i < j < batch.len() && batch[i]@.key == batch[j]@.key
}

/// The sub-batch whose keys are already stored in `data`, in batch order.
pub open spec fn spec_conflicts(data: Seq<Entry>, batch: Seq<Entry>) -> Seq<Entry>
    decreases batch.len(),
{
    if batch.len() == 0 {
        Seq::empty()
    } else {
        let rest = spec_conflicts(data, batch.drop_last());
        if spec_contains_key(data, batch.last()@.key) {
            rest.push(batch.last())
        } else {
            rest
        }
    }
}

/// The value stored under `k`: the value of the first entry carrying that
/// key, if any entry does.
pub open spec fn spec_get(s: Seq<Entry>, k: Seq<u8>) -> Option<Seq<u8>>
    decreases s.len(),
{
    if s.len() == 0 {
        None
    } else if s[0]@.key == k {
        Some(s[0]@.value)
    } else {
        spec_get(s.drop_first(), k)
    }
}

/// Byte-string equality, the comparison under which keys are unique.
pub fn bytes_eq(a: &[u8], b: &[u8]) -> (r: bool)
    ensures
        r == (a@ == b@),
{
    if a.len() != b.len() {
        assert(a@.len() != b@.len());
        return false;
    }
    for i in 0..a.len()
        invariant
            i <= a.len(),
            a@.len() == b@.len(),
            forall|j: int| 0 <= j < i ==> a@[j] == b@[j],
    {
        if a[i] != b[i] {
            return false;
        }
    }
    assert(a@ =~= b@);
    true
}

/// A faithful copy of an entry: same key bytes, same value bytes.
impl Entry {
    pub fn duplicate(&self) -> (r: Self)
        ensures
            r@ == self@,
    {
        let r = Entry { key: copy_bytes(&self.key), value: copy_bytes(&self.value) };
        assert(r@.key =~= self@.key);
        assert(r@.value =~= self@.value);
        r
    }
}

/// An exact copy of a byte vector.
pub fn copy_bytes(v: &Vec<u8>) -> (r: Vec<u8>)
    ensures
        r@ == v@,
{
    let mut r: Vec<u8> = Vec::new();
    for i in 0..v.len()
        invariant
            i <= v.len(),
            r@ == v@.subrange(0, i as int),
    {
        r.push(v[i]);
        assert(r@ =~= v@.subrange(0, i + 1));
    }
    assert(r@ =~= v@);
    r
}

} // verus!
