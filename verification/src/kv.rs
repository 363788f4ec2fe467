//! The byte-keyed scalar store the statistics engine persists through.
//!
//! The engine only ever needs `get` and `set` on byte keys; the hosting
//! environment supplies the real store and is assumed to commit writes
//! atomically at the boundary of its transaction (the engine performs no
//! retries against it). [`MemoryStorage`] is a verified in-memory
//! implementation for tests and for hosts without a store of their own.

use vstd::prelude::*;

verus! {

/// A byte-keyed store of byte values, seen through its contents: a map
/// from key bytes to value bytes.
pub trait KvStore {
    /// The current contents as a map. A verified implementation gives its
    /// own model; a host implementation outside verification may leave the
    /// default, which models nothing.
    open spec fn contents(&self) -> Map<Seq<u8>, Seq<u8>> {
        Map::empty()
    }

    /// Read the value stored under `key`, when there is one.
    fn get(&self, key: &Vec<u8>) -> (r: Option<Vec<u8>>)
        ensures
            r is Some <==> self.contents().contains_key(key@),
            r matches Some(v) ==> v@ == self.contents()[key@],
    ;

    /// Store `value` under `key`, replacing any previous value.
    fn set(&mut self, key: &Vec<u8>, value: &Vec<u8>)
        ensures
            final(self).contents() == old(self).contents().insert(key@, value@),
    ;
}

/// The map held by a journal of writes, later entries shadowing earlier
/// ones.
pub open spec fn map_of(s: Seq<(Vec<u8>, Vec<u8>)>) -> Map<Seq<u8>, Seq<u8>>
    decreases s.len(),
{
    if s.len() == 0 {
        Map::empty()
    } else {
        map_of(s.drop_last()).insert(s.last().0@, s.last().1@)
    }
}

/// A key that appears in no entry is not in the map.
proof fn lemma_map_of_absent(s: Seq<(Vec<u8>, Vec<u8>)>, k: Seq<u8>)
    requires
        forall|j: int| 0 <= j < s.len() ==> #[trigger] s[j].0@ != k,
    ensures
        !map_of(s).contains_key(k),
    decreases s.len(),
{
    if s.len() > 0 {
        assert(forall|j: int|
            0 <= j < s.len() - 1 ==> #[trigger] s.drop_last()[j].0@ == s[j].0@);
        lemma_map_of_absent(s.drop_last(), k);
    }
}

/// The last entry written for a key decides its value in the map.
proof fn lemma_map_of_found(s: Seq<(Vec<u8>, Vec<u8>)>, j: int, k: Seq<u8>)
    requires
        0 <= j < s.len(),
        s[j].0@ == k,
        forall|m: int| j < m < s.len() ==> #[trigger] s[m].0@ != k,
    ensures
        map_of(s).contains_key(k),
        map_of(s)[k] == s[j].1@,
    decreases s.len(),
{
    if j == s.len() - 1 {
    } else {
        assert(forall|i: int|
            0 <= i < s.len() - 1 ==> #[trigger] s.drop_last()[i].0@ == s[i].0@ && s.drop_last()[i]
                == s[i]);
        lemma_map_of_found(s.drop_last(), j, k);
    }
}

/// Byte-for-byte equality of two byte vectors.
pub fn bytes_eq(a: &Vec<u8>, b: &Vec<u8>) -> (r: bool)
    ensures
        r == (a@ == b@),
{
    if a.len() != b.len() {
        return false;
    }
    let mut i: usize = 0;
    while i < a.len()
        invariant
            i <= a@.len(),
            a@.len() == b@.len(),
            forall|j: int| 0 <= j < i ==> a@[j] == b@[j],
        decreases a@.len() - i,
    {
        if a[i] != b[i] {
            return false;
        }
        i = i + 1;
    }
    proof {
        assert(a@ =~= b@);
    }
    true
}

/// Copy a byte vector.
pub fn bytes_clone(a: &Vec<u8>) -> (r: Vec<u8>)
    ensures
        r@ =~= a@,
{
    let mut out: Vec<u8> = Vec::new();
    let mut i: usize = 0;
    while i < a.len()
        invariant
            i <= a@.len(),
            out@ =~= a@.take(i as int),
        decreases a@.len() - i,
    {
        out.push(a[i]);
        i = i + 1;
    }
    proof {
        assert(a@.take(a@.len() as int) =~= a@);
    }
    out
}

/// A verified in-memory store: a journal of writes whose last entry for a
/// key decides the key's value.
pub struct MemoryStorage {
    entries: Vec<(Vec<u8>, Vec<u8>)>,
}

impl MemoryStorage {
    /// An empty store.
    pub fn new() -> (r: MemoryStorage)
        ensures
            r.contents() == Map::<Seq<u8>, Seq<u8>>::empty(),
    {
        MemoryStorage { entries: Vec::new() }
    }
}

impl KvStore for MemoryStorage {
    closed spec fn contents(&self) -> Map<Seq<u8>, Seq<u8>> {
        map_of(self.entries@)
    }

    fn get(&self, key: &Vec<u8>) -> (r: Option<Vec<u8>>) {
        let n = self.entries.len();
        let mut i: usize = n;
        while i > 0
            invariant
                i <= n,
                n == self.entries@.len(),
                forall|m: int| i <= m < n ==> #[trigger] self.entries@[m].0@ != key@,
            decreases i,
        {
            i = i - 1;
            if bytes_eq(&self.entries[i].0, key) {
                proof {
                    lemma_map_of_found(self.entries@, i as int, key@);
                }
                return Some(bytes_clone(&self.entries[i].1));
            }
        }
        proof {
            lemma_map_of_absent(self.entries@, key@);
        }
        None
    }

    fn set(&mut self, key: &Vec<u8>, value: &Vec<u8>) {
        let entry = (bytes_clone(key), bytes_clone(value));
        proof {
            assert(self.entries@.push(entry).drop_last() =~= self.entries@);
        }
        self.entries.push(entry);
    }
}

} // verus!
