//! The content cache: a key-value store mapping a fingerprint key
//! (a fixed prefix in front of the URL) to either the raw fetched
//! bytes or the reserved failure sentinel.

use vstd::prelude::*;

verus! {

/// The reserved cache value that marks a URL whose fetch failed,
/// distinct from "never attempted": the bytes of `"failed"`.
pub open spec fn sentinel() -> Seq<u8> {
    seq![102u8, 97u8, 105u8, 108u8, 101u8, 100u8]
}

/// The failure marker as a concrete value.
pub fn sentinel_bytes() -> (r: Vec<u8>)
    ensures
        r@ == sentinel(),
{
    let mut v: Vec<u8> = Vec::new();
    v.push(102u8);
    v.push(97u8);
    v.push(105u8);
    v.push(108u8);
    v.push(101u8);
    v.push(100u8);
    assert(v@ =~= sentinel());
    v
}

/// Decides whether a stored value is the failure marker.
pub fn is_sentinel_value(v: &Vec<u8>) -> (r: bool)
    ensures
        r == (v@ == sentinel()),
{
    if v.len() != 6 {
        assert(v@ != sentinel());
        return false;
    }
    let eq = v[0] == 102 && v[1] == 97 && v[2] == 105 && v[3] == 108 && v[4] == 101 && v[5]
        == 100;
    if eq {
        assert(v@ =~= sentinel());
    } else {
        assert(v@ != sentinel());
    }
    eq
}

/// The fingerprint key a URL is cached under: a fixed prefix, then the URL.
pub open spec fn key_of(url: Seq<char>) -> Seq<char> {
    "fetch:"@ + url
}

/// Distinct URLs are cached under distinct keys: the fixed prefix
/// cannot make two different URLs collide in the store.
pub proof fn lemma_key_of_injective(u1: Seq<char>, u2: Seq<char>)
    requires
        key_of(u1) == key_of(u2),
    ensures
        u1 == u2,
{
    assert(u1 =~= key_of(u1).subrange("fetch:"@.len() as int, key_of(u1).len() as int));
    assert(u2 =~= key_of(u2).subrange("fetch:"@.len() as int, key_of(u2).len() as int));
}

/// Builds the cache key for a URL.
pub fn make_key(url: &str) -> (r: String)
    ensures
        r@ == key_of(url@),
{
    let prefix: String = String::from_str("fetch:");
    prefix.concat(url)
}

/// Copies a byte vector.
pub fn clone_bytes(v: &Vec<u8>) -> (r: Vec<u8>)
    ensures
        r@ == v@,
{
    let mut r: Vec<u8> = Vec::new();
    let mut i: usize = 0;
    while i < v.len()
        invariant
            i <= v.len(),
            r@ =~= v@.take(i as int),
        decreases v.len() - i,
    {
        r.push(v[i]);
        i = i + 1;
    }
    assert(r@ =~= v@);
    r
}

/// Compares two string slices character by character.
pub fn str_equal(a: &str, b: &str) -> (r: bool)
    ensures
        r == (a@ == b@),
{
    let na = a.unicode_len();
    let nb = b.unicode_len();
    if na != nb {
        assert(a@ != b@);
        return false;
    }
    let mut i: usize = 0;
    while i < na
        invariant
            i <= na,
            na == a@.len(),
            na == b@.len(),
            forall|j: int| 0 <= j < i ==> a@[j] == b@[j],
        decreases na - i,
    {
        if a.get_char(i) != b.get_char(i) {
            assert(a@ != b@);
            return false;
        }
        i = i + 1;
    }
    assert(a@ =~= b@);
    true
}

/// The store's abstract contents: later entries overwrite earlier ones.
pub open spec fn map_of(entries: Seq<(String, Vec<u8>)>) -> Map<Seq<char>, Seq<u8>>
    decreases entries.len(),
{
    if entries.len() == 0 {
        Map::empty()
    } else {
        map_of(entries.drop_last()).insert(entries.last().0@, entries.last().1@)
    }
}

/// A key-value store of fetched content, modelled as a map from key to
/// stored bytes. A stored success is never invalidated by normal
/// operation; an overwrite happens only through an explicit `put`.
pub struct Cache {
    entries: Vec<(String, Vec<u8>)>,
}

impl Cache {
    /// What the store holds, as a map from key to value.
    pub closed spec fn contents(self) -> Map<Seq<char>, Seq<u8>> {
        map_of(self.entries@)
    }

    /// An empty store.
    pub fn new() -> (r: Cache)
        ensures
            r.contents() == Map::<Seq<char>, Seq<u8>>::empty(),
    {
        Cache { entries: Vec::new() }
    }

    /// Stores a value under a key, overwriting any previous value.
    pub fn put(&mut self, key: String, value: Vec<u8>)
        ensures
            final(self).contents() == old(self).contents().insert(key@, value@),
    {
        let ghost k: Seq<char> = key@;
        let ghost v: Seq<u8> = value@;
        let ghost before: Seq<(String, Vec<u8>)> = self.entries@;
        self.entries.push((key, value));
        proof {
            assert(self.entries@.drop_last() =~= before);
            assert(self.entries@.last().0@ == k);
            assert(self.entries@.last().1@ == v);
        }
    }

    /// Looks a key up: the most recently stored value, if any.
    pub fn get(&self, key: &str) -> (r: Option<Vec<u8>>)
        ensures
            match r {
                Some(v) => self.contents().contains_key(key@) && v@ == self.contents()[key@],
                None => !self.contents().contains_key(key@),
            },
    {
        let ghost full: Seq<(String, Vec<u8>)> = self.entries@;
        let mut i: usize = self.entries.len();
        assert(full.take(i as int) =~= full);
        while i > 0
            invariant
                i <= self.entries.len(),
                full == self.entries@,
                map_of(full).contains_key(key@) == map_of(full.take(i as int)).contains_key(
                    key@,
                ),
                map_of(full).contains_key(key@) ==> map_of(full.take(i as int))[key@] == map_of(
                    full,
                )[key@],
            decreases i,
        {
            i = i - 1;
            proof {
                assert(full.take(i + 1).drop_last() =~= full.take(i as int));
                assert(full.take(i + 1).last() == full[i as int]);
            }
            let e = &self.entries[i];
            if str_equal(e.0.as_str(), key) {
                return Some(clone_bytes(&e.1));
            }
        }
        assert(full.take(0) =~= Seq::<(String, Vec<u8>)>::empty());
        None
    }
}

} // verus!
