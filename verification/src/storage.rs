//! In-memory storage of executed transactions, keyed by transaction hash.
use vstd::prelude::*;
use crate::error::CoreError;
use crate::text::hex_lower;

verus! {

/// A 32-byte transaction hash.
pub type TxHash = [u8; 32];

/// The value stored under `key`, if any.
pub open spec fn lookup<V>(entries: Seq<(Seq<u8>, V)>, key: Seq<u8>) -> Option<V>
    decreases entries.len(),
{
    if entries.len() == 0 {
        None
    } else if entries.last().0 == key {
        Some(entries.last().1)
    } else {
        lookup(entries.drop_last(), key)
    }
}

/// Whether some entry has `key`.
pub open spec fn has_key<V>(entries: Seq<(Seq<u8>, V)>, key: Seq<u8>) -> bool {
    exists|i: int| 0 <= i < entries.len() && #[trigger] entries[i].0 == key
}

/// The keys of the entries, in order.
pub open spec fn keys<V>(entries: Seq<(Seq<u8>, V)>) -> Seq<Seq<u8>> {
    entries.map_values(|e: (Seq<u8>, V)| e.0)
}

/// The `Debug` text of a hash: `0x` and its lowercase hexadecimal digits.
pub open spec fn hash_debug_text(h: Seq<u8>) -> Seq<char> {
    seq!['0', 'x'] + hex_lower(h)
}

/// The `Debug` text of a hash, as `alloy`'s `B256` writes it.
#[verifier::external_body]
pub(crate) fn hash_debug_string(h: &TxHash) -> (r: String)
    ensures
        r@ == hash_debug_text(h@),
{
    format!("{:?}", alloy::primitives::B256::from(*h))
}

/// Executed transactions held in memory in the order they were stored; a hash is stored once.
pub struct InMemoryStorage<V> {
    entries: Vec<(TxHash, V)>,
}

impl<V> InMemoryStorage<V> {
    /// The stored entries, oldest first.
    pub closed spec fn entries(&self) -> Seq<(Seq<u8>, V)> {
        self.entries@.map_values(|e: (TxHash, V)| (e.0@, e.1))
    }

    /// No hash occurs twice.
    pub open spec fn wf(&self) -> bool {
        keys(self.entries()).no_duplicates()
    }

    /// An empty storage.
    pub fn new() -> (r: Self)
        ensures
            r.wf(),
            r.entries() == Seq::<(Seq<u8>, V)>::empty(),
    {
        let r = InMemoryStorage { entries: Vec::new() };
        assert(r.entries() =~= Seq::<(Seq<u8>, V)>::empty());
        r
    }

    /// Whether `hash` is stored.
    pub fn contains(&self, hash: &TxHash) -> (r: bool)
        ensures
            r == has_key(self.entries(), hash@),
    {
        let mut i: usize = 0;
        while i < self.entries.len()
            invariant
                i <= self.entries@.len(),
                forall|j: int| 0 <= j < i ==> self.entries()[j].0 != hash@,
            decreases self.entries@.len() - i,
        {
            if bytes_eq(&self.entries[i].0, hash) {
                assert(self.entries()[i as int].0 == hash@);
                return true;
            }
            i = i + 1;
        }
        false
    }

    /// Stores `tx` under `hash`; a hash already stored is refused with
    /// `StorageErrorHashExists("hash=<hash in Debug form>")` and the storage is unchanged.
    pub fn insert_transaction(&mut self, hash: TxHash, tx: V) -> (r: Result<(), CoreError>)
        requires
            old(self).wf(),
        ensures
            final(self).wf(),
            has_key(old(self).entries(), hash@) ==> final(self).entries() == old(self).entries()
                && (r matches Err(CoreError::StorageErrorHashExists(m)) && m@ == "hash="@
                + hash_debug_text(hash@)),
            !has_key(old(self).entries(), hash@) ==> r is Ok && final(self).entries() == old(
                self,
            ).entries().push((hash@, tx)),
            final(self).entries() == insert_effect(old(self).entries(), hash@, tx),
    {
        if self.contains(&hash) {
            let mut m = String::from_str("hash=");
            let h = hash_debug_string(&hash);
            m.append(h.as_str());
            return Err(CoreError::StorageErrorHashExists(m));
        }
        self.entries.push((hash, tx));
        proof {
            assert(self.entries() =~= old(self).entries().push((hash@, tx)));
            assert(keys(self.entries()) =~= keys(old(self).entries()).push(hash@));
            assert forall|i: int|
                0 <= i < keys(old(self).entries()).len() implies keys(old(self).entries())[i]
                != hash@ by {
                if keys(old(self).entries())[i] == hash@ {
                    assert(old(self).entries()[i].0 == hash@);
                }
            }
        }
        Ok(())
    }

    /// The stored transaction of `hash`, cloned. The hash must be stored.
    pub fn get_transaction(&self, hash: &TxHash) -> (r: Result<Option<V>, CoreError>)
        where V: Clone,
        requires
            has_key(self.entries(), hash@),
        ensures
            r matches Ok(Some(v)) && cloned::<V>(lookup(self.entries(), hash@)->0, v),
    {
        let mut i: usize = self.entries.len();
        assert(self.entries().subrange(0, i as int) =~= self.entries());
        while i > 0
            invariant
                i <= self.entries@.len(),
                has_key(self.entries(), hash@),
                lookup(self.entries(), hash@) == lookup(self.entries().subrange(0, i as int), hash@),
                has_key(self.entries().subrange(0, i as int), hash@),
            decreases i,
        {
            let ghost pre = self.entries().subrange(0, i as int);
            assert(pre.drop_last() =~= self.entries().subrange(0, i - 1));
            if bytes_eq(&self.entries[i - 1].0, hash) {
                let v = self.entries[i - 1].1.clone();
                return Ok(Some(v));
            }
            proof {
                let k = choose|k: int| 0 <= k < pre.len() && #[trigger] pre[k].0 == hash@;
                assert(k != i - 1);
                assert(pre.drop_last()[k].0 == hash@);
            }
            i = i - 1;
        }
        assert(self.entries().subrange(0, 0).len() == 0);
        Err(CoreError::Empty(String::new()))
    }

    /// The stored hashes in the order they were stored; `None` when nothing is stored.
    pub fn get_list(&self) -> (r: Result<Option<Vec<TxHash>>, CoreError>)
        ensures
            self.entries().len() == 0 ==> r == Ok::<Option<Vec<TxHash>>, CoreError>(None),
            self.entries().len() > 0 ==> (r matches Ok(Some(l)) && l@.map_values(|h: TxHash| h@)
                == keys(self.entries())),
    {
        if self.entries.len() == 0 {
            return Ok(None);
        }
        let mut list: Vec<TxHash> = Vec::new();
        let mut i: usize = 0;
        while i < self.entries.len()
            invariant
                i <= self.entries@.len(),
                list@.map_values(|h: TxHash| h@) == keys(self.entries()).subrange(0, i as int),
            decreases self.entries@.len() - i,
        {
            let ghost prev = list@;
            list.push(self.entries[i].0);
            proof {
                assert(keys(self.entries())[i as int] == self.entries@[i as int].0@);
                assert(list@.map_values(|h: TxHash| h@) =~= prev.map_values(|h: TxHash| h@).push(
                    self.entries@[i as int].0@,
                ));
            }
            i = i + 1;
            assert(list@.map_values(|h: TxHash| h@) =~= keys(self.entries()).subrange(0, i as int));
        }
        assert(keys(self.entries()).subrange(0, i as int) =~= keys(self.entries()));
        Ok(Some(list))
    }

    /// Number of stored transactions.
    pub fn len(&self) -> (r: usize)
        ensures
            r == self.entries().len(),
    {
        self.entries.len()
    }
}

/// Byte-wise equality of two hashes.
pub fn bytes_eq(a: &TxHash, b: &TxHash) -> (r: bool)
    ensures
        r == (a@ == b@),
{
    let mut i: usize = 0;
    while i < 32
        invariant
            i <= 32,
            a@.len() == 32,
            b@.len() == 32,
            forall|j: int| 0 <= j < i ==> a@[j] == b@[j],
        decreases 32 - i,
    {
        if a[i] != b[i] {
            return false;
        }
        i = i + 1;
    }
    assert(a@ =~= b@);
    true
}

/// A stored value is read back under its key, and storing under one key leaves every other
/// key's value as it was.
pub proof fn law_read_after_write<V>(entries: Seq<(Seq<u8>, V)>, key: Seq<u8>, v: V, other: Seq<u8>)
    requires
        other != key,
    ensures
        lookup(entries.push((key, v)), key) == Some(v),
        lookup(entries.push((key, v)), other) == lookup(entries, other),
{
    assert(entries.push((key, v)).drop_last() =~= entries);
}

/// A key is found exactly when some entry has it.
pub proof fn law_lookup_finds_stored_keys<V>(entries: Seq<(Seq<u8>, V)>, key: Seq<u8>)
    ensures
        lookup(entries, key) is Some <==> has_key(entries, key),
    decreases entries.len(),
{
    if entries.len() > 0 {
        law_lookup_finds_stored_keys(entries.drop_last(), key);
        if has_key(entries, key) && entries.last().0 != key {
            let i = choose|i: int| 0 <= i < entries.len() && #[trigger] entries[i].0 == key;
            assert(entries.drop_last()[i].0 == key);
        }
        if has_key(entries.drop_last(), key) {
            let i = choose|i: int|
                0 <= i < entries.drop_last().len() && #[trigger] entries.drop_last()[i].0 == key;
            assert(entries[i].0 == key);
        }
        if entries.last().0 == key {
            assert(entries[entries.len() - 1].0 == key);
        }
    }
}

/// The entries after storing `value` under `hash`: appended when the hash is new, unchanged
/// when it is already stored.
pub open spec fn insert_effect<V>(entries: Seq<(Seq<u8>, V)>, hash: Seq<u8>, value: V) -> Seq<
    (Seq<u8>, V),
> {
    if has_key(entries, hash) {
        entries
    } else {
        entries.push((hash, value))
    }
}

/// The entries after storing each of `inserts` in turn.
pub open spec fn insert_all<V>(entries: Seq<(Seq<u8>, V)>, inserts: Seq<(Seq<u8>, V)>) -> Seq<
    (Seq<u8>, V),
>
    decreases inserts.len(),
{
    if inserts.len() == 0 {
        entries
    } else {
        insert_effect(insert_all(entries, inserts.drop_last()), inserts.last().0, inserts.last().1)
    }
}

/// Each hash of `hs` once, where it first occurs, in order.
pub open spec fn first_occurrences(hs: Seq<Seq<u8>>) -> Seq<Seq<u8>>
    decreases hs.len(),
{
    if hs.len() == 0 {
        Seq::empty()
    } else {
        let p = first_occurrences(hs.drop_last());
        if p.contains(hs.last()) {
            p
        } else {
            p.push(hs.last())
        }
    }
}

/// A hash is stored exactly when it is among the keys.
proof fn lemma_has_key_keys<V>(entries: Seq<(Seq<u8>, V)>, key: Seq<u8>)
    ensures
        has_key(entries, key) <==> keys(entries).contains(key),
{
    if has_key(entries, key) {
        let i = choose|i: int| 0 <= i < entries.len() && #[trigger] entries[i].0 == key;
        assert(keys(entries)[i] == key);
    }
    if keys(entries).contains(key) {
        let i = choose|i: int| 0 <= i < keys(entries).len() && keys(entries)[i] == key;
        assert(entries[i].0 == key);
    }
}

/// The hashes a storage lists after a run of inserts from empty are the hashes inserted,
/// each once, in the order they were first inserted; the list is empty exactly when nothing
/// was inserted.
pub proof fn law_list_is_inserted_hashes_in_order<V>(inserts: Seq<(Seq<u8>, V)>)
    ensures
        keys(insert_all(Seq::<(Seq<u8>, V)>::empty(), inserts)) == first_occurrences(keys(inserts)),
        keys(insert_all(Seq::<(Seq<u8>, V)>::empty(), inserts)).len() == 0 <==> inserts.len() == 0,
    decreases inserts.len(),
{
    if inserts.len() > 0 {
        let rest = inserts.drop_last();
        law_list_is_inserted_hashes_in_order(rest);
        let e = insert_all(Seq::<(Seq<u8>, V)>::empty(), rest);
        let (h, v) = inserts.last();
        assert(keys(inserts).drop_last() =~= keys(rest));
        assert(keys(inserts).last() == h);
        lemma_has_key_keys(e, h);
        if !has_key(e, h) {
            assert(keys(e.push((h, v))) =~= keys(e).push(h));
        }
    }
}

} // verus!
