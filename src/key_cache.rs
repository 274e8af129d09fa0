//! A cache of proving and verifying keys, keyed by program and function.
use vstd::prelude::*;

verus! {

/// One cached key pair.
#[derive(Clone, Debug)]
pub struct KeyCacheEntry<PK, VK> {
    program_id: String,
    function_id: String,
    proving_key: PK,
    verifying_key: VK,
}

/// Proving and verifying keys by (program, function). A pair is always
/// inserted and read as a whole, so one half is never held without the other.
#[derive(Clone, Debug)]
pub struct KeyCache<PK, VK> {
    entries: Vec<KeyCacheEntry<PK, VK>>,
}

/// The pair held for `(program_id, function_id)` among `entries`; a later
/// entry stands over an earlier one.
pub closed spec fn find_pair<PK, VK>(entries: Seq<KeyCacheEntry<PK, VK>>, program_id: Seq<char>, function_id: Seq<char>) -> Option<(PK, VK)>
    decreases entries.len(),
{
    if entries.len() == 0 {
        None
    } else {
        let e = entries.last();
        if e.program_id@ == program_id && e.function_id@ == function_id {
            Some((e.proving_key, e.verifying_key))
        } else {
            find_pair(entries.drop_last(), program_id, function_id)
        }
    }
}

/// A cache key: program identifier and function name.
pub type CacheKey = (Seq<char>, Seq<char>);

/// What reading `key` from a cache whose contents are `m` gives.
pub open spec fn cached_pair<PK, VK>(m: Map<CacheKey, (PK, VK)>, key: CacheKey) -> Option<(PK, VK)> {
    if m.contains_key(key) {
        Some(m[key])
    } else {
        None
    }
}

impl<PK, VK> View for KeyCache<PK, VK> {
    type V = Map<CacheKey, (PK, VK)>;

    closed spec fn view(&self) -> Map<CacheKey, (PK, VK)> {
        Map::new(
            |k: CacheKey| find_pair(self.entries@, k.0, k.1) is Some,
            |k: CacheKey| find_pair(self.entries@, k.0, k.1).unwrap(),
        )
    }
}

impl<PK, VK> KeyCache<PK, VK> {
    /// An empty cache.
    pub fn new() -> (r: Self)
        ensures
            r@ == Map::<CacheKey, (PK, VK)>::empty(),
    {
        let r = KeyCache { entries: Vec::new() };
        assert(r@ =~= Map::<CacheKey, (PK, VK)>::empty());
        r
    }

    /// Whether a pair is cached for the function `function_id` of `program_id`.
    pub fn contains(&self, program_id: &String, function_id: &String) -> (r: bool)
        ensures
            r == self@.contains_key((program_id@, function_id@)),
    {
        self.get(program_id, function_id).is_some()
    }

    /// The pair cached for the function `function_id` of `program_id`.
    pub fn get(&self, program_id: &String, function_id: &String) -> (r: Option<(&PK, &VK)>)
        ensures
            match r {
                Some(p) => cached_pair(self@, (program_id@, function_id@)) == Some((*p.0, *p.1)),
                None => cached_pair(self@, (program_id@, function_id@)) is None,
            },
    {
        let ghost all = self.entries@;
        let mut i: usize = self.entries.len();
        assert(all.subrange(0, i as int) =~= all);
        while i > 0
            invariant
                i <= all.len(),
                all == self.entries@,
                find_pair(all, program_id@, function_id@) == find_pair(all.subrange(0, i as int), program_id@, function_id@),
            decreases i,
        {
            let e = &self.entries[i - 1];
            proof {
                let pre = all.subrange(0, i as int);
                assert(pre.drop_last() =~= all.subrange(0, i - 1));
                assert(pre.last() == *e);
            }
            if e.program_id == *program_id && e.function_id == *function_id {
                return Some((&e.proving_key, &e.verifying_key));
            }
            i -= 1;
        }
        None
    }

    /// Caches the pair `(proving_key, verifying_key)` for the function
    /// `function_id` of `program_id`, in place of any pair held there.
    pub fn put(&mut self, program_id: String, function_id: String, proving_key: PK, verifying_key: VK)
        ensures
            final(self)@ == old(self)@.insert((program_id@, function_id@), (proving_key, verifying_key)),
    {
        let ghost key = (program_id@, function_id@);
        let ghost prev = self.entries@;
        self.entries.push(KeyCacheEntry { program_id, function_id, proving_key, verifying_key });
        proof {
            assert(self.entries@.drop_last() =~= prev);
            assert forall|k: CacheKey| find_pair(self.entries@, k.0, k.1) == if k == key {
                Some((proving_key, verifying_key))
            } else {
                find_pair(prev, k.0, k.1)
            } by {}
            assert(self@ =~= old(self)@.insert(key, (proving_key, verifying_key)));
        }
    }
}

/// Reading a pair back right after it was put gives that same pair, and
/// every other entry of the cache stays as it was.
pub proof fn lemma_put_then_get<PK, VK>(m: Map<CacheKey, (PK, VK)>, key: CacheKey, other: CacheKey, pk: PK, vk: VK)
    requires
        other != key,
    ensures
        cached_pair(m.insert(key, (pk, vk)), key) == Some((pk, vk)),
        cached_pair(m.insert(key, (pk, vk)), other) == cached_pair(m, other),
{
}

} // verus!
