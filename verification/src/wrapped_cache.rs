//! Recently-used cache of D3D11On12-wrapped D3D12 resources.
//!
//! Entries are kept from least to most recently used. A lookup that hits moves
//! the entry to the most recent end; an insert whose key is already present
//! replaces that entry in place; any other insert appends, and when that makes
//! the cache exceed its capacity the least recently used entry is evicted and
//! handed back so that its native wrapper can be released.
use vstd::prelude::*;
use crate::types::SpoutFormat;

verus! {

/// Number of wrapped resources kept at once.
pub const DX12_WRAPPED_RESOURCE_CACHE_CAPACITY: usize = 4;

/// The identity of a wrapped resource: the resource address, its initial and
/// final states, and the sender size and format it was wrapped for.
pub type Dx12WrapKey = (usize, u32, u32, Option<u32>, Option<u32>, SpoutFormat);

/// One D3D12 resource wrapped for D3D11On12 sending.
#[derive(Debug, Clone, Copy, PartialEq, Eq, Structural)]
pub struct Dx12WrappedResource {
    /// Address of the `ID3D12Resource`.
    pub resource: usize,
    /// `D3D12_RESOURCE_STATES` the resource was wrapped in.
    pub initial_state: u32,
    /// `D3D12_RESOURCE_STATES` the resource returns to after release.
    pub final_state: u32,
    /// Sender width when the resource was wrapped.
    pub width: Option<u32>,
    /// Sender height when the resource was wrapped.
    pub height: Option<u32>,
    /// Sender format when the resource was wrapped.
    pub format: SpoutFormat,
    /// Address of the wrapped `ID3D11Resource`.
    pub wrapped11: usize,
}

/// The key an entry is found by.
pub open spec fn entry_key(e: Dx12WrappedResource) -> Dx12WrapKey {
    (e.resource, e.initial_state, e.final_state, e.width, e.height, e.format)
}

/// No two entries share a key.
pub open spec fn keys_distinct(s: Seq<Dx12WrappedResource>) -> bool {
    forall|i: int, j: int|
        0 <= i < j < s.len() ==> #[trigger] entry_key(s[i]) != #[trigger] entry_key(s[j])
}

/// A well-formed cache content: within capacity, keys distinct.
pub open spec fn cache_wf(s: Seq<Dx12WrappedResource>) -> bool {
    &&& s.len() <= DX12_WRAPPED_RESOURCE_CACHE_CAPACITY
    &&& keys_distinct(s)
}

/// Whether some entry has key `k`.
pub open spec fn has_key(s: Seq<Dx12WrappedResource>, k: Dx12WrapKey) -> bool {
    exists|i: int| 0 <= i < s.len() && entry_key(s[i]) == k
}

/// The position of the entry with key `k` (meaningful when `has_key`).
pub open spec fn key_pos(s: Seq<Dx12WrappedResource>, k: Dx12WrapKey) -> int {
    choose|i: int| 0 <= i < s.len() && entry_key(s[i]) == k
}

/// A lookup of key `k`: the wrapped address found, and the new content, in
/// which a hit entry has moved to the most recently used end.
pub open spec fn cache_get(s: Seq<Dx12WrappedResource>, k: Dx12WrapKey) -> (
    Option<usize>,
    Seq<Dx12WrappedResource>,
) {
    if has_key(s, k) {
        let i = key_pos(s, k);
        (Some(s[i].wrapped11), s.remove(i).push(s[i]))
    } else {
        (None, s)
    }
}

/// An insert of entry `e`: the entry handed back (replaced or evicted), and
/// the new content.
pub open spec fn cache_insert(s: Seq<Dx12WrappedResource>, e: Dx12WrappedResource) -> (
    Option<Dx12WrappedResource>,
    Seq<Dx12WrappedResource>,
) {
    if has_key(s, entry_key(e)) {
        let i = key_pos(s, entry_key(e));
        (Some(s[i]), s.update(i, e))
    } else if s.len() + 1 > DX12_WRAPPED_RESOURCE_CACHE_CAPACITY {
        (Some(s[0]), s.push(e).drop_first())
    } else {
        (None, s.push(e))
    }
}

/// In content with distinct keys, an entry holding key `k` is the one at `key_pos`.
pub proof fn lemma_key_pos_unique(s: Seq<Dx12WrappedResource>, k: Dx12WrapKey, j: int)
    requires
        keys_distinct(s),
        0 <= j < s.len(),
        entry_key(s[j]) == k,
    ensures
        has_key(s, k),
        key_pos(s, k) == j,
{
    let i = key_pos(s, k);
    assert(0 <= i < s.len() && entry_key(s[i]) == k);
    if i < j {
        assert(entry_key(s[i]) != entry_key(s[j]));
    } else if j < i {
        assert(entry_key(s[j]) != entry_key(s[i]));
    }
}

/// A lookup keeps a well-formed cache well-formed and leaves its length unchanged.
pub proof fn lemma_get_preserves_wf(s: Seq<Dx12WrappedResource>, k: Dx12WrapKey)
    requires
        cache_wf(s),
    ensures
        cache_wf(cache_get(s, k).1),
        cache_get(s, k).1.len() == s.len(),
{
    if has_key(s, k) {
        let i = key_pos(s, k);
        let t = s.remove(i).push(s[i]);
        assert forall|a: int, b: int| 0 <= a < b < t.len() implies #[trigger] entry_key(t[a])
            != #[trigger] entry_key(t[b]) by {
            let oa = if a < i { a } else { a + 1 };
            if b == t.len() - 1 {
                assert(t[b] == s[i]);
                assert(t[a] == s[oa]);
                assert(oa != i);
                if oa < i {
                    assert(entry_key(s[oa]) != entry_key(s[i]));
                } else {
                    assert(entry_key(s[i]) != entry_key(s[oa]));
                }
            } else {
                let ob = if b < i { b } else { b + 1 };
                assert(t[a] == s[oa]);
                assert(t[b] == s[ob]);
                assert(oa < ob);
            }
        }
    }
}

/// An insert keeps a well-formed cache well-formed.
pub proof fn lemma_insert_preserves_wf(s: Seq<Dx12WrappedResource>, e: Dx12WrappedResource)
    requires
        cache_wf(s),
    ensures
        cache_wf(cache_insert(s, e).1),
{
    let k = entry_key(e);
    if has_key(s, k) {
        let i = key_pos(s, k);
        let t = s.update(i, e);
        assert forall|a: int, b: int| 0 <= a < b < t.len() implies #[trigger] entry_key(t[a])
            != #[trigger] entry_key(t[b]) by {
            if a == i {
                assert(entry_key(s[i]) != entry_key(s[b]));
            } else if b == i {
                assert(entry_key(s[a]) != entry_key(s[i]));
            } else {
                assert(entry_key(s[a]) != entry_key(s[b]));
            }
        }
    } else {
        let p = s.push(e);
        assert forall|a: int, b: int| 0 <= a < b < p.len() implies #[trigger] entry_key(p[a])
            != #[trigger] entry_key(p[b]) by {
            if b == s.len() {
                assert(p[a] == s[a]);
                if entry_key(s[a]) == k {
                    assert(has_key(s, k));
                }
            } else {
                assert(entry_key(s[a]) != entry_key(s[b]));
            }
        }
        if s.len() + 1 > DX12_WRAPPED_RESOURCE_CACHE_CAPACITY {
            let t = p.drop_first();
            assert forall|a: int, b: int| 0 <= a < b < t.len() implies #[trigger] entry_key(t[a])
                != #[trigger] entry_key(t[b]) by {
                assert(t[a] == p[a + 1]);
                assert(t[b] == p[b + 1]);
                assert(entry_key(p[a + 1]) != entry_key(p[b + 1]));
            }
        }
    }
}

/// Read after write: a lookup right after inserting an entry finds that
/// entry's wrapped resource.
pub proof fn lemma_get_after_insert(s: Seq<Dx12WrappedResource>, e: Dx12WrappedResource)
    requires
        cache_wf(s),
    ensures
        cache_get(cache_insert(s, e).1, entry_key(e)).0 == Some(e.wrapped11),
{
    lemma_insert_preserves_wf(s, e);
    let k = entry_key(e);
    let t = cache_insert(s, e).1;
    if has_key(s, k) {
        let i = key_pos(s, k);
        assert(t[i] == e);
        lemma_key_pos_unique(t, k, i);
    } else if s.len() + 1 > DX12_WRAPPED_RESOURCE_CACHE_CAPACITY {
        let j = t.len() - 1;
        assert(t[j] == e);
        lemma_key_pos_unique(t, k, j);
    } else {
        let j = s.len() as int;
        assert(t[j] == e);
        lemma_key_pos_unique(t, k, j);
    }
}

/// A lookup that misses changes nothing, and one that hits keeps every entry:
/// only their order changes, with the hit entry now most recently used.
pub proof fn lemma_get_keeps_entries(s: Seq<Dx12WrappedResource>, k: Dx12WrapKey)
    requires
        cache_wf(s),
    ensures
        !has_key(s, k) ==> cache_get(s, k).1 == s && cache_get(s, k).0 is None,
        has_key(s, k) ==> {
            let t = cache_get(s, k).1;
            &&& t.to_multiset() == s.to_multiset()
            &&& entry_key(t.last()) == k
            &&& cache_get(s, k).0 == Some(t.last().wrapped11)
        },
{
    if has_key(s, k) {
        let i = key_pos(s, k);
        let x = s[i];
        let r = s.remove(i);
        vstd::seq_lib::to_multiset_remove(s, i);
        vstd::seq_lib::to_multiset_build(r, x);
        s.to_multiset_ensures();
        assert(s.contains(x));
        broadcast use vstd::multiset::group_multiset_axioms;
        assert(r.push(x).to_multiset() =~= s.to_multiset());
    }
}

/// A lookup that hits the entry at position `i` returns its wrapped resource
/// and moves only that entry: the entries before it keep their positions, the
/// entries after it each move one place towards the least recently used end,
/// and the hit entry becomes the most recently used.
pub proof fn lemma_get_hit_moves_only_the_hit(s: Seq<Dx12WrappedResource>, i: int)
    requires
        keys_distinct(s),
        0 <= i < s.len(),
    ensures
        ({
            let (found, t) = cache_get(s, entry_key(s[i]));
            &&& found == Some(s[i].wrapped11)
            &&& t.len() == s.len()
            &&& t[s.len() - 1] == s[i]
            &&& forall|j: int| 0 <= j < i ==> #[trigger] t[j] == s[j]
            &&& forall|j: int| i <= j < s.len() - 1 ==> #[trigger] t[j] == s[j + 1]
        }),
{
    lemma_key_pos_unique(s, entry_key(s[i]), i);
}

/// An insert of a new key into a full cache evicts and hands back the least
/// recently used entry; the others keep their order, followed by the new entry.
/// An insert of a new key into a cache with room evicts nothing and appends.
pub proof fn lemma_insert_new_key_evicts_oldest(s: Seq<Dx12WrappedResource>, e: Dx12WrappedResource)
    requires
        cache_wf(s),
        forall|j: int| 0 <= j < s.len() ==> #[trigger] entry_key(s[j]) != entry_key(e),
    ensures
        ({
            let (out, t) = cache_insert(s, e);
            &&& s.len() == DX12_WRAPPED_RESOURCE_CACHE_CAPACITY ==> {
                &&& out == Some(s[0])
                &&& t.len() == s.len()
                &&& forall|j: int| 0 <= j < s.len() - 1 ==> #[trigger] t[j] == s[j + 1]
                &&& t[s.len() - 1] == e
            }
            &&& s.len() < DX12_WRAPPED_RESOURCE_CACHE_CAPACITY ==> {
                &&& out is None
                &&& t.len() == s.len() + 1
                &&& forall|j: int| 0 <= j < s.len() ==> #[trigger] t[j] == s[j]
                &&& t[s.len() as int] == e
            }
        }),
{
    if has_key(s, entry_key(e)) {
        let j = key_pos(s, entry_key(e));
        assert(entry_key(s[j]) != entry_key(e));
    }
}

/// An insert whose key is already present replaces that entry in place and
/// hands back the replaced entry; nothing else moves.
pub proof fn lemma_insert_same_key_replaces(s: Seq<Dx12WrappedResource>, i: int, e: Dx12WrappedResource)
    requires
        keys_distinct(s),
        0 <= i < s.len(),
        entry_key(s[i]) == entry_key(e),
    ensures
        ({
            let (out, t) = cache_insert(s, e);
            &&& out == Some(s[i])
            &&& t.len() == s.len()
            &&& t[i] == e
            &&& forall|j: int| 0 <= j < s.len() && j != i ==> #[trigger] t[j] == s[j]
        }),
{
    lemma_key_pos_unique(s, entry_key(e), i);
}

/// Recently-used cache of wrapped D3D12 resources, at most
/// [`DX12_WRAPPED_RESOURCE_CACHE_CAPACITY`] entries.
#[derive(Debug)]
pub struct Dx12WrappedResourceCache {
    entries: Vec<Dx12WrappedResource>,
}

impl View for Dx12WrappedResourceCache {
    type V = Seq<Dx12WrappedResource>;

    /// The entries from least to most recently used.
    closed spec fn view(&self) -> Seq<Dx12WrappedResource> {
        self.entries@
    }
}

impl Dx12WrappedResource {
    /// Whether this entry was wrapped for exactly the given key.
    pub fn matches(
        &self,
        resource: usize,
        initial_state: u32,
        final_state: u32,
        width: Option<u32>,
        height: Option<u32>,
        format: SpoutFormat,
    ) -> (r: bool)
        ensures
            r == (entry_key(*self) == (resource, initial_state, final_state, width, height, format)),
    {
        self.resource == resource && self.initial_state == initial_state && self.final_state
            == final_state && same_u32_option(self.width, width) && same_u32_option(
            self.height,
            height,
        ) && self.format == format
    }
}

/// Equality of two optional `u32`s.
fn same_u32_option(a: Option<u32>, b: Option<u32>) -> (r: bool)
    ensures
        r == (a == b),
{
    match (a, b) {
        (Some(x), Some(y)) => x == y,
        (None, None) => true,
        _ => false,
    }
}

impl Dx12WrappedResourceCache {
    /// The cache content is within capacity and keys are distinct.
    pub open spec fn wf(&self) -> bool {
        cache_wf(self@)
    }

    #[verifier::type_invariant]
    spec fn inv(self) -> bool {
        cache_wf(self.entries@)
    }

    /// An empty cache.
    pub fn new() -> (r: Self)
        ensures
            r@ == Seq::<Dx12WrappedResource>::empty(),
            r.wf(),
    {
        Dx12WrappedResourceCache { entries: Vec::with_capacity(DX12_WRAPPED_RESOURCE_CACHE_CAPACITY) }
    }

    /// The number of cached entries.
    pub fn len(&self) -> (r: usize)
        ensures
            r == self@.len(),
            self.wf(),
    {
        proof {
            use_type_invariant(self);
        }
        self.entries.len()
    }

    /// Position of the first entry with the given key, if any.
    fn position(
        &self,
        resource: usize,
        initial_state: u32,
        final_state: u32,
        width: Option<u32>,
        height: Option<u32>,
        format: SpoutFormat,
    ) -> (r: Option<usize>)
        ensures
            ({
                let k = (resource, initial_state, final_state, width, height, format);
                &&& r is None <==> !has_key(self@, k)
                &&& r matches Some(i) ==> i < self@.len() && i == key_pos(self@, k)
            }),
    {
        proof {
            use_type_invariant(self);
        }
        let ghost k = (resource, initial_state, final_state, width, height, format);
        let mut i: usize = 0;
        while i < self.entries.len()
            invariant
                self.wf(),
                k == (resource, initial_state, final_state, width, height, format),
                i <= self.entries@.len(),
                forall|j: int| 0 <= j < i ==> entry_key(#[trigger] self.entries@[j]) != k,
            decreases self.entries@.len() - i,
        {
            if self.entries[i].matches(resource, initial_state, final_state, width, height, format) {
                proof {
                    lemma_key_pos_unique(self@, k, i as int);
                }
                return Some(i);
            }
            i = i + 1;
        }
        None
    }

    /// Look up the wrapped resource for a key, marking a hit most recently used.
    pub fn get(
        &mut self,
        resource: usize,
        initial_state: u32,
        final_state: u32,
        width: Option<u32>,
        height: Option<u32>,
        format: SpoutFormat,
    ) -> (r: Option<usize>)
        ensures
            final(self).wf(),
            (r, final(self)@) == cache_get(
                old(self)@,
                (resource, initial_state, final_state, width, height, format),
            ),
    {
        proof {
            use_type_invariant(&*self);
            lemma_get_preserves_wf(self@, (resource, initial_state, final_state, width, height, format));
        }
        match self.position(resource, initial_state, final_state, width, height, format) {
            Some(index) => {
                let mut entries: Vec<Dx12WrappedResource> = Vec::new();
                std::mem::swap(&mut entries, &mut self.entries);
                let entry = entries.remove(index);
                let wrapped11 = entry.wrapped11;
                entries.push(entry);
                self.entries = entries;
                Some(wrapped11)
            },
            None => None,
        }
    }

    /// Insert an entry; returns the entry it replaced or evicted, whose native
    /// wrapper the caller must release.
    pub fn insert(&mut self, entry: Dx12WrappedResource) -> (r: Option<Dx12WrappedResource>)
        ensures
            final(self).wf(),
            (r, final(self)@) == cache_insert(old(self)@, entry),
    {
        proof {
            use_type_invariant(&*self);
            lemma_insert_preserves_wf(self@, entry);
        }
        match self.position(
            entry.resource,
            entry.initial_state,
            entry.final_state,
            entry.width,
            entry.height,
            entry.format,
        ) {
            Some(index) => {
                let mut entries: Vec<Dx12WrappedResource> = Vec::new();
                std::mem::swap(&mut entries, &mut self.entries);
                let replaced = entries[index];
                entries.set(index, entry);
                self.entries = entries;
                Some(replaced)
            },
            None => {
                let mut entries: Vec<Dx12WrappedResource> = Vec::new();
                std::mem::swap(&mut entries, &mut self.entries);
                entries.push(entry);
                let evicted = if entries.len() > DX12_WRAPPED_RESOURCE_CACHE_CAPACITY {
                    Some(entries.remove(0))
                } else {
                    None
                };
                self.entries = entries;
                evicted
            },
        }
    }

    /// Remove every entry, handing them back from least to most recently used.
    pub fn clear(&mut self) -> (r: Vec<Dx12WrappedResource>)
        ensures
            r@ == old(self)@,
            final(self)@ == Seq::<Dx12WrappedResource>::empty(),
            final(self).wf(),
    {
        let mut taken: Vec<Dx12WrappedResource> = Vec::new();
        std::mem::swap(&mut taken, &mut self.entries);
        taken
    }
}

impl Default for Dx12WrappedResourceCache {
    fn default() -> (r: Self)
        ensures
            r@ == Seq::<Dx12WrappedResource>::empty(),
    {
        Dx12WrappedResourceCache::new()
    }
}

} // verus!
