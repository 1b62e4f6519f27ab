use vstd::hash_map::StringHashMap;
use vstd::prelude::*;

verus! {

/// One mapping of the cache, as a listing shows it.
#[derive(Debug)]
pub struct CacheEntry {
    pub trigger: String,
    pub url_template: String,
}

/// The catalog that resolution reads: a mapping from trigger to URL template.
///
/// The entries are kept in the order in which their triggers first came, and
/// a hash index gives the place of each trigger.
pub struct BangCache {
    entries: Vec<CacheEntry>,
    index: StringHashMap<usize>,
}

impl View for BangCache {
    type V = Map<Seq<char>, Seq<char>>;

    closed spec fn view(&self) -> Map<Seq<char>, Seq<char>> {
        mapping(self.entries@, self.index@)
    }
}

/// The mapping that entries and their index stand for.
spec fn mapping(entries: Seq<CacheEntry>, index: Map<Seq<char>, usize>) -> Map<
    Seq<char>,
    Seq<char>,
> {
    Map::new(
        |k: Seq<char>| index.contains_key(k),
        |k: Seq<char>| entries[index[k] as int].url_template@,
    )
}

/// The index and the entries agree: the index sends each trigger to the
/// place of its entry, and every entry is indexed.
spec fn consistent(entries: Seq<CacheEntry>, index: Map<Seq<char>, usize>) -> bool {
    &&& forall|k: Seq<char>| #[trigger]
        index.contains_key(k) ==> index[k] < entries.len() && entries[index[k] as int].trigger@
            == k
    &&& forall|i: int|
        0 <= i < entries.len() ==> index.contains_key(#[trigger] entries[i].trigger@)
            && index[entries[i].trigger@] == i
}

/// Adds one mapping to entries and index, or overwrites the template of a
/// trigger that they hold.
fn put(
    entries: &mut Vec<CacheEntry>,
    index: &mut StringHashMap<usize>,
    trigger: String,
    url_template: String,
)
    requires
        consistent(old(entries)@, old(index)@),
    ensures
        consistent(final(entries)@, final(index)@),
        mapping(final(entries)@, final(index)@) == mapping(old(entries)@, old(index)@).insert(
            trigger@,
            url_template@,
        ),
{
    let found: Option<usize> = match index.get(trigger.as_str()) {
        Some(i) => Some(*i),
        None => None,
    };
    match found {
        Some(i) => {
            entries.set(i, CacheEntry { trigger, url_template });
        },
        None => {
            let n: usize = entries.len();
            let key = trigger.clone();
            entries.push(CacheEntry { trigger, url_template });
            index.insert(key, n);
        },
    }
    proof {
        assert(mapping(entries@, index@) =~= mapping(old(entries)@, old(index)@).insert(
            trigger@,
            url_template@,
        ));
    }
}

/// Whether a listing shows a mapping exactly: every listed pair is in the
/// mapping, every trigger of the mapping is listed, and none is listed twice.
pub open spec fn lists_exactly(listing: Seq<CacheEntry>, m: Map<Seq<char>, Seq<char>>) -> bool {
    &&& forall|i: int|
        0 <= i < listing.len() ==> m.contains_key(#[trigger] listing[i].trigger@)
            && m[listing[i].trigger@] == listing[i].url_template@
    &&& forall|k: Seq<char>|
        m.contains_key(k) ==> exists|i: int|
            0 <= i < listing.len() && #[trigger] listing[i].trigger@ == k
    &&& forall|i: int, j: int|
        0 <= i < j < listing.len() ==> #[trigger] listing[i].trigger@
            != #[trigger] listing[j].trigger@
}

impl BangCache {
    #[verifier::type_invariant]
    closed spec fn wf(self) -> bool {
        consistent(self.entries@, self.index@)
    }

    /// The empty cache.
    pub fn new() -> (r: Self)
        ensures
            r@ == Map::<Seq<char>, Seq<char>>::empty(),
    {
        let r = BangCache { entries: Vec::new(), index: StringHashMap::new() };
        proof {
            assert(r@ =~= Map::<Seq<char>, Seq<char>>::empty());
        }
        r
    }

    /// The template of a trigger, if the cache holds the trigger.
    pub fn lookup(&self, trigger: &str) -> (r: Option<String>)
        ensures
            match r {
                Some(t) => self@.contains_key(trigger@) && t@ == self@[trigger@],
                None => !self@.contains_key(trigger@),
            },
    {
        proof {
            use_type_invariant(self);
        }
        match self.index.get(trigger) {
            Some(i) => Some(self.entries[*i].url_template.clone()),
            None => None,
        }
    }

    /// Adds one mapping, or overwrites the template of a trigger that the
    /// cache already holds. No other mapping changes.
    pub fn insert(&mut self, trigger: String, url_template: String)
        ensures
            final(self)@ == old(self)@.insert(trigger@, url_template@),
    {
        let mut taken = BangCache::new();
        core::mem::swap(self, &mut taken);
        proof {
            use_type_invariant(&taken);
        }
        let BangCache { mut entries, mut index } = taken;
        put(&mut entries, &mut index, trigger, url_template);
        *self = BangCache { entries, index };
    }

    /// Puts a whole new mapping in the place of the old one.
    pub fn replace(&mut self, new_mapping: BangCache)
        ensures
            final(self)@ == new_mapping@,
    {
        *self = new_mapping;
    }

    /// The mappings of the cache as one listing, each trigger once, in the
    /// order in which the triggers first came.
    pub fn snapshot(&self) -> (listing: Vec<CacheEntry>)
        ensures
            lists_exactly(listing@, self@),
    {
        proof {
            use_type_invariant(self);
        }
        let mut listing: Vec<CacheEntry> = Vec::new();
        let mut i: usize = 0;
        while i < self.entries.len()
            invariant
                i <= self.entries.len(),
                listing@.len() == i,
                forall|j: int|
                    0 <= j < i ==> listing@[j].trigger@ == self.entries@[j].trigger@
                        && listing@[j].url_template@ == self.entries@[j].url_template@,
            decreases self.entries.len() - i,
        {
            listing.push(
                CacheEntry {
                    trigger: self.entries[i].trigger.clone(),
                    url_template: self.entries[i].url_template.clone(),
                },
            );
            i += 1;
        }
        proof {
            assert forall|k: Seq<char>| self@.contains_key(k) implies exists|i: int|
                0 <= i < listing@.len() && #[trigger] listing@[i].trigger@ == k by {
                let p = self.index@[k] as int;
                assert(listing@[p].trigger@ == k);
            }
        }
        listing
    }

    /// A cache that holds the same mappings.
    pub fn duplicate(&self) -> (r: Self)
        ensures
            r@ == self@,
    {
        proof {
            use_type_invariant(self);
        }
        let mut r = BangCache::new();
        let mut i: usize = 0;
        while i < self.entries.len()
            invariant
                i <= self.entries.len(),
                consistent(self.entries@, self.index@),
                forall|k: Seq<char>|
                    r@.contains_key(k) <==> (self@.contains_key(k) && self.index@[k] < i),
                forall|k: Seq<char>| r@.contains_key(k) ==> r@[k] == self@[k],
            decreases self.entries.len() - i,
        {
            r.insert(self.entries[i].trigger.clone(), self.entries[i].url_template.clone());
            i += 1;
        }
        proof {
            assert(r@ =~= self@);
        }
        r
    }
}

} // verus!
