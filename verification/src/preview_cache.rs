//! The pictures that are kept for the images beside the current one.
//!
//! A picture is known by a number under which the surroundings of the window
//! hold it; which numbers are kept is up to a least-recently-used cache.

use crate::file_state::FileLocation;
use crate::description::places;
use vstd::prelude::*;

verus! {

/// The cache of the `lru` crate.
#[verifier::external_type_specification]
#[verifier::external_body]
#[verifier::reject_recursive_types(K)]
#[verifier::reject_recursive_types(V)]
#[verifier::reject_recursive_types(S)]
pub struct ExLruCache<K, V, S>(lru::LruCache<K, V, S>);

/// The hasher that the cache of the `lru` crate uses unless told otherwise.
#[verifier::external_type_specification]
#[verifier::external_body]
pub struct ExDefaultHasher(lru::DefaultHasher);

/// What a cache holds: each key with its value, the most recently used first.
pub uninterp spec fn cache_entries(cache: lru::LruCache<String, u64>) -> Seq<(Seq<char>, u64)>;

/// How many entries a cache holds at most.
pub uninterp spec fn cache_limit(cache: lru::LruCache<String, u64>) -> nat;

/// Whether an entry for a key is there.
pub open spec fn holds(entries: Seq<(Seq<char>, u64)>, key: Seq<char>) -> bool {
    exists|index: int| 0 <= index < entries.len() && (#[trigger] entries[index]).0 == key
}

/// The value of a key that is there.
pub open spec fn value_of(entries: Seq<(Seq<char>, u64)>, key: Seq<char>) -> u64 {
    entries[choose|index: int| 0 <= index < entries.len() && (#[trigger] entries[index]).0 == key].1
}

/// The entries of all other keys, in their order.
pub open spec fn without(entries: Seq<(Seq<char>, u64)>, key: Seq<char>) -> Seq<(Seq<char>, u64)> {
    entries.filter(|entry: (Seq<char>, u64)| entry.0 != key)
}

/// The entries after one was read: it comes first.
pub open spec fn after_get(
    entries: Seq<(Seq<char>, u64)>,
    key: Seq<char>,
) -> Seq<(Seq<char>, u64)> {
    if holds(entries, key) {
        seq![(key, value_of(entries, key))] + without(entries, key)
    } else {
        entries
    }
}

/// The entries after one was written: it comes first, in place of the one that
/// had its key, or else of the last one where there is no room.
pub open spec fn after_put(
    entries: Seq<(Seq<char>, u64)>,
    limit: nat,
    key: Seq<char>,
    value: u64,
) -> Seq<(Seq<char>, u64)> {
    if holds(entries, key) {
        seq![(key, value)] + without(entries, key)
    } else if entries.len() == limit {
        seq![(key, value)] + entries.drop_last()
    } else {
        seq![(key, value)] + entries
    }
}

/// `lru::LruCache::new`: a cache with that limit, which holds nothing. The limit
/// is kept small because the cache reserves room for as many entries at once.
#[verifier::external_body]
fn new_cache(limit: usize) -> (cache: lru::LruCache<String, u64>)
    requires
        0 < limit <= 1024,
    ensures
        cache_entries(cache) == Seq::<(Seq<char>, u64)>::empty(),
        cache_limit(cache) == limit,
{
    lru::LruCache::new(std::num::NonZeroUsize::new(limit).expect("a limit above zero"))
}

/// `lru::LruCache::get`: the value of a key, where it is there, and the key is
/// then the most recently used one.
#[verifier::external_body]
fn cache_get(cache: &mut lru::LruCache<String, u64>, key: &String) -> (value: Option<u64>)
    ensures
        value == if holds(cache_entries(*old(cache)), key@) {
            Some(value_of(cache_entries(*old(cache)), key@))
        } else {
            None
        },
        cache_entries(*final(cache)) == after_get(cache_entries(*old(cache)), key@),
        cache_limit(*final(cache)) == cache_limit(*old(cache)),
{
    cache.get(key).copied()
}

/// `lru::LruCache::put`: writes a value under a key, which is then the most
/// recently used one, and gives back the value that the key had. A cache that is
/// full drops the least recently used entry for a key that it does not have.
#[verifier::external_body]
fn cache_put(cache: &mut lru::LruCache<String, u64>, key: String, value: u64) -> (previous: Option<
    u64,
>)
    ensures
        previous == if holds(cache_entries(*old(cache)), key@) {
            Some(value_of(cache_entries(*old(cache)), key@))
        } else {
            None
        },
        cache_entries(*final(cache)) == after_put(
            cache_entries(*old(cache)),
            cache_limit(*old(cache)),
            key@,
            value,
        ),
        cache_limit(*final(cache)) == cache_limit(*old(cache)),
{
    cache.put(key, value)
}

/// `lru::LruCache::contains`: whether a key is there. The order stays.
#[verifier::external_body]
fn cache_contains(cache: &lru::LruCache<String, u64>, key: &String) -> (found: bool)
    ensures
        found == holds(cache_entries(*cache), key@),
{
    cache.contains(key)
}

/// How many pictures are kept: the current one and one on either side.
pub const KEPT_PREVIEWS: usize = 3;

/// The pictures that are kept, by the addresses of their files.
pub struct PreviewCache {
    entries: lru::LruCache<String, u64>,
}

/// Whether no key has two entries.
pub open spec fn distinct_keys(entries: Seq<(Seq<char>, u64)>) -> bool {
    forall|left: int, right: int|
        0 <= left < right < entries.len() ==> (#[trigger] entries[left]).0 != (
        #[trigger] entries[right]).0
}

impl View for PreviewCache {
    type V = Seq<(Seq<char>, u64)>;

    closed spec fn view(&self) -> Seq<(Seq<char>, u64)> {
        cache_entries(self.entries)
    }
}

impl PreviewCache {
    /// No file has two pictures, and there are at most as many as are kept.
    pub closed spec fn well_formed(&self) -> bool {
        &&& distinct_keys(self@)
        &&& self@.len() <= KEPT_PREVIEWS
        &&& cache_limit(self.entries) == KEPT_PREVIEWS
    }

    /// No pictures.
    pub fn new() -> (cache: PreviewCache)
        ensures
            cache.well_formed(),
            cache@ == Seq::<(Seq<char>, u64)>::empty(),
    {
        PreviewCache { entries: new_cache(KEPT_PREVIEWS) }
    }

    /// The picture of a file, where it is kept. It is then the last one to be
    /// dropped.
    pub fn get(&mut self, file: &FileLocation) -> (preview: Option<u64>)
        requires
            old(self).well_formed(),
        ensures
            final(self).well_formed(),
            preview == if holds(old(self)@, file@.uri()) {
                Some(value_of(old(self)@, file@.uri()))
            } else {
                None
            },
            final(self)@ == after_get(old(self)@, file@.uri()),
    {
        let key = file.uri();
        proof {
            moving_keeps_the_rest(self@, key@, value_of(self@, key@));
        }
        cache_get(&mut self.entries, &key)
    }

    /// Keeps the picture of a file. The one that was not used for longest makes
    /// room where there is none.
    pub fn put(&mut self, file: &FileLocation, preview: u64) -> (previous: Option<u64>)
        requires
            old(self).well_formed(),
        ensures
            final(self).well_formed(),
            previous == if holds(old(self)@, file@.uri()) {
                Some(value_of(old(self)@, file@.uri()))
            } else {
                None
            },
            final(self)@ == after_put(old(self)@, KEPT_PREVIEWS as nat, file@.uri(), preview),
    {
        let key = file.uri();
        proof {
            moving_keeps_the_rest(self@, key@, preview);
        }
        cache_put(&mut self.entries, key, preview)
    }

    /// Whether the picture of a file is kept.
    pub fn contains(&self, file: &FileLocation) -> (kept: bool)
        ensures
            kept == holds(self@, file@.uri()),
    {
        cache_contains(&self.entries, &file.uri())
    }

    /// The files whose pictures are not kept, in their order.
    pub fn missing(&self, files: &Vec<FileLocation>) -> (missing: Vec<FileLocation>)
        ensures
            places(missing@) == places(files@).filter(
                |file: crate::file_state::LocationView| !holds(self@, file.uri()),
            ),
    {
        let ghost absent = |file: crate::file_state::LocationView| !holds(self@, file.uri());
        let mut missing: Vec<FileLocation> = Vec::new();
        let mut index: usize = 0;
        proof {
            reveal(Seq::filter);
            assert(places(files@).take(0) =~= Seq::empty());
            assert(places(missing@) =~= places(files@).take(0).filter(absent));
        }
        while index < files.len()
            invariant
                index <= files.len(),
                absent == |file: crate::file_state::LocationView| !holds(self@, file.uri()),
                places(missing@) == places(files@).take(index as int).filter(absent),
            decreases files.len() - index,
        {
            let file = &files[index];
            let ghost before = places(files@).take(index as int);
            let ghost after = places(files@).take(index + 1);
            proof {
                reveal(Seq::filter);
                assert(after.drop_last() =~= before);
                assert(after.last() == file@);
            }
            if !self.contains(file) {
                let ghost kept = missing@;
                missing.push(file.clone());
                assert(places(missing@) =~= places(kept).push(file@));
            }
            index = index + 1;
        }
        assert(places(files@).take(files.len() as int) =~= places(files@));
        missing
    }
}

/// An entry that is moved or added to the front leaves one entry for each key.
proof fn moving_keeps_the_rest(entries: Seq<(Seq<char>, u64)>, key: Seq<char>, value: u64)
    requires
        distinct_keys(entries),
    ensures
        distinct_keys(seq![(key, value)] + without(entries, key)),
        holds(entries, key) ==> without(entries, key).len() < entries.len(),
        !holds(entries, key) ==> distinct_keys(seq![(key, value)] + entries),
        !holds(entries, key) && entries.len() > 0 ==> distinct_keys(
            seq![(key, value)] + entries.drop_last(),
        ),
{
    filtering_keeps_distinct_keys(entries, key);
    let rest = without(entries, key);
    assert forall|left: int, right: int|
        0 <= left < right < (seq![(key, value)] + rest).len() implies (#[trigger] (seq![
        (key, value)] + rest)[left]).0 != (#[trigger] (seq![(key, value)] + rest)[right]).0 by {
        assert(rest[right - 1].0 != key);
        if left > 0 {
            assert(rest[left - 1].0 != rest[right - 1].0);
        }
    }
}

proof fn filtering_keeps_distinct_keys(entries: Seq<(Seq<char>, u64)>, key: Seq<char>)
    requires
        distinct_keys(entries),
    ensures
        distinct_keys(without(entries, key)),
        without(entries, key).len() <= entries.len(),
        holds(entries, key) ==> without(entries, key).len() < entries.len(),
        forall|index: int|
            0 <= index < without(entries, key).len() ==> (#[trigger] without(entries, key)[index]).0
                != key && entries.contains(without(entries, key)[index]),
    decreases entries.len(),
{
    reveal(Seq::filter);
    if entries.len() > 0 {
        let front = entries.drop_last();
        filtering_keeps_distinct_keys(front, key);
        let kept = without(front, key);
        let all = without(entries, key);
        if holds(entries, key) && entries.last().0 != key {
            let index = choose|index: int|
                0 <= index < entries.len() && (#[trigger] entries[index]).0 == key;
            assert(front[index].0 == key);
        }
        assert forall|index: int| 0 <= index < all.len() implies (#[trigger] all[index]).0 != key
            && entries.contains(all[index]) by {
            if index < kept.len() {
                assert(all[index] == kept[index]);
                let place = choose|place: int| 0 <= place < front.len() && front[place] == kept[index];
                assert(entries[place] == kept[index]);
            } else {
                assert(entries[entries.len() - 1] == all[index]);
            }
        }
        assert forall|left: int, right: int| 0 <= left < right < all.len() implies (
        #[trigger] all[left]).0 != (#[trigger] all[right]).0 by {
            assert(all[left] == kept[left]);
            if right < kept.len() {
                assert(all[right] == kept[right]);
            } else {
                let place = choose|place: int| 0 <= place < front.len() && front[place] == kept[left];
                assert(entries[place].0 != entries[entries.len() - 1].0);
            }
        }
    }
}

/// The picture that was kept last is there, and comes first.
pub proof fn kept_pictures_are_found(
    entries: Seq<(Seq<char>, u64)>,
    limit: nat,
    key: Seq<char>,
    value: u64,
)
    requires
        distinct_keys(entries),
        entries.len() <= limit,
        0 < limit,
    ensures
        ({
            let after = after_put(entries, limit, key, value);
            &&& after[0] == (key, value)
            &&& holds(after, key)
            &&& value_of(after, key) == value
            &&& after.len() <= limit
        }),
{
    let after = after_put(entries, limit, key, value);
    moving_keeps_the_rest(entries, key, value);
    assert(after[0].0 == key);
    let index = choose|index: int| 0 <= index < after.len() && (#[trigger] after[index]).0 == key;
    if index > 0 {
        assert(after[0].0 != after[index].0);
    }
}

/// Only the picture that was not used for longest is dropped, and only where
/// there is no room for another one.
pub proof fn only_the_oldest_is_dropped(
    entries: Seq<(Seq<char>, u64)>,
    limit: nat,
    key: Seq<char>,
    value: u64,
    other: int,
)
    requires
        0 <= other < entries.len(),
        entries.len() <= limit,
        entries[other].0 != key,
        other + 1 < limit || holds(entries, key),
    ensures
        after_put(entries, limit, key, value).contains(entries[other]),
{
    let after = after_put(entries, limit, key, value);
    if holds(entries, key) {
        filtering_keeps_others(entries, key, other);
        let rest = without(entries, key);
        let place = choose|place: int| 0 <= place < rest.len() && rest[place] == entries[other];
        assert(after[place + 1] == entries[other]);
    } else {
        assert(after[other + 1] == entries[other]);
    }
}

proof fn filtering_keeps_others(entries: Seq<(Seq<char>, u64)>, key: Seq<char>, other: int)
    requires
        0 <= other < entries.len(),
        entries[other].0 != key,
    ensures
        without(entries, key).contains(entries[other]),
    decreases entries.len(),
{
    reveal(Seq::filter);
    let front = entries.drop_last();
    let kept = without(front, key);
    let all = without(entries, key);
    if other < front.len() {
        filtering_keeps_others(front, key, other);
        let place = choose|place: int| 0 <= place < kept.len() && kept[place] == entries[other];
        assert(all[place] == entries[other]);
    } else {
        assert(all[kept.len() as int] == entries[other]);
    }
}

} // verus!
