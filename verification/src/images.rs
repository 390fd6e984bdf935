//! The image cache: a small in-memory LRU keyed by URL, bounded by item
//! count. Reads never reorder it; (re-)inserting an entry makes it the
//! newest, and the oldest entry goes once the cache is over capacity.
use vstd::prelude::*;

use crate::text::same_text;

verus! {

/// The cache's contents, oldest first, and its capacity.
pub struct CacheView<H> {
    pub entries: Seq<(Seq<char>, H)>,
    pub capacity: nat,
}

/// Whether some entry has key `url`.
pub open spec fn has_key<H>(entries: Seq<(Seq<char>, H)>, url: Seq<char>) -> bool {
    exists|i: int| 0 <= i < entries.len() && #[trigger] entries[i].0 == url
}

/// The value cached under `url`.
pub open spec fn lookup<H>(entries: Seq<(Seq<char>, H)>, url: Seq<char>) -> Option<H> {
    if has_key(entries, url) {
        let i = choose|i: int| 0 <= i < entries.len() && #[trigger] entries[i].0 == url;
        Some(entries[i].1)
    } else {
        None
    }
}

/// No two entries share a key.
pub open spec fn distinct_keys<H>(entries: Seq<(Seq<char>, H)>) -> bool {
    forall|i: int, j: int|
        0 <= i < entries.len() && 0 <= j < entries.len() && i != j ==> #[trigger] entries[i].0
            != #[trigger] entries[j].0
}

/// The entries with `url` taken out.
pub open spec fn without<H>(entries: Seq<(Seq<char>, H)>, url: Seq<char>) -> Seq<(Seq<char>, H)> {
    entries.filter(key_is_not(url))
}

/// The entry's key is not `url`.
pub open spec fn key_is_not<H>(url: Seq<char>) -> spec_fn((Seq<char>, H)) -> bool {
    |e: (Seq<char>, H)| e.0 != url
}

/// Inserting: `url` becomes the newest entry holding `h`, replacing any
/// older entry for it; then the oldest entry goes if over capacity.
pub open spec fn insert_spec<H>(v: CacheView<H>, url: Seq<char>, h: H) -> CacheView<H> {
    let appended = without(v.entries, url).push((url, h));
    CacheView {
        entries: if appended.len() > v.capacity {
            appended.drop_first()
        } else {
            appended
        },
        capacity: v.capacity,
    }
}

/// A small in-memory LRU keyed by URL.
pub struct ImageCache<H> {
    entries: Vec<(String, H)>,
    capacity: usize,
}

pub open spec fn entries_view<H>(v: Seq<(String, H)>) -> Seq<(Seq<char>, H)> {
    v.map_values(|e: (String, H)| (e.0@, e.1))
}

impl<H> View for ImageCache<H> {
    type V = CacheView<H>;

    closed spec fn view(&self) -> CacheView<H> {
        CacheView { entries: entries_view(self.entries@), capacity: self.capacity as nat }
    }
}

impl<H> ImageCache<H> {
    /// The cache's invariant: at least room for one, never over capacity,
    /// one entry per URL.
    pub open spec fn wf(&self) -> bool {
        &&& self@.capacity >= 1
        &&& self@.entries.len() <= self@.capacity
        &&& distinct_keys(self@.entries)
    }

    pub fn new(capacity: usize) -> (r: ImageCache<H>)
        ensures
            r.wf(),
            r@.entries.len() == 0,
            r@.capacity == if capacity == 0 {
                1
            } else {
                capacity
            },
    {
        let r = ImageCache { entries: Vec::new(), capacity: if capacity == 0 {
            1
        } else {
            capacity
        } };
        assert(entries_view(r.entries@) =~= Seq::<(Seq<char>, H)>::empty());
        r
    }

    fn position(&self, url: &str) -> (r: Option<usize>)
        ensures
            match r {
                Some(i) => i < self@.entries.len() && self@.entries[i as int].0 == url@,
                None => !has_key(self@.entries, url@),
            },
    {
        let mut i: usize = 0;
        while i < self.entries.len()
            invariant
                i <= self.entries@.len(),
                self@.entries == entries_view(self.entries@),
                forall|j: int| 0 <= j < i ==> #[trigger] self@.entries[j].0 != url@,
            decreases self.entries.len() - i,
        {
            if same_text(self.entries[i].0.as_str(), url) {
                return Some(i);
            }
            i = i + 1;
        }
        None
    }

    pub fn contains(&self, url: &str) -> (r: bool)
        ensures
            r == has_key(self@.entries, url@),
    {
        self.position(url).is_some()
    }

    /// Read-only lookup that does not touch LRU order.
    pub fn peek(&self, url: &str) -> (r: Option<H>) where H: Clone
        requires
            self.wf(),
        ensures
            match r {
                Some(h) => lookup(self@.entries, url@) matches Some(x) && cloned::<H>(x, h),
                None => lookup(self@.entries, url@) is None,
            },
    {
        match self.position(url) {
            Some(i) => {
                let h = self.entries[i].1.clone();
                proof {
                    let k = choose|k: int|
                        0 <= k < self@.entries.len() && #[trigger] self@.entries[k].0 == url@;
                    assert(k == i);
                }
                Some(h)
            },
            None => None,
        }
    }

    pub fn len(&self) -> (r: usize)
        ensures
            r == self@.entries.len(),
    {
        self.entries.len()
    }

    /// Cache `handle` under `url` as the newest entry, evicting the oldest
    /// entry past capacity.
    pub fn insert(&mut self, url: String, handle: H)
        requires
            old(self).wf(),
        ensures
            final(self).wf(),
            final(self)@ == insert_spec(old(self)@, url@, handle),
    {
        let ghost key = url@;
        let ghost old_entries = self@.entries;
        match self.position(url.as_str()) {
            Some(i) => {
                let ghost before = self.entries@;
                self.entries.remove(i);
                proof {
                    lemma_without_at(old_entries, i as int, key);
                    assert(entries_view(self.entries@) =~= entries_view(before).remove(i as int));
                }
            },
            None => {
                proof {
                    lemma_without_absent(old_entries, key);
                }
            },
        }
        let ghost mid = self.entries@;
        self.entries.push((url, handle));
        assert(entries_view(self.entries@) =~= entries_view(mid).push((key, handle)));
        if self.entries.len() > self.capacity {
            let ghost full = self.entries@;
            self.entries.remove(0);
            assert(entries_view(self.entries@) =~= entries_view(full).drop_first());
        }
        proof {
            lemma_without_distinct(old_entries, key);
            let w = without(old_entries, key);
            lemma_without_len(old_entries, key);
            let appended = w.push((key, handle));
            assert forall|i: int, j: int|
                0 <= i < appended.len() && 0 <= j < appended.len() && i != j implies #[trigger] appended[i].0
                != #[trigger] appended[j].0 by {
                if i < w.len() && j == w.len() {
                    lemma_without_has_no(old_entries, key, i);
                } else if j < w.len() && i == w.len() {
                    lemma_without_has_no(old_entries, key, j);
                }
            }
            if appended.len() > old(self)@.capacity {
                let d = appended.drop_first();
                assert forall|i: int, j: int|
                    0 <= i < d.len() && 0 <= j < d.len() && i != j implies #[trigger] d[i].0
                    != #[trigger] d[j].0 by {
                    assert(d[i] == appended[i + 1]);
                    assert(d[j] == appended[j + 1]);
                }
            }
        }
    }
}

proof fn lemma_without_absent<H>(entries: Seq<(Seq<char>, H)>, url: Seq<char>)
    requires
        !has_key(entries, url),
    ensures
        without(entries, url) == entries,
    decreases entries.len(),
{
    reveal_with_fuel(Seq::filter, 1);
    if entries.len() > 0 {
        assert(!has_key(entries.drop_last(), url)) by {
            if has_key(entries.drop_last(), url) {
                let i = choose|i: int|
                    0 <= i < entries.drop_last().len() && #[trigger] entries.drop_last()[i].0 == url;
                assert(entries[i].0 == url);
            }
        }
        lemma_without_absent(entries.drop_last(), url);
        assert(entries.last().0 != url);
        assert(entries.drop_last().push(entries.last()) =~= entries);
    } else {
        assert(without(entries, url) =~= entries);
    }
}

proof fn lemma_without_at<H>(entries: Seq<(Seq<char>, H)>, i: int, url: Seq<char>)
    requires
        0 <= i < entries.len(),
        entries[i].0 == url,
        distinct_keys(entries),
    ensures
        without(entries, url) == entries.remove(i),
    decreases entries.len(),
{
    reveal_with_fuel(Seq::filter, 1);
    if i == entries.len() - 1 {
        assert(!has_key(entries.drop_last(), url)) by {
            if has_key(entries.drop_last(), url) {
                let k = choose|k: int|
                    0 <= k < entries.drop_last().len() && #[trigger] entries.drop_last()[k].0 == url;
                assert(entries[k].0 == url);
            }
        }
        lemma_without_absent(entries.drop_last(), url);
        assert(entries.remove(i) =~= entries.drop_last());
    } else {
        let d = entries.drop_last();
        assert(d[i] == entries[i]);
        assert(distinct_keys(d)) by {
            assert forall|a: int, b: int|
                0 <= a < d.len() && 0 <= b < d.len() && a != b implies #[trigger] d[a].0
                != #[trigger] d[b].0 by {
                assert(d[a] == entries[a]);
                assert(d[b] == entries[b]);
            }
        }
        lemma_without_at(d, i, url);
        assert(entries.last().0 != url) by {
            assert(entries[entries.len() - 1].0 != entries[i].0);
        }
        assert(d.remove(i).push(entries.last()) =~= entries.remove(i));
    }
}

proof fn lemma_without_len<H>(entries: Seq<(Seq<char>, H)>, url: Seq<char>)
    ensures
        without(entries, url).len() <= entries.len(),
        has_key(entries, url) ==> without(entries, url).len() < entries.len(),
    decreases entries.len(),
{
    reveal_with_fuel(Seq::filter, 1);
    if entries.len() > 0 {
        lemma_without_len(entries.drop_last(), url);
        if has_key(entries, url) && entries.last().0 != url {
            let i = choose|i: int| 0 <= i < entries.len() && #[trigger] entries[i].0 == url;
            assert(i != entries.len() - 1);
            assert(entries.drop_last()[i].0 == url);
        }
    }
}

proof fn lemma_without_has_no<H>(entries: Seq<(Seq<char>, H)>, url: Seq<char>, i: int)
    requires
        0 <= i < without(entries, url).len(),
    ensures
        without(entries, url)[i].0 != url,
{
    entries.lemma_filter_pred(key_is_not(url), i);
}

proof fn lemma_without_distinct<H>(entries: Seq<(Seq<char>, H)>, url: Seq<char>)
    requires
        distinct_keys(entries),
    ensures
        distinct_keys(without(entries, url)),
    decreases entries.len(),
{
    reveal_with_fuel(Seq::filter, 1);
    if entries.len() > 0 {
        let d = entries.drop_last();
        assert(distinct_keys(d)) by {
            assert forall|a: int, b: int|
                0 <= a < d.len() && 0 <= b < d.len() && a != b implies #[trigger] d[a].0
                != #[trigger] d[b].0 by {
                assert(d[a] == entries[a]);
                assert(d[b] == entries[b]);
            }
        }
        lemma_without_distinct(d, url);
        let wd = without(d, url);
        let last = entries.last();
        if last.0 != url {
            let w = wd.push(last);
            assert forall|a: int, b: int|
                0 <= a < w.len() && 0 <= b < w.len() && a != b implies #[trigger] w[a].0
                != #[trigger] w[b].0 by {
                if a == wd.len() || b == wd.len() {
                    let k = if a == wd.len() {
                        b
                    } else {
                        a
                    };
                    assert(wd.contains(wd[k]));
                    d.lemma_filter_contains_rev(key_is_not(url), wd[k]);
                    let m = choose|m: int| 0 <= m < d.len() && d[m] == wd[k];
                    assert(entries[m] == d[m]);
                    assert(entries[entries.len() - 1].0 != entries[m].0);
                }
            }
        }
    }
}

// ---------------------------------------------------------------------------
// Laws.

/// An entry just inserted can be found, holding what was inserted.
pub proof fn law_insert_then_lookup<H>(v: CacheView<H>, url: Seq<char>, h: H)
    requires
        v.capacity >= 1,
        v.entries.len() <= v.capacity,
    ensures
        has_key(insert_spec(v, url, h).entries, url),
        lookup(insert_spec(v, url, h).entries, url) == Some(h),
{
    lemma_without_len(v.entries, url);
    let w = without(v.entries, url);
    let appended = w.push((url, h));
    let after = insert_spec(v, url, h).entries;
    let last = after.len() - 1;
    assert(after[last] == (url, h));
    assert(after[last].0 == url);
    assert(has_key(after, url));
    let k = choose|k: int| 0 <= k < after.len() && #[trigger] after[k].0 == url;
    if k != last {
        let kk = if appended.len() > v.capacity {
            k + 1
        } else {
            k
        };
        assert(after[k] == appended[kk]);
        lemma_without_has_no(v.entries, url, kk);
    }
}

/// Inserting a URL that is already cached never grows the cache.
pub proof fn law_reinsert_does_not_grow<H>(v: CacheView<H>, url: Seq<char>, h: H)
    requires
        v.entries.len() <= v.capacity,
        distinct_keys(v.entries),
        has_key(v.entries, url),
    ensures
        insert_spec(v, url, h).entries.len() == v.entries.len(),
{
    let i = choose|i: int| 0 <= i < v.entries.len() && #[trigger] v.entries[i].0 == url;
    lemma_without_at(v.entries, i, url);
}

/// Inserting a new URL into a full cache evicts exactly the oldest entry.
pub proof fn law_insert_new_evicts_oldest<H>(v: CacheView<H>, url: Seq<char>, h: H)
    requires
        v.capacity >= 1,
        v.entries.len() == v.capacity,
        !has_key(v.entries, url),
    ensures
        insert_spec(v, url, h).entries == v.entries.drop_first().push((url, h)),
{
    lemma_without_absent(v.entries, url);
    assert(v.entries.push((url, h)).drop_first() =~= v.entries.drop_first().push((url, h)));
}

/// Inserting a new URL while there is room keeps every entry and adds it last.
pub proof fn law_insert_new_with_room<H>(v: CacheView<H>, url: Seq<char>, h: H)
    requires
        v.entries.len() < v.capacity,
        !has_key(v.entries, url),
    ensures
        insert_spec(v, url, h).entries == v.entries.push((url, h)),
{
    lemma_without_absent(v.entries, url);
}

} // verus!
