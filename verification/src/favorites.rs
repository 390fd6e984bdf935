//! Pieces every entity screen shares: a screen's set of favourite track
//! ids, the items it lists (an id, an artwork id, and the payload the view
//! renders), and the artwork/track-id lists derived from them.
use std::collections::HashSet;

use vstd::prelude::*;

use crate::format::opt_chars;
use crate::text::{decimal, decimal_string, parse_u64, parse_unsigned_spec, same_text};

verus! {

/// Record a favourite toggle's outcome: the track is now a favourite or not.
pub fn apply_favorite(set: &mut HashSet<u64>, id: u64, now: bool)
    ensures
        final(set)@ == if now {
            old(set)@.insert(id)
        } else {
            old(set)@.remove(id)
        },
{
    broadcast use vstd::std_specs::hash::group_hash_axioms;

    if now {
        set.insert(id);
    } else {
        set.remove(&id);
    }
}

/// Whether a track is a favourite.
pub fn is_favorite(set: &HashSet<u64>, id: u64) -> (r: bool)
    ensures
        r == set@.contains(id),
{
    broadcast use vstd::std_specs::hash::group_hash_axioms;

    set.contains(&id)
}

/// An empty favourite set.
pub fn no_favorites() -> (r: HashSet<u64>)
    ensures
        r@ == Set::<u64>::empty(),
{
    HashSet::new()
}

/// A listed entity: its numeric id, its artwork id (if any), and what the
/// view renders.
#[derive(Debug, Clone)]
pub struct Item<T> {
    pub id: u64,
    pub image: Option<String>,
    pub data: T,
}

/// An entry of a track/video list (playlist or mix items): the track id
/// when it is a track, its album's artwork id, and what the view renders.
#[derive(Debug, Clone)]
pub struct Entry<T> {
    pub track: Option<u64>,
    pub image: Option<String>,
    pub data: T,
}

/// The artwork ids of the items that have one, in order.
pub open spec fn images_of<T>(items: Seq<Item<T>>) -> Seq<Seq<char>>
    decreases items.len(),
{
    if items.len() == 0 {
        Seq::empty()
    } else {
        let rest = images_of(items.drop_last());
        match items.last().image {
            Some(s) => rest.push(s@),
            None => rest,
        }
    }
}

/// The ids of the items, in order.
pub open spec fn ids_of<T>(items: Seq<Item<T>>) -> Seq<u64> {
    items.map_values(|i: Item<T>| i.id)
}

/// The track ids of the entries that are tracks, in order.
pub open spec fn entry_tracks<T>(entries: Seq<Entry<T>>) -> Seq<u64>
    decreases entries.len(),
{
    if entries.len() == 0 {
        Seq::empty()
    } else {
        let rest = entry_tracks(entries.drop_last());
        match entries.last().track {
            Some(id) => rest.push(id),
            None => rest,
        }
    }
}

/// The album artwork ids of the track entries that have one, in order.
pub open spec fn entry_images<T>(entries: Seq<Entry<T>>) -> Seq<Seq<char>>
    decreases entries.len(),
{
    if entries.len() == 0 {
        Seq::empty()
    } else {
        let rest = entry_images(entries.drop_last());
        let e = entries.last();
        match (e.track, e.image) {
            (Some(_), Some(s)) => rest.push(s@),
            _ => rest,
        }
    }
}

pub open spec fn strings_view(v: Seq<String>) -> Seq<Seq<char>> {
    v.map_values(|s: String| s@)
}

pub fn image_ids<T>(items: &Vec<Item<T>>) -> (r: Vec<String>)
    ensures
        strings_view(r@) == images_of(items@),
{
    let mut out: Vec<String> = Vec::new();
    let mut i: usize = 0;
    while i < items.len()
        invariant
            i <= items@.len(),
            strings_view(out@) == images_of(items@.subrange(0, i as int)),
        decreases items.len() - i,
    {
        let ghost before = out@;
        proof {
            let t = items@.subrange(0, i + 1);
            assert(t.drop_last() =~= items@.subrange(0, i as int));
            assert(t.last() == items@[i as int]);
        }
        match &items[i].image {
            Some(s) => {
                let c = s.clone();
                out.push(c);
                assert(strings_view(out@) =~= strings_view(before).push(c@));
            },
            None => {},
        }
        i = i + 1;
    }
    assert(items@.subrange(0, items@.len() as int) =~= items@);
    out
}

pub fn item_ids<T>(items: &Vec<Item<T>>) -> (r: Vec<u64>)
    ensures
        r@ == ids_of(items@),
{
    let mut out: Vec<u64> = Vec::new();
    let mut i: usize = 0;
    while i < items.len()
        invariant
            i <= items@.len(),
            out@ == ids_of(items@.subrange(0, i as int)),
        decreases items.len() - i,
    {
        out.push(items[i].id);
        i = i + 1;
        assert(out@ =~= ids_of(items@.subrange(0, i as int)));
    }
    assert(items@.subrange(0, items@.len() as int) =~= items@);
    out
}

pub fn track_ids<T>(entries: &Vec<Entry<T>>) -> (r: Vec<u64>)
    ensures
        r@ == entry_tracks(entries@),
{
    let mut out: Vec<u64> = Vec::new();
    let mut i: usize = 0;
    while i < entries.len()
        invariant
            i <= entries@.len(),
            out@ == entry_tracks(entries@.subrange(0, i as int)),
        decreases entries.len() - i,
    {
        proof {
            let t = entries@.subrange(0, i + 1);
            assert(t.drop_last() =~= entries@.subrange(0, i as int));
            assert(t.last() == entries@[i as int]);
        }
        match entries[i].track {
            Some(id) => out.push(id),
            None => {},
        }
        i = i + 1;
    }
    assert(entries@.subrange(0, entries@.len() as int) =~= entries@);
    out
}

pub fn entry_image_ids<T>(entries: &Vec<Entry<T>>) -> (r: Vec<String>)
    ensures
        strings_view(r@) == entry_images(entries@),
{
    let mut out: Vec<String> = Vec::new();
    let mut i: usize = 0;
    while i < entries.len()
        invariant
            i <= entries@.len(),
            strings_view(out@) == entry_images(entries@.subrange(0, i as int)),
        decreases entries.len() - i,
    {
        let ghost before = out@;
        proof {
            let t = entries@.subrange(0, i + 1);
            assert(t.drop_last() =~= entries@.subrange(0, i as int));
            assert(t.last() == entries@[i as int]);
        }
        match (&entries[i].track, &entries[i].image) {
            (Some(_), Some(s)) => {
                let c = s.clone();
                out.push(c);
                assert(strings_view(out@) =~= strings_view(before).push(c@));
            },
            _ => {},
        }
        i = i + 1;
    }
    assert(entries@.subrange(0, entries@.len() as int) =~= entries@);
    out
}

/// An optional artwork id as a list of zero or one ids.
pub fn image_list(image: &Option<String>) -> (r: Vec<String>)
    ensures
        strings_view(r@) == match opt_chars(*image) {
            Some(s) => seq![s],
            None => Seq::empty(),
        },
{
    let mut out: Vec<String> = Vec::new();
    match image {
        Some(s) => {
            let c = s.clone();
            out.push(c);
            assert(strings_view(out@) =~= seq![c@]);
        },
        None => {
            assert(strings_view(out@) =~= Seq::<Seq<char>>::empty());
        },
    }
    out
}


/// The item's id is not `id`.
pub open spec fn item_id_is_not<T>(id: u64) -> spec_fn(Item<T>) -> bool {
    |i: Item<T>| i.id != id
}

/// Drops every item whose id is `id`, keeping the others in order.
pub fn retain_other_ids<T>(items: &mut Vec<Item<T>>, id: u64)
    ensures
        final(items)@ == old(items)@.filter(item_id_is_not::<T>(id)),
{
    let ghost orig = items@;
    let ghost p = item_id_is_not::<T>(id);
    let mut i: usize = 0;
    let ghost mut j: int = 0;
    assert(orig.subrange(0, 0).filter(p) =~= Seq::<Item<T>>::empty());
    assert(items@ =~= orig.subrange(0, 0).filter(p) + orig.subrange(0, orig.len() as int));
    while i < items.len()
        invariant
            0 <= j <= orig.len(),
            p == item_id_is_not::<T>(id),
            i == orig.subrange(0, j).filter(p).len(),
            items@ == orig.subrange(0, j).filter(p) + orig.subrange(j, orig.len() as int),
        decreases items.len() - i,
    {
        let ghost kept = orig.subrange(0, j).filter(p);
        proof {
            let s1 = orig.subrange(0, j + 1);
            assert(s1.drop_last() =~= orig.subrange(0, j));
            assert(s1.last() == orig[j]);
            assert(items@[i as int] == orig[j]);
            assert(orig.subrange(j, orig.len() as int).drop_first() =~= orig.subrange(j + 1, orig.len() as int));
            reveal_with_fuel(Seq::filter, 1);
            assert(s1.filter(p) == if p(orig[j]) {
                kept.push(orig[j])
            } else {
                kept
            });
        }
        if items[i].id == id {
            items.remove(i);
            proof {
                j = j + 1;
                assert(items@ =~= orig.subrange(0, j).filter(p) + orig.subrange(j, orig.len() as int));
            }
        } else {
            i = i + 1;
            proof {
                j = j + 1;
                assert(items@ =~= orig.subrange(0, j).filter(p) + orig.subrange(j, orig.len() as int));
            }
        }
    }
    proof {
        assert(j == orig.len());
        assert(orig.subrange(0, j) =~= orig);
        assert(items@ =~= orig.filter(p));
    }
}


/// The numeric ids among `ids`: every entry that parses as a `u64`.
pub open spec fn parsed_ids(ids: Seq<String>) -> Set<u64> {
    Set::new(
        |n: u64|
            exists|i: int|
                0 <= i < ids.len() && #[trigger] parse_unsigned_spec(ids[i]@, u64::MAX as nat)
                    == Some(n),
    )
}

/// The favourite track ids, from the id list the service returns as text;
/// entries that are not numbers are skipped.
pub fn favorite_track_ids(ids: &Vec<String>) -> (r: HashSet<u64>)
    ensures
        r@ == parsed_ids(ids@),
{
    broadcast use vstd::std_specs::hash::group_hash_axioms;

    let mut out: HashSet<u64> = HashSet::new();
    let mut i: usize = 0;
    while i < ids.len()
        invariant
            i <= ids@.len(),
            out@ == parsed_ids(ids@.subrange(0, i as int)),
        decreases ids.len() - i,
    {
        let ghost before = out@;
        let parsed = parse_u64(ids[i].as_str());
        match parsed {
            Some(n) => {
                out.insert(n);
            },
            None => {},
        }
        proof {
            let t = ids@.subrange(0, i + 1);
            assert forall|m: u64| #[trigger] parsed_ids(t).contains(m) == out@.contains(m) by {
                if parsed_ids(t).contains(m) {
                    let k = choose|k: int|
                        0 <= k < t.len() && #[trigger] parse_unsigned_spec(t[k]@, u64::MAX as nat)
                            == Some(m);
                    if k < i {
                        assert(ids@.subrange(0, i as int)[k] == t[k]);
                        assert(parsed_ids(ids@.subrange(0, i as int)).contains(m));
                    }
                }
                if out@.contains(m) {
                    if before.contains(m) {
                        let k = choose|k: int|
                            0 <= k < i && #[trigger] parse_unsigned_spec(
                                ids@.subrange(0, i as int)[k]@,
                                u64::MAX as nat,
                            ) == Some(m);
                        assert(t[k] == ids@.subrange(0, i as int)[k]);
                    } else {
                        assert(t[i as int] == ids@[i as int]);
                    }
                }
            }
            assert(parsed_ids(t) =~= out@);
        }
        i = i + 1;
    }
    assert(ids@.subrange(0, ids@.len() as int) =~= ids@);
    out
}

/// Whether `list` holds `id` spelled in decimal.
pub fn lists_id(list: &Vec<String>, id: u64) -> (r: bool)
    ensures
        r == exists|i: int| 0 <= i < list@.len() && #[trigger] list@[i]@ == decimal(id as nat),
{
    let text = decimal_string(id);
    lists_text(list, text.as_str())
}

/// Whether `list` holds `s`.
pub fn lists_text(list: &Vec<String>, s: &str) -> (r: bool)
    ensures
        r == exists|i: int| 0 <= i < list@.len() && #[trigger] list@[i]@ == s@,
{
    let mut i: usize = 0;
    while i < list.len()
        invariant
            i <= list@.len(),
            forall|k: int| 0 <= k < i ==> #[trigger] list@[k]@ != s@,
        decreases list.len() - i,
    {
        if same_text(list[i].as_str(), s) {
            return true;
        }
        i = i + 1;
    }
    false
}

/// The label of a favourite toggle.
pub fn favorite_label(is_favorite: bool) -> (r: &'static str)
    ensures
        r@ == (if is_favorite {
            "♥ Favourited"@
        } else {
            "♡ Favourite"@
        }),
{
    if is_favorite {
        "♥ Favourited"
    } else {
        "♡ Favourite"
    }
}

} // verus!
