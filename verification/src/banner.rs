//! The notification banner area: warnings, errors and playback takeovers
//! each push one dismissible, auto-expiring banner; a takeover banner also
//! offers a "Resume" button whose press is reported as user intent.
use vstd::prelude::*;

verus! {

/// How long a banner stays up before it expires on its own, in milliseconds.
pub const AUTO_EXPIRE_MS: u64 = 8000;

#[derive(Debug, Clone, Copy, PartialEq, Eq)]
pub enum Tone {
    Warning,
    Danger,
    Info,
}

/// One banner on screen.
#[derive(Debug, Clone)]
pub struct Entry {
    pub id: u64,
    pub message: String,
    pub tone: Tone,
    /// A takeover banner: shows a "Resume" button.
    pub resumable: bool,
}

pub struct EntryView {
    pub id: u64,
    pub message: Seq<char>,
    pub tone: Tone,
    pub resumable: bool,
}

impl View for Entry {
    type V = EntryView;

    open spec fn view(&self) -> EntryView {
        EntryView { id: self.id, message: self.message@, tone: self.tone, resumable: self.resumable }
    }
}

pub open spec fn entries_view(v: Seq<Entry>) -> Seq<EntryView> {
    v.map_values(|e: Entry| e@)
}

/// The banners shown, oldest first, and the id the next one gets.
pub struct BannerView {
    pub items: Seq<EntryView>,
    pub next_id: u64,
}

pub struct State {
    items: Vec<Entry>,
    next_id: u64,
}

#[derive(Debug, Clone, Copy, PartialEq, Eq)]
pub enum Message {
    Dismiss(u64),
    Expire(u64),
    Resume(u64),
}

#[derive(Debug, Clone, Copy, PartialEq, Eq)]
pub enum Effect {
    /// The user pressed "Resume" on a takeover banner.
    Resume,
}

/// A request to deliver `Message::Expire(id)` after `delay_ms`.
#[derive(Debug, Clone, Copy, PartialEq, Eq)]
pub struct ExpireAfter {
    pub id: u64,
    pub delay_ms: u64,
}

/// The banners left once banner `id` is gone.
pub open spec fn remove_id(items: Seq<EntryView>, id: u64) -> Seq<EntryView> {
    items.filter(id_is_not(id))
}

/// The banner's id is not `id`.
pub open spec fn id_is_not(id: u64) -> spec_fn(EntryView) -> bool {
    |e: EntryView| e.id != id
}

/// Ids increase from oldest to newest and all come before `next_id`.
pub open spec fn ids_ordered(items: Seq<EntryView>, next_id: u64) -> bool {
    &&& forall|i: int, j: int| 0 <= i < j < items.len() ==> #[trigger] items[i].id < #[trigger] items[j].id
    &&& forall|i: int| 0 <= i < items.len() ==> #[trigger] items[i].id < next_id
}

impl View for State {
    type V = BannerView;

    closed spec fn view(&self) -> BannerView {
        BannerView { items: entries_view(self.items@), next_id: self.next_id }
    }
}

impl State {
    pub open spec fn wf(&self) -> bool {
        ids_ordered(self@.items, self@.next_id)
    }

    pub fn new() -> (r: State)
        ensures
            r.wf(),
            r@.items.len() == 0,
            r@.next_id == 0,
    {
        let r = State { items: Vec::new(), next_id: 0 };
        assert(entries_view(r.items@) =~= Seq::<EntryView>::empty());
        r
    }

    /// The banners, oldest first.
    pub fn items(&self) -> (r: &Vec<Entry>)
        ensures
            entries_view(r@) == self@.items,
    {
        &self.items
    }

    pub fn is_empty(&self) -> (r: bool)
        ensures
            r == (self@.items.len() == 0),
    {
        self.items.len() == 0
    }

    /// Push one banner; it expires after [`AUTO_EXPIRE_MS`] unless dismissed.
    pub fn push(&mut self, message: String, tone: Tone, resumable: bool) -> (r: ExpireAfter)
        requires
            old(self).wf(),
            old(self)@.next_id < u64::MAX,
        ensures
            final(self).wf(),
            r == (ExpireAfter { id: old(self)@.next_id, delay_ms: AUTO_EXPIRE_MS }),
            final(self)@.next_id == old(self)@.next_id + 1,
            final(self)@.items == old(self)@.items.push(
                EntryView { id: old(self)@.next_id, message: message@, tone, resumable },
            ),
    {
        let id = self.next_id;
        self.next_id = self.next_id + 1;
        let ghost before = self.items@;
        let entry = Entry { id, message, tone, resumable };
        self.items.push(entry);
        assert(entries_view(self.items@) =~= entries_view(before).push(entry@));
        ExpireAfter { id, delay_ms: AUTO_EXPIRE_MS }
    }

    fn remove(&mut self, id: u64)
        requires
            old(self).wf(),
        ensures
            final(self).wf(),
            final(self)@.items == remove_id(old(self)@.items, id),
            final(self)@.next_id == old(self)@.next_id,
    {
        
        let ghost orig = entries_view(self.items@);
        let mut rest: Vec<Entry> = Vec::new();
        std::mem::swap(&mut rest, &mut self.items);
        let mut kept: Vec<Entry> = Vec::new();
        let ghost mut i: int = 0;
        while rest.len() > 0
            invariant
                0 <= i <= orig.len(),
                entries_view(rest@) == orig.subrange(i, orig.len() as int),
                entries_view(kept@) == orig.subrange(0, i).filter(id_is_not(id)),
                ids_ordered(orig, self.next_id),
                ids_ordered(entries_view(kept@), self.next_id),
                forall|k: int, j: int|
                    0 <= k < kept@.len() && i <= j < orig.len() ==> #[trigger] kept@[k].id
                        < #[trigger] orig[j].id,
            decreases rest.len(),
        {
            let ghost before = kept@;
            let ghost old_rest = rest@;
            assert(entries_view(old_rest).len() == old_rest.len());
            assert(entries_view(old_rest)[0] == old_rest[0]@);
            assert(orig.subrange(i, orig.len() as int)[0] == orig[i]);
            let e = rest.remove(0);
            proof {
                assert(e@ == orig[i]);
                assert(orig.subrange(0, i + 1).drop_last() =~= orig.subrange(0, i));
                reveal_with_fuel(Seq::filter, 1);
                assert(rest@ =~= old_rest.drop_first());
                assert forall|k: int| 0 <= k < rest@.len() implies entries_view(rest@)[k] == orig.subrange(
                    i + 1,
                    orig.len() as int,
                )[k] by {
                    assert(entries_view(rest@)[k] == rest@[k]@);
                    assert(rest@[k] == old_rest[k + 1]);
                    assert(entries_view(old_rest)[k + 1] == old_rest[k + 1]@);
                }
                assert(entries_view(rest@) =~= orig.subrange(i + 1, orig.len() as int));
                let s1 = orig.subrange(0, i + 1);
                assert(s1.last() == orig[i]);
                assert(s1.filter(id_is_not(id)) == if id_is_not(id)(orig[i]) {
                    orig.subrange(0, i).filter(id_is_not(id)).push(orig[i])
                } else {
                    orig.subrange(0, i).filter(id_is_not(id))
                });
            }
            if e.id != id {
                kept.push(e);
                proof {
                    assert(entries_view(kept@) =~= entries_view(before).push(orig[i]));
                    let kv = entries_view(kept@);
                    assert forall|a: int, b: int| 0 <= a < b < kv.len() implies #[trigger] kv[a].id
                        < #[trigger] kv[b].id by {
                        if b == kv.len() - 1 {
                            assert(kv[a].id == before[a].id);
                        } else {
                            assert(kv[a] == entries_view(before)[a]);
                            assert(kv[b] == entries_view(before)[b]);
                        }
                    }
                    assert forall|a: int| 0 <= a < kv.len() implies #[trigger] kv[a].id < self.next_id by {
                        if a < kv.len() - 1 {
                            assert(kv[a] == entries_view(before)[a]);
                        }
                    }
                }
            }
            proof {
                assert forall|k: int, j: int|
                    0 <= k < kept@.len() && i + 1 <= j < orig.len() implies #[trigger] kept@[k].id
                        < #[trigger] orig[j].id by {
                    if k < before.len() {
                        assert(kept@[k] == before[k]);
                        assert(before[k].id < orig[j].id);
                    } else {
                        assert(kept@[k]@ == orig[i]);
                        assert(orig[i].id < orig[j].id);
                    }
                }
                if e.id != id {
                    assert(entries_view(kept@) == orig.subrange(0, i + 1).filter(id_is_not(id)));
                } else {
                    assert(!id_is_not(id)(orig[i]));
                    assert(kept@ == before);
                    assert(entries_view(kept@) == orig.subrange(0, i + 1).filter(id_is_not(id)));
                }
                i = i + 1;
            }
        }
        assert(orig.subrange(0, orig.len() as int) =~= orig);
        self.items = kept;
    }

    pub fn update(&mut self, message: Message) -> (r: Option<Effect>)
        requires
            old(self).wf(),
        ensures
            final(self).wf(),
            final(self)@.next_id == old(self)@.next_id,
            match message {
                Message::Dismiss(id) => final(self)@.items == remove_id(old(self)@.items, id)
                    && r is None,
                Message::Expire(id) => final(self)@.items == remove_id(old(self)@.items, id)
                    && r is None,
                Message::Resume(id) => final(self)@.items == remove_id(old(self)@.items, id)
                    && r == Some(Effect::Resume),
            },
    {
        match message {
            Message::Dismiss(id) | Message::Expire(id) => {
                self.remove(id);
                None
            },
            Message::Resume(id) => {
                self.remove(id);
                Some(Effect::Resume)
            },
        }
    }
}

proof fn lemma_remove_absent_id(items: Seq<EntryView>, id: u64)
    requires
        forall|i: int| 0 <= i < items.len() ==> #[trigger] items[i].id != id,
    ensures
        remove_id(items, id) == items,
    decreases items.len(),
{
    reveal_with_fuel(Seq::filter, 1);
    if items.len() > 0 {
        let d = items.drop_last();
        assert forall|i: int| 0 <= i < d.len() implies #[trigger] d[i].id != id by {
            assert(d[i] == items[i]);
        }
        lemma_remove_absent_id(d, id);
        assert(items.last().id != id);
        assert(d.push(items.last()) =~= items);
    } else {
        assert(remove_id(items, id) =~= items);
    }
}

/// Dismissing (or expiring) a banner that was just pushed leaves exactly
/// the banners that were there before it.
pub proof fn law_push_then_dismiss(v: BannerView, message: Seq<char>, tone: Tone, resumable: bool)
    requires
        ids_ordered(v.items, v.next_id),
    ensures
        remove_id(
            v.items.push(EntryView { id: v.next_id, message, tone, resumable }),
            v.next_id,
        ) == v.items,
{
    reveal_with_fuel(Seq::filter, 1);
    let pushed = v.items.push(EntryView { id: v.next_id, message, tone, resumable });
    assert(pushed.drop_last() =~= v.items);
    lemma_remove_absent_id(v.items, v.next_id);
}

/// Dismissing an id no banner has changes nothing.
pub proof fn law_dismiss_unknown_is_noop(v: BannerView, id: u64)
    requires
        forall|i: int| 0 <= i < v.items.len() ==> #[trigger] v.items[i].id != id,
    ensures
        remove_id(v.items, id) == v.items,
{
    lemma_remove_absent_id(v.items, id);
}

} // verus!
