//! Explore: the one-shot v1 page of modules, rendered with the same
//! graceful unknown-module card as Home, and per-module "view all".
use vstd::prelude::*;

use crate::actions::ScreenEffect;
use crate::album::{one, only_images};
use crate::favorites::strings_view;
use crate::format::{opt_chars, raw_image, raw_item_image_id, FeedItem, PageModule};
use crate::home::{
    items_images, load_more_error, load_more_error_text, no_request, push_item_images, Request,
};
use crate::json::Json;
use crate::nav::EntityRef;

verus! {

/// One row of a v1 page: the modules laid out in it.
#[derive(Debug)]
pub struct PageRow {
    pub modules: Vec<PageModule>,
}

/// An item of a "view all" page: as it parsed, and as the raw JSON value
/// the module keeps.
#[derive(Debug)]
pub struct ExpandedItem {
    pub item: FeedItem,
    pub raw: Json,
}

/// A module as the screen keeps it.
pub struct ModuleModel {
    pub kind: Seq<char>,
    pub title: Option<Seq<char>>,
    pub items: Seq<Json>,
    pub show_more_api_path: Option<Seq<char>>,
}

pub open spec fn module_model(m: PageModule) -> ModuleModel {
    ModuleModel {
        kind: m.kind@,
        title: opt_chars(m.title),
        items: m.items@,
        show_more_api_path: opt_chars(m.show_more_api_path),
    }
}

pub open spec fn modules_model(s: Seq<PageModule>) -> Seq<ModuleModel> {
    s.map_values(|m: PageModule| module_model(m))
}

/// The modules of every row, row by row.
pub open spec fn rows_modules(rows: Seq<PageRow>) -> Seq<PageModule>
    decreases rows.len(),
{
    if rows.len() == 0 {
        Seq::empty()
    } else {
        rows_modules(rows.drop_last()) + rows.last().modules@
    }
}

/// The artwork ids of raw items that have one, in order.
pub open spec fn raw_images(items: Seq<Json>) -> Seq<Seq<char>>
    decreases items.len(),
{
    if items.len() == 0 {
        Seq::empty()
    } else {
        let rest = raw_images(items.drop_last());
        match raw_image(items.last()) {
            Some(s) => rest.push(s),
            None => rest,
        }
    }
}

/// The artwork ids of every module's items, module by module.
pub open spec fn modules_images(modules: Seq<PageModule>) -> Seq<Seq<char>>
    decreases modules.len(),
{
    if modules.len() == 0 {
        Seq::empty()
    } else {
        modules_images(modules.drop_last()) + raw_images(modules.last().items@)
    }
}

/// The parsed items of a "view all" page.
pub open spec fn parsed(items: Seq<ExpandedItem>) -> Seq<FeedItem> {
    items.map_values(|e: ExpandedItem| e.item)
}

/// The raw values of a "view all" page.
pub open spec fn raws(items: Seq<ExpandedItem>) -> Seq<Json> {
    items.map_values(|e: ExpandedItem| e.raw)
}

fn push_raw_images(items: &Vec<Json>, out: &mut Vec<String>)
    ensures
        strings_view(final(out)@) == strings_view(old(out)@) + raw_images(items@),
{
    let ghost start = strings_view(out@);
    let mut i: usize = 0;
    assert(raw_images(items@.subrange(0, 0)) =~= Seq::<Seq<char>>::empty());
    assert(strings_view(out@) =~= start + raw_images(items@.subrange(0, 0)));
    while i < items.len()
        invariant
            i <= items@.len(),
            strings_view(out@) == start + raw_images(items@.subrange(0, i as int)),
        decreases items.len() - i,
    {
        let ghost before = out@;
        proof {
            let t = items@.subrange(0, i + 1);
            assert(t.drop_last() =~= items@.subrange(0, i as int));
            assert(t.last() == items@[i as int]);
        }
        match raw_item_image_id(&items[i]) {
            Some(s) => {
                out.push(s);
                assert(strings_view(out@) =~= strings_view(before).push(s@));
            },
            None => {},
        }
        i = i + 1;
    }
    assert(items@.subrange(0, items@.len() as int) =~= items@);
}

pub struct State {
    pub modules: Vec<PageModule>,
    pub loading: bool,
    pub error: Option<String>,
}

pub struct ExploreView {
    pub modules: Seq<ModuleModel>,
    pub loading: bool,
    pub error: Option<Seq<char>>,
}

impl View for State {
    type V = ExploreView;

    open spec fn view(&self) -> ExploreView {
        ExploreView {
            modules: modules_model(self.modules@),
            loading: self.loading,
            error: opt_chars(self.error),
        }
    }
}

#[derive(Debug)]
pub enum Message {
    Loaded(Result<Vec<PageRow>, String>),
    ViewAll(usize, String),
    ViewAllLoaded(usize, Result<Vec<ExpandedItem>, String>),
    CardClicked(EntityRef),
}

/// Splits a "view all" page into its parsed items and its raw values.
fn split_expanded(items: Vec<ExpandedItem>) -> (r: (Vec<FeedItem>, Vec<Json>))
    ensures
        r.0@ == parsed(items@),
        r.1@ == raws(items@),
{
    let ghost orig = items@;
    let mut items = items;
    let mut parsed_items: Vec<FeedItem> = Vec::new();
    let mut raw_items: Vec<Json> = Vec::new();
    let n = items.len();
    let mut i: usize = 0;
    while items.len() > 0
        invariant
            orig.len() == n,
            i + items@.len() == orig.len(),
            items@ == orig.subrange(i as int, orig.len() as int),
            parsed_items@ == parsed(orig.subrange(0, i as int)),
            raw_items@ == raws(orig.subrange(0, i as int)),
        decreases items.len(),
    {
        let e = items.remove(0);
        assert(e == orig[i as int]);
        parsed_items.push(e.item);
        raw_items.push(e.raw);
        i = i + 1;
        assert(items@ =~= orig.subrange(i as int, orig.len() as int));
        assert(parsed_items@ =~= parsed(orig.subrange(0, i as int)));
        assert(raw_items@ =~= raws(orig.subrange(0, i as int)));
    }
    assert(orig.subrange(0, i as int) =~= orig);
    (parsed_items, raw_items)
}

/// The screen's answer to one message: `post` is the screen after `pre`
/// handled `message`, and `r` the request and effects it produced.
pub open spec fn explore_step(
    pre: ExploreView,
    message: Message,
    post: ExploreView,
    r: (Option<Request>, Vec<ScreenEffect>),
) -> bool {
    match message {
        Message::Loaded(Ok(rows)) => post == (ExploreView {
            modules: modules_model(rows_modules(rows@)),
            loading: false,
            error: None,
        }) && r.0 is None && only_images(r.1@, modules_images(rows_modules(rows@))),
        Message::Loaded(Err(e)) => post == (ExploreView {
            loading: false,
            error: Some(e@),
            ..pre
        }) && no_request(r),
        Message::ViewAll(index, api_path) => post == pre && r.1@.len() == 0
            && (r.0 matches Some(Request::Expand { index: i, api_path: p, offset }) && i
            == index && p@ == api_path@ && offset == if index < pre.modules.len() {
            pre.modules[index as int].items.len() as u32
        } else {
            0u32
        }),
        Message::ViewAllLoaded(index, Ok(items)) => post == (ExploreView {
            modules: if index < pre.modules.len() {
                pre.modules.update(
                    index as int,
                    ModuleModel {
                        items: pre.modules[index as int].items + raws(items@),
                        ..pre.modules[index as int]
                    },
                )
            } else {
                pre.modules
            },
            ..pre
        }) && r.0 is None && only_images(r.1@, items_images(parsed(items@))),
        Message::ViewAllLoaded(_, Err(e)) => post == (ExploreView {
            error: Some(load_more_error(e@)),
            ..pre
        }) && no_request(r),
        Message::CardClicked(entity) => post == pre && r.0 is None
            && r.1@.len() == 1 && (r.1@[0] matches ScreenEffect::Navigate(e) && e@
            == entity@),
    }
}

impl State {
    pub fn new() -> (r: State)
        ensures
            r@ == (ExploreView { modules: Seq::empty(), loading: true, error: None }),
    {
        let r = State { modules: Vec::new(), loading: true, error: None };
        assert(modules_model(r.modules@) =~= Seq::<ModuleModel>::empty());
        r
    }

    /// The fetch opening Explore starts.
    pub fn load() -> (r: Request)
        ensures
            r is LoadExplore,
    {
        Request::LoadExplore
    }

    /// Artwork ids of every module's items.
    pub fn image_ids(&self) -> (r: Vec<String>)
        ensures
            strings_view(r@) == modules_images(self.modules@),
    {
        let mut out: Vec<String> = Vec::new();
        let mut i: usize = 0;
        while i < self.modules.len()
            invariant
                i <= self.modules@.len(),
                strings_view(out@) == modules_images(self.modules@.subrange(0, i as int)),
            decreases self.modules.len() - i,
        {
            proof {
                let t = self.modules@.subrange(0, i + 1);
                assert(t.drop_last() =~= self.modules@.subrange(0, i as int));
                assert(t.last() == self.modules@[i as int]);
            }
            push_raw_images(&self.modules[i].items, &mut out);
            i = i + 1;
        }
        assert(self.modules@.subrange(0, self.modules@.len() as int) =~= self.modules@);
        out
    }

    #[verifier::rlimit(30)]
    pub fn update(&mut self, message: Message) -> (r: (Option<Request>, Vec<ScreenEffect>))
        ensures
            explore_step(old(self)@, message, final(self)@, r),
    {
        match message {
            Message::Loaded(Ok(rows)) => {
                self.loading = false;
                self.error = None;
                self.modules = flatten_rows(rows);
                (None, one(ScreenEffect::ImagesNeeded(self.image_ids())))
            },
            Message::Loaded(Err(e)) => {
                self.loading = false;
                self.error = Some(e);
                (None, Vec::new())
            },
            Message::ViewAll(index, api_path) => {
                let offset = if index < self.modules.len() {
                    self.modules[index].items.len() as u32
                } else {
                    0
                };
                (Some(Request::Expand { index, api_path, offset }), Vec::new())
            },
            Message::ViewAllLoaded(index, Ok(items)) => {
                let (parsed_items, mut raw_items) = split_expanded(items);
                let mut images: Vec<String> = Vec::new();
                push_item_images(&parsed_items, &mut images);
                assert(strings_view(images@) =~= items_images(parsed_items@));
                if index < self.modules.len() {
                    let mut module = self.modules.remove(index);
                    module.items.append(&mut raw_items);
                    self.modules.insert(index, module);
                    proof {
                        assert(modules_model(self.modules@) =~= modules_model(
                            old(self).modules@,
                        ).update(index as int, module_model(module)));
                    }
                }
                (None, one(ScreenEffect::ImagesNeeded(images)))
            },
            Message::ViewAllLoaded(_, Err(e)) => {
                self.error = Some(load_more_error_text(e.as_str()));
                (None, Vec::new())
            },
            Message::CardClicked(entity) => (None, one(ScreenEffect::Navigate(entity))),
        }
    }
}

/// The modules of every row, in order.
fn flatten_rows(rows: Vec<PageRow>) -> (r: Vec<PageModule>)
    ensures
        r@ == rows_modules(rows@),
{
    let ghost orig = rows@;
    let mut rows = rows;
    let mut out: Vec<PageModule> = Vec::new();
    let n = rows.len();
    let mut i: usize = 0;
    while rows.len() > 0
        invariant
            orig.len() == n,
            i + rows@.len() == orig.len(),
            rows@ == orig.subrange(i as int, orig.len() as int),
            out@ == rows_modules(orig.subrange(0, i as int)),
        decreases rows.len(),
    {
        let row = rows.remove(0);
        assert(row == orig[i as int]);
        let mut modules = row.modules;
        let ghost before = out@;
        out.append(&mut modules);
        proof {
            let t = orig.subrange(0, i + 1);
            assert(t.drop_last() =~= orig.subrange(0, i as int));
            assert(t.last() == orig[i as int]);
        }
        i = i + 1;
        assert(rows@ =~= orig.subrange(i as int, orig.len() as int));
    }
    assert(orig.subrange(0, i as int) =~= orig);
    out
}

/// "View all" asks for the items after the ones the module already shows,
/// and the answer appends each fetched item's raw value to that module
/// alone, in order; every other module stays as it was.
pub proof fn law_view_all_extends_only_its_module(
    pre: ExploreView,
    index: usize,
    api_path: String,
    items: Vec<ExpandedItem>,
    asked: ExploreView,
    r1: (Option<Request>, Vec<ScreenEffect>),
    post: ExploreView,
    r: (Option<Request>, Vec<ScreenEffect>),
)
    requires
        explore_step(pre, Message::ViewAll(index, api_path), asked, r1),
        explore_step(pre, Message::ViewAllLoaded(index, Ok(items)), post, r),
        index < pre.modules.len(),
    ensures
        asked == pre,
        r1.0 matches Some(Request::Expand { index: i, offset, .. }) && i == index && offset
            == pre.modules[index as int].items.len() as u32,
        post.modules.len() == pre.modules.len(),
        post.modules[index as int].items.len() == pre.modules[index as int].items.len()
            + items@.len(),
        forall|k: int|
            0 <= k < pre.modules[index as int].items.len() ==> #[trigger] post.modules[index as int].items[k]
                == pre.modules[index as int].items[k],
        forall|k: int|
            0 <= k < items@.len() ==> post.modules[index as int].items[pre.modules[index as int].items.len()
                + k] == (#[trigger] items@[k]).raw,
        post.modules[index as int].kind == pre.modules[index as int].kind,
        forall|j: int|
            0 <= j < pre.modules.len() && j != index ==> #[trigger] post.modules[j]
                == pre.modules[j],
        r.0 is None,
{
}

} // verus!
