//! Home and Explore: the server-driven feed sections (Home: a tab bar, a
//! paging cursor, per-section "view all"; Explore: the one-shot v1 page of
//! modules), each with the graceful card for a section type this client
//! does not know.
use vstd::prelude::*;

use crate::actions::ScreenEffect;
use crate::album::{one, only_images};
use crate::favorites::strings_view;
use crate::format::{feed_cards, feed_item_to_card, opt_chars, CardView, FeedItem, FeedSection};
use crate::nav::EntityRef;
use crate::text::{decimal, decimal_string, owned, push_str};

verus! {

/// How many items one "view all" page asks for.
pub const VIEW_ALL_LIMIT: u32 = 20;

/// The artwork ids of the cards that have one, in order.
pub open spec fn card_images(cards: Seq<CardView>) -> Seq<Seq<char>>
    decreases cards.len(),
{
    if cards.len() == 0 {
        Seq::empty()
    } else {
        let rest = card_images(cards.drop_last());
        match cards.last().image_id {
            Some(s) => rest.push(s),
            None => rest,
        }
    }
}

/// The artwork ids of the cards of `items`, in order.
pub open spec fn items_images(items: Seq<FeedItem>) -> Seq<Seq<char>> {
    card_images(feed_cards(items))
}

proof fn lemma_items_images_push(items: Seq<FeedItem>, i: int)
    requires
        0 <= i < items.len(),
    ensures
        items_images(items.subrange(0, i + 1)) == match crate::format::item_card(items[i]) {
            Some(c) => match c.image_id {
                Some(s) => items_images(items.subrange(0, i)).push(s),
                None => items_images(items.subrange(0, i)),
            },
            None => items_images(items.subrange(0, i)),
        },
{
    let t = items.subrange(0, i + 1);
    assert(t.drop_last() =~= items.subrange(0, i));
    assert(t.last() == items[i]);
    match crate::format::item_card(items[i]) {
        Some(c) => {
            assert(feed_cards(t) == feed_cards(items.subrange(0, i)).push(c));
            assert(feed_cards(t).drop_last() =~= feed_cards(items.subrange(0, i)));
        },
        None => {},
    }
}

/// Appends the artwork ids of the cards of `items` to `out`.
pub fn push_item_images(items: &Vec<FeedItem>, out: &mut Vec<String>)
    ensures
        strings_view(final(out)@) == strings_view(old(out)@) + items_images(items@),
{
    let ghost start = strings_view(out@);
    let mut i: usize = 0;
    assert(items_images(items@.subrange(0, 0)) =~= Seq::<Seq<char>>::empty());
    assert(strings_view(out@) =~= start + items_images(items@.subrange(0, 0)));
    while i < items.len()
        invariant
            i <= items@.len(),
            strings_view(out@) == start + items_images(items@.subrange(0, i as int)),
        decreases items.len() - i,
    {
        let ghost before = out@;
        proof {
            lemma_items_images_push(items@, i as int);
        }
        match feed_item_to_card(&items[i]) {
            Some(card) => match card.image_id {
                Some(s) => {
                    out.push(s);
                    assert(strings_view(out@) =~= strings_view(before).push(s@));
                },
                None => {},
            },
            None => {},
        }
        i = i + 1;
    }
    assert(items@.subrange(0, items@.len() as int) =~= items@);
}

/// The artwork ids of every section's cards, section by section.
pub open spec fn sections_images(sections: Seq<FeedSection>) -> Seq<Seq<char>>
    decreases sections.len(),
{
    if sections.len() == 0 {
        Seq::empty()
    } else {
        sections_images(sections.drop_last()) + items_images(sections.last().items@)
    }
}

/// A section as the screen keeps it.
pub struct SectionModel {
    pub kind: Seq<char>,
    pub title: Option<Seq<char>>,
    pub items: Seq<FeedItem>,
    pub api_path: Option<Seq<char>>,
    pub has_more: bool,
}

pub open spec fn section_model(s: FeedSection) -> SectionModel {
    SectionModel {
        kind: s.kind@,
        title: opt_chars(s.title),
        items: s.items@,
        api_path: opt_chars(s.api_path),
        has_more: s.has_more,
    }
}

pub open spec fn sections_model(s: Seq<FeedSection>) -> Seq<SectionModel> {
    s.map_values(|x: FeedSection| section_model(x))
}

/// One tab of the home header: its name, and the feed slug it opens (when
/// it names one).
#[derive(Debug, Clone)]
pub struct HomeTab {
    pub name: Option<String>,
    pub slug: Option<String>,
}

/// A tab's label: its name, or "Tab" and its position.
pub open spec fn tab_label_text(name: Option<Seq<char>>, index: nat) -> Seq<char> {
    match name {
        Some(n) => n,
        None => "Tab "@ + decimal(index),
    }
}

pub fn tab_label(tab: &HomeTab, index: usize) -> (r: String)
    ensures
        r@ == tab_label_text(opt_chars(tab.name), index as nat),
{
    match &tab.name {
        Some(n) => n.clone(),
        None => {
            let mut v: Vec<char> = Vec::new();
            push_str("Tab ", &mut v);
            let d = decimal_string(index as u64);
            push_str(d.as_str(), &mut v);
            proof {
                reveal_strlit("Tab ");
            }
            assert(v@ =~= "Tab "@ + decimal(index as nat));
            crate::text::string_from_chars(&v)
        },
    }
}

/// The tab bar shows only when there is more than one tab.
pub fn shows_tab_bar(tabs: &Vec<HomeTab>) -> (r: bool)
    ensures
        r == (tabs@.len() > 1),
{
    tabs.len() > 1
}

/// A page of the home feed: its sections and the cursor of the next page.
#[derive(Debug)]
pub struct HomeFeed {
    pub items: Vec<FeedSection>,
    pub cursor: Option<String>,
}

pub struct State {
    pub tabs: Vec<HomeTab>,
    pub active_tab: usize,
    pub sections: Vec<FeedSection>,
    pub cursor: Option<String>,
    pub loading: bool,
    pub error: Option<String>,
}

pub struct HomeView {
    pub tabs: Seq<HomeTab>,
    pub active_tab: usize,
    pub sections: Seq<SectionModel>,
    pub cursor: Option<Seq<char>>,
    pub loading: bool,
    pub error: Option<Seq<char>>,
}

impl View for State {
    type V = HomeView;

    open spec fn view(&self) -> HomeView {
        HomeView {
            tabs: self.tabs@,
            active_tab: self.active_tab,
            sections: sections_model(self.sections@),
            cursor: opt_chars(self.cursor),
            loading: self.loading,
            error: opt_chars(self.error),
        }
    }
}

#[derive(Debug)]
pub enum Message {
    TabsLoaded(Result<Vec<HomeTab>, String>),
    FeedLoaded(Result<HomeFeed, String>),
    SelectTab(usize),
    LoadMore,
    ViewAll(usize, String),
    ViewAllLoaded(usize, Result<Vec<FeedItem>, String>),
    CardClicked(EntityRef),
}

/// Work a feed screen needs done.
#[derive(Debug, Clone)]
pub enum Request {
    LoadTabs,
    /// Fetch the feed of tab `slug`, from `cursor` on when given.
    LoadFeed { slug: String, cursor: Option<String> },
    /// Fetch one page of section `index`'s full list from `api_path`,
    /// starting at `offset`.
    Expand { index: usize, api_path: String, offset: u32 },
    LoadExplore,
}

/// The slug of tab `index`, when there is such a tab and it names one.
pub open spec fn slug_at(tabs: Seq<HomeTab>, index: int) -> Option<Seq<char>> {
    if 0 <= index < tabs.len() {
        opt_chars(tabs[index].slug)
    } else {
        None
    }
}

/// The message an expansion failure leaves on the screen.
pub open spec fn load_more_error(e: Seq<char>) -> Seq<char> {
    "couldn't load more: "@ + e
}

pub fn load_more_error_text(e: &str) -> (r: String)
    ensures
        r@ == load_more_error(e@),
{
    let mut v: Vec<char> = Vec::new();
    push_str("couldn't load more: ", &mut v);
    push_str(e, &mut v);
    proof {
        reveal_strlit("couldn't load more: ");
    }
    assert(v@ =~= load_more_error(e@));
    crate::text::string_from_chars(&v)
}

/// The offset a "view all" of section `index` starts at: the number of
/// items it already shows, or 0 for no such section.
pub open spec fn expand_offset(sections: Seq<SectionModel>, index: int) -> u32 {
    if 0 <= index < sections.len() {
        sections[index].items.len() as u32
    } else {
        0
    }
}

pub open spec fn no_request(r: (Option<Request>, Vec<ScreenEffect>)) -> bool {
    r.0 is None && r.1@.len() == 0
}

fn slug_of(tabs: &Vec<HomeTab>, index: usize) -> (r: Option<String>)
    ensures
        opt_chars(r) == slug_at(tabs@, index as int),
{
    if index < tabs.len() {
        match &tabs[index].slug {
            Some(s) => Some(s.clone()),
            None => None,
        }
    } else {
        None
    }
}

fn images_of_sections(sections: &Vec<FeedSection>) -> (r: Vec<String>)
    ensures
        strings_view(r@) == sections_images(sections@),
{
    let mut out: Vec<String> = Vec::new();
    let mut i: usize = 0;
    while i < sections.len()
        invariant
            i <= sections@.len(),
            strings_view(out@) == sections_images(sections@.subrange(0, i as int)),
        decreases sections.len() - i,
    {
        proof {
            let t = sections@.subrange(0, i + 1);
            assert(t.drop_last() =~= sections@.subrange(0, i as int));
            assert(t.last() == sections@[i as int]);
        }
        push_item_images(&sections[i].items, &mut out);
        i = i + 1;
    }
    assert(sections@.subrange(0, sections@.len() as int) =~= sections@);
    out
}

/// The screen's answer to one message: `post` is the screen after `pre`
/// handled `message`, and `r` the request and effects it produced.
pub open spec fn home_step(
    pre: HomeView,
    message: Message,
    post: HomeView,
    r: (Option<Request>, Vec<ScreenEffect>),
) -> bool {
    match message {
        Message::TabsLoaded(Ok(tabs)) => post == (HomeView {
            tabs: tabs@,
            ..pre
        }) && no_request(r),
        Message::TabsLoaded(Err(_)) => post == pre && no_request(r),
        Message::FeedLoaded(Ok(feed)) => post == (HomeView {
            loading: false,
            error: None,
            cursor: opt_chars(feed.cursor),
            sections: sections_model(feed.items@),
            ..pre
        }) && r.0 is None && only_images(r.1@, sections_images(feed.items@)),
        Message::FeedLoaded(Err(e)) => post == (HomeView {
            loading: false,
            error: Some(e@),
            ..pre
        }) && no_request(r),
        Message::SelectTab(index) => r.1@.len() == 0 && match slug_at(
            pre.tabs,
            index as int,
        ) {
            Some(slug) => post == (HomeView {
                active_tab: index,
                loading: true,
                cursor: None,
                ..pre
            }) && (r.0 matches Some(Request::LoadFeed { slug: s, cursor }) && s@ == slug
                && cursor is None),
            None => post == pre && r.0 is None,
        },
        Message::LoadMore => post == pre && r.1@.len() == 0 && match pre.cursor {
            Some(c) => r.0 matches Some(Request::LoadFeed { slug: s, cursor: Some(c2) })
                && c2@ == c && s@ == match slug_at(
                pre.tabs,
                pre.active_tab as int,
            ) {
                Some(slug) => slug,
                None => "static"@,
            },
            None => r.0 is None,
        },
        Message::ViewAll(index, api_path) => post == pre && r.1@.len() == 0
            && (r.0 matches Some(Request::Expand { index: i, api_path: p, offset }) && i
            == index && p@ == api_path@ && offset == expand_offset(
            pre.sections,
            index as int,
        )),
        Message::ViewAllLoaded(index, Ok(items)) => post == (HomeView {
            sections: if index < pre.sections.len() {
                pre.sections.update(
                    index as int,
                    SectionModel {
                        items: pre.sections[index as int].items + items@,
                        has_more: false,
                        ..pre.sections[index as int]
                    },
                )
            } else {
                pre.sections
            },
            ..pre
        }) && r.0 is None && only_images(r.1@, items_images(items@)),
        Message::ViewAllLoaded(index, Err(e)) => post == (HomeView {
            sections: if index < pre.sections.len() {
                pre.sections.update(
                    index as int,
                    SectionModel { has_more: false, ..pre.sections[index as int] },
                )
            } else {
                pre.sections
            },
            error: Some(load_more_error(e@)),
            ..pre
        }) && no_request(r),
        Message::CardClicked(entity) => post == pre && r.0 is None
            && r.1@.len() == 1 && (r.1@[0] matches ScreenEffect::Navigate(e) && e@
            == entity@),
    }
}

impl State {
    pub fn new() -> (r: State)
        ensures
            r@ == (HomeView {
                tabs: Seq::empty(),
                active_tab: 0,
                sections: Seq::empty(),
                cursor: None,
                loading: true,
                error: None,
            }),
    {
        let r = State {
            tabs: Vec::new(),
            active_tab: 0,
            sections: Vec::new(),
            cursor: None,
            loading: true,
            error: None,
        };
        assert(sections_model(r.sections@) =~= Seq::<SectionModel>::empty());
        r
    }

    /// The fetches opening Home starts: the tab list, and the default feed.
    pub fn load() -> (r: Vec<Request>)
        ensures
            r@.len() == 2,
            r@[0] is LoadTabs,
            r@[1] matches Request::LoadFeed { slug, cursor } && slug@ == "static"@ && cursor is None,
    {
        let mut v: Vec<Request> = Vec::new();
        v.push(Request::LoadTabs);
        v.push(Request::LoadFeed { slug: owned("static"), cursor: None });
        v
    }

    /// Artwork ids of every card on the page.
    pub fn image_ids(&self) -> (r: Vec<String>)
        ensures
            strings_view(r@) == sections_images(self.sections@),
    {
        images_of_sections(&self.sections)
    }

    #[verifier::rlimit(30)]
    pub fn update(&mut self, message: Message) -> (r: (Option<Request>, Vec<ScreenEffect>))
        ensures
            home_step(old(self)@, message, final(self)@, r),
    {
        match message {
            Message::TabsLoaded(Ok(tabs)) => {
                self.tabs = tabs;
                (None, Vec::new())
            },
            Message::TabsLoaded(Err(_)) => (None, Vec::new()),
            Message::FeedLoaded(Ok(feed)) => {
                self.loading = false;
                self.error = None;
                self.cursor = feed.cursor;
                self.sections = feed.items;
                (None, one(ScreenEffect::ImagesNeeded(self.image_ids())))
            },
            Message::FeedLoaded(Err(e)) => {
                self.loading = false;
                self.error = Some(e);
                (None, Vec::new())
            },
            Message::SelectTab(index) => {
                match slug_of(&self.tabs, index) {
                    Some(slug) => {
                        self.active_tab = index;
                        self.loading = true;
                        self.cursor = None;
                        (Some(Request::LoadFeed { slug, cursor: None }), Vec::new())
                    },
                    None => (None, Vec::new()),
                }
            },
            Message::LoadMore => {
                match &self.cursor {
                    Some(c) => {
                        let slug = match slug_of(&self.tabs, self.active_tab) {
                            Some(s) => s,
                            None => owned("static"),
                        };
                        (Some(Request::LoadFeed { slug, cursor: Some(c.clone()) }), Vec::new())
                    },
                    None => (None, Vec::new()),
                }
            },
            Message::ViewAll(index, api_path) => {
                let offset = if index < self.sections.len() {
                    self.sections[index].items.len() as u32
                } else {
                    0
                };
                (Some(Request::Expand { index, api_path, offset }), Vec::new())
            },
            Message::ViewAllLoaded(index, Ok(items)) => {
                let mut images: Vec<String> = Vec::new();
                push_item_images(&items, &mut images);
                assert(strings_view(images@) =~= items_images(items@));
                if index < self.sections.len() {
                    let mut items = items;
                    let mut section = self.sections.remove(index);
                    section.items.append(&mut items);
                    section.has_more = false;
                    self.sections.insert(index, section);
                    proof {
                        assert(sections_model(self.sections@) =~= sections_model(
                            old(self).sections@,
                        ).update(index as int, section_model(section)));
                    }
                }
                (None, one(ScreenEffect::ImagesNeeded(images)))
            },
            Message::ViewAllLoaded(index, Err(e)) => {
                if index < self.sections.len() {
                    let mut section = self.sections.remove(index);
                    section.has_more = false;
                    self.sections.insert(index, section);
                    proof {
                        assert(sections_model(self.sections@) =~= sections_model(
                            old(self).sections@,
                        ).update(index as int, section_model(section)));
                    }
                }
                self.error = Some(load_more_error_text(e.as_str()));
                (None, Vec::new())
            },
            Message::CardClicked(entity) => (None, one(ScreenEffect::Navigate(entity))),
        }
    }
}

/// "View all" on a section appends the fetched items to that section
/// alone, after the ones it already showed, and marks it complete; every
/// other section and the feed's paging stay as they were.
pub proof fn law_view_all_extends_only_its_section(
    pre: HomeView,
    index: usize,
    items: Vec<FeedItem>,
    post: HomeView,
    r: (Option<Request>, Vec<ScreenEffect>),
)
    requires
        home_step(pre, Message::ViewAllLoaded(index, Ok(items)), post, r),
        index < pre.sections.len(),
    ensures
        post.sections.len() == pre.sections.len(),
        post.sections[index as int].items == pre.sections[index as int].items + items@,
        !post.sections[index as int].has_more,
        post.sections[index as int].kind == pre.sections[index as int].kind,
        forall|j: int|
            0 <= j < pre.sections.len() && j != index ==> #[trigger] post.sections[j]
                == pre.sections[j],
        post.cursor == pre.cursor && post.active_tab == pre.active_tab,
        r.0 is None,
{
}

/// Choosing a tab that has a slug loads that tab's feed from its first
/// page and shows it as active; choosing one without a slug changes
/// nothing and loads nothing.
pub proof fn law_select_tab_loads_that_tab(
    pre: HomeView,
    index: usize,
    post: HomeView,
    r: (Option<Request>, Vec<ScreenEffect>),
)
    requires
        home_step(pre, Message::SelectTab(index), post, r),
    ensures
        index < pre.tabs.len() && pre.tabs[index as int].slug is Some ==> post.active_tab == index
            && post.loading && post.cursor is None && (r.0 matches Some(
            Request::LoadFeed { slug, cursor },
        ) && cursor is None && (pre.tabs[index as int].slug matches Some(t) && slug@ == t@)),
        !(index < pre.tabs.len() && pre.tabs[index as int].slug is Some) ==> post == pre && r.0
            is None,
{
}

} // verus!
