//! View-model helpers: time formatting, quality/mode labels, and the mapping
//! from home-feed sections and explore page modules to rendered card lists,
//! with a graceful fallback for a section type this client does not know.
use vstd::prelude::*;

use crate::json::{field_get, field_text, find_field, id_number, id_text, json_get, json_id_number, json_id_text, json_text, opt_text, Json};
use crate::nav::{EntityRef, EntityView};
use crate::text::{ascii_upper, contains_infix, decimal, has_infix, owned, pad2, push_decimal, push_pad2, same_text, string_from_chars, upper_all};

verus! {

pub open spec fn opt_chars(o: Option<String>) -> Option<Seq<char>> {
    match o {
        Some(s) => Some(s@),
        None => None,
    }
}

pub open spec fn opt_entity(o: Option<EntityRef>) -> Option<EntityView> {
    match o {
        Some(e) => Some(e@),
        None => None,
    }
}

// ---------------------------------------------------------------------------
// Time.

/// `mm:ss`, or `h:mm:ss` past an hour, rounding down to the whole second;
/// an unknown duration is `--:--`.
pub open spec fn mmss_text(ms: Option<u64>) -> Seq<char> {
    match ms {
        None => "--:--"@,
        Some(ms) => {
            let total = ms as nat / 1000;
            let h = total / 3600;
            let m = (total % 3600) / 60;
            let s = total % 60;
            if h > 0 {
                decimal(h) + seq![':'] + pad2(m) + seq![':'] + pad2(s)
            } else {
                pad2(m) + seq![':'] + pad2(s)
            }
        },
    }
}

pub fn mmss(ms: Option<u64>) -> (r: String)
    ensures
        r@ == mmss_text(ms),
{
    let ms = match ms {
        None => {
            return owned("--:--");
        },
        Some(ms) => ms,
    };
    let total_secs = ms / 1000;
    let h = total_secs / 3600;
    let m = (total_secs % 3600) / 60;
    let s = total_secs % 60;
    let mut out: Vec<char> = Vec::new();
    if h > 0 {
        push_decimal(h, &mut out);
        out.push(':');
    }
    push_pad2(m, &mut out);
    out.push(':');
    push_pad2(s, &mut out);
    assert(out@ =~= mmss_text(Some(ms)));
    string_from_chars(&out)
}

// ---------------------------------------------------------------------------
// Audio quality and mode.

/// The audio quality tiers a stream can be delivered at.
#[derive(Debug, Clone, Copy, PartialEq, Eq)]
pub enum AudioQuality {
    Low,
    High,
    Lossless,
    HiResLossless,
    HiResLegacy,
}

/// How a track is mixed.
#[derive(Debug, Clone, Copy, PartialEq, Eq)]
pub enum AudioMode {
    Stereo,
    DolbyAtmos,
    Sony360Ra,
    Unknown,
}

/// The quality badge: the UI's name for what was actually delivered.
pub open spec fn badge_text(q: Option<AudioQuality>) -> Seq<char> {
    match q {
        Some(AudioQuality::HiResLossless) => "MAX"@,
        Some(AudioQuality::Lossless) => "LOSSLESS"@,
        Some(AudioQuality::High) => "HIGH"@,
        Some(AudioQuality::Low) => "LOW"@,
        Some(AudioQuality::HiResLegacy) => "MQA"@,
        None => "—"@,
    }
}

pub fn quality_badge(quality: Option<AudioQuality>) -> (r: String)
    ensures
        r@ == badge_text(quality),
{
    match quality {
        Some(AudioQuality::HiResLossless) => owned("MAX"),
        Some(AudioQuality::Lossless) => owned("LOSSLESS"),
        Some(AudioQuality::High) => owned("HIGH"),
        Some(AudioQuality::Low) => owned("LOW"),
        Some(AudioQuality::HiResLegacy) => owned("MQA"),
        None => owned("—"),
    }
}

/// A codec name naming a lossy (AAC/AC-3 family) codec, case-insensitively
/// in the ASCII range.
pub open spec fn lossy_codec(codec: Option<Seq<char>>) -> bool {
    match codec {
        Some(c) => {
            let u = upper_all(c);
            has_infix(u, seq!['A', 'A', 'C']) || has_infix(u, seq!['H', 'E', '-', 'A', 'A', 'C'])
                || has_infix(u, seq!['E', 'A', 'C', '3']) || has_infix(u, seq!['A', 'C', '3'])
        },
        None => false,
    }
}

/// "Bit-perfect" is a meaningful claim only for a lossless source: neither
/// a lossy codec nor a lossy quality tier.
pub open spec fn bit_perfect_spec(codec: Option<Seq<char>>, quality: Option<AudioQuality>) -> bool {
    !lossy_codec(codec) && !(quality == Some(AudioQuality::Low) || quality == Some(
        AudioQuality::High,
    ))
}

pub fn bit_perfect_applicable(codec: &Option<String>, quality: Option<AudioQuality>) -> (r: bool)
    ensures
        r == bit_perfect_spec(opt_chars(*codec), quality),
{
    let lossy_codec = match codec {
        Some(c) => {
            let u = ascii_upper(c.as_str());
            let aac = vec!['A', 'A', 'C'];
            let he_aac = vec!['H', 'E', '-', 'A', 'A', 'C'];
            let eac3 = vec!['E', 'A', 'C', '3'];
            let ac3 = vec!['A', 'C', '3'];
            assert(aac@ =~= seq!['A', 'A', 'C']);
            assert(he_aac@ =~= seq!['H', 'E', '-', 'A', 'A', 'C']);
            assert(eac3@ =~= seq!['E', 'A', 'C', '3']);
            assert(ac3@ =~= seq!['A', 'C', '3']);
            contains_infix(&u, &aac) || contains_infix(&u, &he_aac) || contains_infix(&u, &eac3)
                || contains_infix(&u, &ac3)
        },
        None => false,
    };
    let lossy_quality = match quality {
        Some(AudioQuality::Low) | Some(AudioQuality::High) => true,
        _ => false,
    };
    !lossy_codec && !lossy_quality
}

pub open spec fn mode_text(mode: Option<AudioMode>) -> Seq<char> {
    match mode {
        Some(AudioMode::DolbyAtmos) => "Dolby Atmos"@,
        Some(AudioMode::Sony360Ra) => "360 Reality Audio"@,
        Some(AudioMode::Stereo) => "Stereo"@,
        None => "Stereo"@,
        Some(AudioMode::Unknown) => "Unknown"@,
    }
}

pub fn audio_mode_label(mode: Option<AudioMode>) -> (r: &'static str)
    ensures
        r@ == mode_text(mode),
{
    match mode {
        Some(AudioMode::DolbyAtmos) => "Dolby Atmos",
        Some(AudioMode::Sony360Ra) => "360 Reality Audio",
        Some(AudioMode::Stereo) | None => "Stereo",
        Some(AudioMode::Unknown) => "Unknown",
    }
}

// ---------------------------------------------------------------------------
// Feed items and sections.

/// One item of a home-feed section: its `type`, optional `title`, its raw
/// `id`, and every other field of the item object.
#[derive(Debug)]
pub struct FeedItem {
    pub kind: String,
    pub title: Option<String>,
    pub id: Option<Json>,
    pub extra: Vec<(String, Json)>,
}

/// A card's view-model: title, subtitle, artwork id and the entity a click
/// navigates to.
#[derive(Debug, Clone)]
pub struct FeedCard {
    pub title: String,
    pub subtitle: Option<String>,
    pub image_id: Option<String>,
    pub entity: Option<EntityRef>,
}

pub struct CardView {
    pub title: Seq<char>,
    pub subtitle: Option<Seq<char>>,
    pub image_id: Option<Seq<char>>,
    pub entity: Option<EntityView>,
}

impl View for FeedCard {
    type V = CardView;

    open spec fn view(&self) -> CardView {
        CardView {
            title: self.title@,
            subtitle: opt_chars(self.subtitle),
            image_id: opt_chars(self.image_id),
            entity: opt_entity(self.entity),
        }
    }
}

/// The string value of one of the item's extra fields.
pub open spec fn extra_text(item: FeedItem, key: Seq<char>) -> Option<Seq<char>> {
    opt_text(field_get(item.extra@, key))
}

pub open spec fn or_else<T>(a: Option<T>, b: Option<T>) -> Option<T> {
    if a is Some {
        a
    } else {
        b
    }
}

pub open spec fn item_number(item: FeedItem) -> Option<u64> {
    match item.id {
        Some(v) => id_number(v),
        None => None,
    }
}

pub open spec fn item_string_id(item: FeedItem) -> Option<Seq<char>> {
    match item.id {
        Some(v) => id_text(v),
        None => None,
    }
}

/// The entity a feed item links to, by its `type`.
pub open spec fn item_entity(item: FeedItem) -> Option<EntityView> {
    let k = item.kind@;
    if k == "ALBUM"@ {
        match item_number(item) {
            Some(n) => Some(EntityView::Album(n)),
            None => None,
        }
    } else if k == "ARTIST"@ {
        match item_number(item) {
            Some(n) => Some(EntityView::Artist(n)),
            None => None,
        }
    } else if k == "TRACK"@ {
        match item_number(item) {
            Some(n) => Some(EntityView::Track(n)),
            None => None,
        }
    } else if k == "PLAYLIST"@ {
        match item_string_id(item) {
            Some(s) => Some(EntityView::Playlist(s)),
            None => None,
        }
    } else if k == "MIX"@ {
        match item_string_id(item) {
            Some(s) => Some(EntityView::Mix(s)),
            None => None,
        }
    } else {
        None
    }
}

pub open spec fn item_title(item: FeedItem) -> Seq<char> {
    match item.title {
        Some(t) => t@,
        None => match extra_text(item, "name"@) {
            Some(n) => n,
            None => Seq::empty(),
        },
    }
}

pub open spec fn item_image(item: FeedItem) -> Option<Seq<char>> {
    or_else(
        extra_text(item, "cover"@),
        or_else(
            extra_text(item, "picture"@),
            or_else(extra_text(item, "image"@), extra_text(item, "squareImage"@)),
        ),
    )
}

pub open spec fn item_subtitle(item: FeedItem) -> Option<Seq<char>> {
    or_else(
        extra_text(item, "artist"@),
        or_else(extra_text(item, "subtitle"@), extra_text(item, "description"@)),
    )
}

/// The card for a feed item, or `None` for an item with nothing to show
/// (no title, no artwork and no entity).
pub open spec fn item_card(item: FeedItem) -> Option<CardView> {
    let title = item_title(item);
    let image_id = item_image(item);
    let entity = item_entity(item);
    if title.len() == 0 && image_id is None && entity is None {
        None
    } else {
        Some(CardView { title, subtitle: item_subtitle(item), image_id, entity })
    }
}

fn first_extra_text(item: &FeedItem, a: &str, b: &str, c: &str, d: &str) -> (r: Option<String>)
    ensures
        opt_chars(r) == or_else(
            extra_text(*item, a@),
            or_else(extra_text(*item, b@), or_else(extra_text(*item, c@), extra_text(*item, d@))),
        ),
{
    match field_text(&item.extra, a) {
        Some(s) => Some(s),
        None => match field_text(&item.extra, b) {
            Some(s) => Some(s),
            None => match field_text(&item.extra, c) {
                Some(s) => Some(s),
                None => field_text(&item.extra, d),
            },
        },
    }
}

fn item_id_number(item: &FeedItem) -> (r: Option<u64>)
    ensures
        r == item_number(*item),
{
    match &item.id {
        Some(v) => json_id_number(v),
        None => None,
    }
}

fn item_id_text(item: &FeedItem) -> (r: Option<String>)
    ensures
        opt_chars(r) == item_string_id(*item),
{
    match &item.id {
        Some(v) => json_id_text(v),
        None => None,
    }
}

fn entity_of(item: &FeedItem) -> (r: Option<EntityRef>)
    ensures
        opt_entity(r) == item_entity(*item),
{
    let k = item.kind.as_str();
    if same_text(k, "ALBUM") {
        match item_id_number(item) {
            Some(n) => Some(EntityRef::Album(n)),
            None => None,
        }
    } else if same_text(k, "ARTIST") {
        match item_id_number(item) {
            Some(n) => Some(EntityRef::Artist(n)),
            None => None,
        }
    } else if same_text(k, "TRACK") {
        match item_id_number(item) {
            Some(n) => Some(EntityRef::Track(n)),
            None => None,
        }
    } else if same_text(k, "PLAYLIST") {
        match item_id_text(item) {
            Some(s) => Some(EntityRef::Playlist(s)),
            None => None,
        }
    } else if same_text(k, "MIX") {
        match item_id_text(item) {
            Some(s) => Some(EntityRef::Mix(s)),
            None => None,
        }
    } else {
        None
    }
}

/// Map one feed item to a card, or `None` for a shape with nothing to show.
pub fn feed_item_to_card(item: &FeedItem) -> (r: Option<FeedCard>)
    ensures
        match r {
            Some(c) => item_card(*item) == Some(c@),
            None => item_card(*item) is None,
        },
{
    let title = match &item.title {
        Some(t) => t.clone(),
        None => match field_text(&item.extra, "name") {
            Some(n) => n,
            None => String::new(),
        },
    };
    let image_id = first_extra_text(item, "cover", "picture", "image", "squareImage");
    let subtitle = match field_text(&item.extra, "artist") {
        Some(s) => Some(s),
        None => match field_text(&item.extra, "subtitle") {
            Some(s) => Some(s),
            None => field_text(&item.extra, "description"),
        },
    };
    let entity = entity_of(item);
    let title_empty = title.as_str().unicode_len() == 0;
    if title_empty && image_id.is_none() && entity.is_none() {
        return None;
    }
    Some(FeedCard { title, subtitle, image_id, entity })
}

/// A rendered section: a recognised list of cards, or the "not supported
/// yet" fallback for a section type this client does not know.
#[derive(Debug, Clone)]
pub enum SectionView {
    Cards { title: String, cards: Vec<FeedCard>, api_path: Option<String> },
    Unsupported { title: String, kind: String },
}

pub enum SectionShape {
    Cards { title: Seq<char>, cards: Seq<CardView>, api_path: Option<Seq<char>> },
    Unsupported { title: Seq<char>, kind: Seq<char> },
}

pub open spec fn cards_view(cards: Seq<FeedCard>) -> Seq<CardView> {
    cards.map_values(|c: FeedCard| c@)
}

impl View for SectionView {
    type V = SectionShape;

    open spec fn view(&self) -> SectionShape {
        match self {
            SectionView::Cards { title, cards, api_path } => SectionShape::Cards {
                title: title@,
                cards: cards_view(cards@),
                api_path: opt_chars(*api_path),
            },
            SectionView::Unsupported { title, kind } => SectionShape::Unsupported {
                title: title@,
                kind: kind@,
            },
        }
    }
}

/// One home-feed section: its `type`, optional title, items, and the path
/// that lists all of them.
#[derive(Debug)]
pub struct FeedSection {
    pub kind: String,
    pub title: Option<String>,
    pub items: Vec<FeedItem>,
    pub api_path: Option<String>,
    pub has_more: bool,
}

/// The section types rendered as card lists.
pub open spec fn known_section_kind(k: Seq<char>) -> bool {
    ||| k == "SHORTCUT_LIST"@
    ||| k == "HORIZONTAL_LIST"@
    ||| k == "HORIZONTAL_LIST_WITH_CONTEXT"@
    ||| k == "TRACK_LIST"@
    ||| k == "MIXED_LIST"@
    ||| k == "GRID"@
}

fn is_known_section_kind(k: &str) -> (r: bool)
    ensures
        r == known_section_kind(k@),
{
    same_text(k, "SHORTCUT_LIST") || same_text(k, "HORIZONTAL_LIST") || same_text(
        k,
        "HORIZONTAL_LIST_WITH_CONTEXT",
    ) || same_text(k, "TRACK_LIST") || same_text(k, "MIXED_LIST") || same_text(k, "GRID")
}

/// The cards of every item that has one, in order.
pub open spec fn feed_cards(items: Seq<FeedItem>) -> Seq<CardView>
    decreases items.len(),
{
    if items.len() == 0 {
        Seq::empty()
    } else {
        let rest = feed_cards(items.drop_last());
        match item_card(items.last()) {
            Some(c) => rest.push(c),
            None => rest,
        }
    }
}

/// A section's title: its own, or else its type name.
pub open spec fn title_or_kind(title: Option<String>, kind: String) -> Seq<char> {
    match title {
        Some(t) => t@,
        None => kind@,
    }
}

/// What a feed section renders as; never fails.
pub open spec fn section_shape(section: FeedSection) -> SectionShape {
    let title = title_or_kind(section.title, section.kind);
    if !known_section_kind(section.kind@) {
        SectionShape::Unsupported { title, kind: section.kind@ }
    } else {
        SectionShape::Cards {
            title,
            cards: feed_cards(section.items@),
            api_path: opt_chars(section.api_path),
        }
    }
}

fn clone_opt(s: &Option<String>) -> (r: Option<String>)
    ensures
        opt_chars(r) == opt_chars(*s),
{
    match s {
        Some(x) => Some(x.clone()),
        None => None,
    }
}

/// Map one feed section to a [`SectionView`]; an unrecognised type becomes
/// [`SectionView::Unsupported`], never a dropped section or an error.
pub fn feed_section_to_view(section: &FeedSection) -> (r: SectionView)
    ensures
        r@ == section_shape(*section),
{
    let title = match &section.title {
        Some(t) => t.clone(),
        None => section.kind.clone(),
    };
    if !is_known_section_kind(section.kind.as_str()) {
        return SectionView::Unsupported { title, kind: section.kind.clone() };
    }
    let mut cards: Vec<FeedCard> = Vec::new();
    let mut i: usize = 0;
    while i < section.items.len()
        invariant
            i <= section.items@.len(),
            cards_view(cards@) == feed_cards(section.items@.subrange(0, i as int)),
        decreases section.items.len() - i,
    {
        let ghost before = cards@;
        let card = feed_item_to_card(&section.items[i]);
        proof {
            let t = section.items@.subrange(0, i + 1);
            assert(t.drop_last() =~= section.items@.subrange(0, i as int));
            assert(t.last() == section.items@[i as int]);
        }
        match card {
            Some(c) => {
                cards.push(c);
                assert(cards_view(cards@) =~= cards_view(before).push(c@));
            },
            None => {},
        }
        i = i + 1;
    }
    assert(section.items@.subrange(0, section.items@.len() as int) =~= section.items@);
    SectionView::Cards { title, cards, api_path: clone_opt(&section.api_path) }
}

// ---------------------------------------------------------------------------
// Explore's v1 page modules: raw JSON items.

/// One v1 page module: its `type`, optional title, raw items and the path
/// that lists all of them.
#[derive(Debug)]
pub struct PageModule {
    pub kind: String,
    pub title: Option<String>,
    pub items: Vec<Json>,
    pub show_more_api_path: Option<String>,
}

pub open spec fn known_module_kind(k: Seq<char>) -> bool {
    ||| k == "ALBUM_LIST"@
    ||| k == "ARTIST_LIST"@
    ||| k == "PLAYLIST_LIST"@
    ||| k == "TRACK_LIST"@
    ||| k == "MIX_LIST"@
    ||| k == "MIXED_TYPES_LIST"@
}

fn is_known_module_kind(k: &str) -> (r: bool)
    ensures
        r == known_module_kind(k@),
{
    same_text(k, "ALBUM_LIST") || same_text(k, "ARTIST_LIST") || same_text(k, "PLAYLIST_LIST")
        || same_text(k, "TRACK_LIST") || same_text(k, "MIX_LIST") || same_text(
        k,
        "MIXED_TYPES_LIST",
    )
}

/// The text value of an object's field.
pub open spec fn get_text(v: Json, key: Seq<char>) -> Option<Seq<char>> {
    opt_text(json_get(v, key))
}

/// A raw item's artwork id: the first of `cover`, `picture`, `image`,
/// `squareImage` holding a string; `None` for a non-object.
pub open spec fn raw_image(v: Json) -> Option<Seq<char>> {
    match v {
        Json::Object(_) => or_else(
            get_text(v, "cover"@),
            or_else(
                get_text(v, "picture"@),
                or_else(get_text(v, "image"@), get_text(v, "squareImage"@)),
            ),
        ),
        _ => None,
    }
}

pub fn raw_item_image_id(value: &Json) -> (r: Option<String>)
    ensures
        opt_chars(r) == raw_image(*value),
{
    match value {
        Json::Object(fields) => match field_text(fields, "cover") {
            Some(s) => Some(s),
            None => match field_text(fields, "picture") {
                Some(s) => Some(s),
                None => match field_text(fields, "image") {
                    Some(s) => Some(s),
                    None => field_text(fields, "squareImage"),
                },
            },
        },
        _ => None,
    }
}

/// A raw item's title: `title` if present (as text, or nothing), otherwise
/// `name`.
pub open spec fn raw_title(v: Json) -> Seq<char> {
    let field = match json_get(v, "title"@) {
        Some(t) => Some(t),
        None => json_get(v, "name"@),
    };
    match opt_text(field) {
        Some(t) => t,
        None => Seq::empty(),
    }
}

/// A raw item's subtitle: `artist.name`.
pub open spec fn raw_subtitle(v: Json) -> Option<Seq<char>> {
    match json_get(v, "artist"@) {
        Some(a) => get_text(a, "name"@),
        None => None,
    }
}

/// The card for a raw v1 item (never with a click target), or `None` for a
/// non-object or an item with neither title nor artwork.
pub open spec fn raw_card(v: Json) -> Option<CardView> {
    match v {
        Json::Object(_) => {
            let title = raw_title(v);
            let image_id = raw_image(v);
            if title.len() == 0 && image_id is None {
                None
            } else {
                Some(CardView { title, subtitle: raw_subtitle(v), image_id, entity: None })
            }
        },
        _ => None,
    }
}

fn text_of(v: &Json) -> (r: Option<String>)
    ensures
        opt_chars(r) == json_text(*v),
{
    match v {
        Json::Text(s) => Some(s.clone()),
        _ => None,
    }
}

fn raw_item_to_card(value: &Json) -> (r: Option<FeedCard>)
    ensures
        match r {
            Some(c) => raw_card(*value) == Some(c@),
            None => raw_card(*value) is None,
        },
{
    let fields = match value {
        Json::Object(fields) => fields,
        _ => {
            return None;
        },
    };
    let title_field = match find_field(fields, "title") {
        Some(i) => Some(i),
        None => find_field(fields, "name"),
    };
    let title = match title_field {
        Some(i) => match text_of(&fields[i].1) {
            Some(t) => t,
            None => String::new(),
        },
        None => String::new(),
    };
    let image_id = raw_item_image_id(value);
    let subtitle = match find_field(fields, "artist") {
        Some(i) => match &fields[i].1 {
            Json::Object(inner) => field_text(inner, "name"),
            _ => None,
        },
        None => None,
    };
    if title.as_str().unicode_len() == 0 && image_id.is_none() {
        return None;
    }
    Some(FeedCard { title, subtitle, image_id, entity: None })
}

pub open spec fn raw_cards(items: Seq<Json>) -> Seq<CardView>
    decreases items.len(),
{
    if items.len() == 0 {
        Seq::empty()
    } else {
        let rest = raw_cards(items.drop_last());
        match raw_card(items.last()) {
            Some(c) => rest.push(c),
            None => rest,
        }
    }
}

pub open spec fn module_shape(module: PageModule) -> SectionShape {
    let title = title_or_kind(module.title, module.kind);
    if !known_module_kind(module.kind@) {
        SectionShape::Unsupported { title, kind: module.kind@ }
    } else {
        SectionShape::Cards {
            title,
            cards: raw_cards(module.items@),
            api_path: opt_chars(module.show_more_api_path),
        }
    }
}

/// Map one v1 page module to a [`SectionView`], with the same graceful
/// fallback for an unknown type as [`feed_section_to_view`].
pub fn page_module_to_view(module: &PageModule) -> (r: SectionView)
    ensures
        r@ == module_shape(*module),
{
    let title = match &module.title {
        Some(t) => t.clone(),
        None => module.kind.clone(),
    };
    if !is_known_module_kind(module.kind.as_str()) {
        return SectionView::Unsupported { title, kind: module.kind.clone() };
    }
    let mut cards: Vec<FeedCard> = Vec::new();
    let mut i: usize = 0;
    while i < module.items.len()
        invariant
            i <= module.items@.len(),
            cards_view(cards@) == raw_cards(module.items@.subrange(0, i as int)),
        decreases module.items.len() - i,
    {
        let ghost before = cards@;
        let card = raw_item_to_card(&module.items[i]);
        proof {
            let t = module.items@.subrange(0, i + 1);
            assert(t.drop_last() =~= module.items@.subrange(0, i as int));
            assert(t.last() == module.items@[i as int]);
        }
        match card {
            Some(c) => {
                cards.push(c);
                assert(cards_view(cards@) =~= cards_view(before).push(c@));
            },
            None => {},
        }
        i = i + 1;
    }
    assert(module.items@.subrange(0, module.items@.len() as int) =~= module.items@);
    SectionView::Cards { title, cards, api_path: clone_opt(&module.show_more_api_path) }
}

/// The entity a feed item's card opens on a click, if it has a card.
pub open spec fn card_entity(item: FeedItem) -> Option<EntityView> {
    match item_card(item) {
        Some(c) => c.entity,
        None => None,
    }
}

/// A feed item's card opens the entity its `type` names, with the item's
/// id: an ALBUM, ARTIST or TRACK with a numeric id opens that album, artist
/// or track; a PLAYLIST or MIX with a text id opens that playlist or mix.
/// Whatever the id, a card never opens an entity of another kind than its
/// type names, and an item of any other type opens nothing.
pub proof fn law_card_opens_the_named_kind(item: FeedItem, n: u64, t: String)
    ensures
        item.kind@ == "ALBUM"@ && item.id == Some(Json::Number(Some(n))) ==> card_entity(item)
            == Some(EntityView::Album(n)),
        item.kind@ == "ARTIST"@ && item.id == Some(Json::Number(Some(n))) ==> card_entity(item)
            == Some(EntityView::Artist(n)),
        item.kind@ == "TRACK"@ && item.id == Some(Json::Number(Some(n))) ==> card_entity(item)
            == Some(EntityView::Track(n)),
        item.kind@ == "PLAYLIST"@ && item.id == Some(Json::Text(t)) ==> card_entity(item) == Some(
            EntityView::Playlist(t@),
        ),
        item.kind@ == "MIX"@ && item.id == Some(Json::Text(t)) ==> card_entity(item) == Some(
            EntityView::Mix(t@),
        ),
        item.kind@ == "ALBUM"@ ==> (card_entity(item) is None || card_entity(item) is Some
            && card_entity(item).unwrap() is Album),
        item.kind@ == "ARTIST"@ ==> (card_entity(item) is None || card_entity(item) is Some
            && card_entity(item).unwrap() is Artist),
        item.kind@ == "TRACK"@ ==> (card_entity(item) is None || card_entity(item) is Some
            && card_entity(item).unwrap() is Track),
        item.kind@ == "PLAYLIST"@ ==> (card_entity(item) is None || card_entity(item) is Some
            && card_entity(item).unwrap() is Playlist),
        item.kind@ == "MIX"@ ==> (card_entity(item) is None || card_entity(item) is Some
            && card_entity(item).unwrap() is Mix),
        item.kind@ != "ALBUM"@ && item.kind@ != "ARTIST"@ && item.kind@ != "TRACK"@ && item.kind@
            != "PLAYLIST"@ && item.kind@ != "MIX"@ ==> card_entity(item) is None,
{
    reveal_strlit("ALBUM");
    reveal_strlit("ARTIST");
    reveal_strlit("TRACK");
    reveal_strlit("PLAYLIST");
    reveal_strlit("MIX");
    assert("ALBUM"@ != "ARTIST"@ && "ALBUM"@ != "TRACK"@ && "ALBUM"@ != "PLAYLIST"@ && "ALBUM"@
        != "MIX"@) by {
        assert("ALBUM"@[1] != "ARTIST"@[1]);
        assert("ALBUM"@[0] != "TRACK"@[0]);
        assert("ALBUM"@.len() != "PLAYLIST"@.len());
        assert("ALBUM"@.len() != "MIX"@.len());
    }
    assert("ARTIST"@ != "TRACK"@ && "ARTIST"@ != "PLAYLIST"@ && "ARTIST"@ != "MIX"@) by {
        assert("ARTIST"@.len() != "TRACK"@.len());
        assert("ARTIST"@.len() != "PLAYLIST"@.len());
        assert("ARTIST"@.len() != "MIX"@.len());
    }
    assert("TRACK"@ != "PLAYLIST"@ && "TRACK"@ != "MIX"@) by {
        assert("TRACK"@.len() != "PLAYLIST"@.len());
        assert("TRACK"@.len() != "MIX"@.len());
    }
    assert("PLAYLIST"@ != "MIX"@) by {
        assert("PLAYLIST"@.len() != "MIX"@.len());
    }
}

} // verus!
