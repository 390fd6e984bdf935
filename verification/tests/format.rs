use streamboat_desktop::format::{
    audio_mode_label, bit_perfect_applicable, feed_item_to_card, feed_section_to_view, mmss,
    page_module_to_view, quality_badge, raw_item_image_id, AudioMode, AudioQuality, FeedItem,
    FeedSection, PageModule, SectionView,
};
use streamboat_desktop::json::Json;
use streamboat_desktop::nav::EntityRef;

fn text(s: &str) -> Json {
    Json::Text(s.to_string())
}

fn obj(fields: Vec<(&str, Json)>) -> Json {
    Json::Object(fields.into_iter().map(|(k, v)| (k.to_string(), v)).collect())
}

fn item(kind: &str, id: Option<Json>, title: Option<&str>, extra: Vec<(&str, Json)>) -> FeedItem {
    FeedItem {
        kind: kind.to_string(),
        title: title.map(str::to_string),
        id,
        extra: extra.into_iter().map(|(k, v)| (k.to_string(), v)).collect(),
    }
}

fn section(kind: &str, title: Option<&str>, items: Vec<FeedItem>) -> FeedSection {
    FeedSection {
        kind: kind.to_string(),
        title: title.map(str::to_string),
        items,
        api_path: None,
        has_more: false,
    }
}

#[test]
fn mmss_formats_sub_hour_durations() {
    assert_eq!(mmss(Some(0)), "00:00");
    assert_eq!(mmss(Some(65_000)), "01:05");
    assert_eq!(mmss(None), "--:--");
}

#[test]
fn mmss_formats_past_an_hour() {
    assert_eq!(mmss(Some(3_661_000)), "1:01:01");
}

#[test]
fn mmss_drops_partial_seconds_and_pads_minutes() {
    assert_eq!(mmss(Some(59_999)), "00:59");
    assert_eq!(mmss(Some(600_000)), "10:00");
    assert_eq!(mmss(Some(36_000_000)), "10:00:00");
}

#[test]
fn quality_badge_uses_the_ui_label_not_the_wire_name() {
    assert_eq!(quality_badge(Some(AudioQuality::Lossless)), "LOSSLESS");
    assert_eq!(quality_badge(Some(AudioQuality::HiResLossless)), "MAX");
    assert_eq!(quality_badge(None), "—");
}

#[test]
fn bit_perfect_not_applicable_for_aac() {
    assert!(!bit_perfect_applicable(
        &Some("AAC".to_string()),
        Some(AudioQuality::High)
    ));
    assert!(bit_perfect_applicable(
        &Some("FLAC".to_string()),
        Some(AudioQuality::Lossless)
    ));
}

#[test]
fn bit_perfect_reads_codec_names_case_insensitively() {
    assert!(!bit_perfect_applicable(&Some("mp4a.40.2 aac".to_string()), None));
    assert!(!bit_perfect_applicable(&Some("eac3".to_string()), Some(AudioQuality::Lossless)));
    assert!(!bit_perfect_applicable(&None, Some(AudioQuality::Low)));
    assert!(bit_perfect_applicable(&None, None));
}

#[test]
fn audio_mode_labels() {
    assert_eq!(audio_mode_label(Some(AudioMode::DolbyAtmos)), "Dolby Atmos");
    assert_eq!(audio_mode_label(Some(AudioMode::Stereo)), "Stereo");
}

#[test]
fn known_section_maps_items_to_cards() {
    let s = section(
        "HORIZONTAL_LIST",
        Some("Suggested New Albums"),
        vec![
            item(
                "ALBUM",
                Some(Json::Number(Some(42))),
                Some("Synthetic Album"),
                vec![("cover", text("abc"))],
            ),
            item("ARTIST", Some(text("99")), Some("Synthetic Artist"), vec![]),
        ],
    );
    match feed_section_to_view(&s) {
        SectionView::Cards { title, cards, .. } => {
            assert_eq!(title, "Suggested New Albums");
            assert_eq!(cards.len(), 2);
            assert_eq!(cards[0].entity, Some(EntityRef::Album(42)));
            assert_eq!(cards[1].entity, Some(EntityRef::Artist(99)));
        }
        SectionView::Unsupported { .. } => panic!("expected Cards"),
    }
}

#[test]
fn unknown_section_type_falls_back_gracefully() {
    let s = section(
        "SOME_FUTURE_MODULE_TYPE",
        Some("New From TIDAL"),
        vec![item("TRACK", Some(Json::Number(Some(1))), Some("Whatever"), vec![])],
    );
    match feed_section_to_view(&s) {
        SectionView::Unsupported { title, kind } => {
            assert_eq!(title, "New From TIDAL");
            assert_eq!(kind, "SOME_FUTURE_MODULE_TYPE");
        }
        SectionView::Cards { .. } => panic!("expected Unsupported fallback"),
    }
}

#[test]
fn section_with_no_title_falls_back_to_the_type_name() {
    let s = section("WEIRD_TYPE", None, vec![]);
    match feed_section_to_view(&s) {
        SectionView::Unsupported { title, .. } => assert_eq!(title, "WEIRD_TYPE"),
        SectionView::Cards { .. } => panic!("expected Unsupported fallback"),
    }
}

#[test]
fn known_v1_module_maps_raw_items_to_cards() {
    let module = PageModule {
        kind: "ALBUM_LIST".to_string(),
        title: Some("New Releases".to_string()),
        items: vec![obj(vec![("title", text("Synthetic Album")), ("cover", text("abc"))])],
        show_more_api_path: None,
    };
    match page_module_to_view(&module) {
        SectionView::Cards { title, cards, .. } => {
            assert_eq!(title, "New Releases");
            assert_eq!(cards.len(), 1);
            assert_eq!(cards[0].title, "Synthetic Album");
        }
        SectionView::Unsupported { .. } => panic!("expected Cards"),
    }
}

#[test]
fn unknown_v1_module_type_falls_back_gracefully() {
    let module = PageModule {
        kind: "TEXT_BLOCK".to_string(),
        title: Some("About".to_string()),
        items: vec![],
        show_more_api_path: None,
    };
    match page_module_to_view(&module) {
        SectionView::Unsupported { title, kind } => {
            assert_eq!(title, "About");
            assert_eq!(kind, "TEXT_BLOCK");
        }
        SectionView::Cards { .. } => panic!("expected Unsupported fallback"),
    }
}

#[test]
fn a_card_takes_its_artwork_and_subtitle_from_the_first_field_present() {
    let card = feed_item_to_card(&item(
        "PLAYLIST",
        Some(text("uuid-1")),
        None,
        vec![
            ("name", text("From Name")),
            ("squareImage", text("sq")),
            ("description", text("desc")),
        ],
    ))
    .expect("a card");
    assert_eq!(card.title, "From Name");
    assert_eq!(card.image_id.as_deref(), Some("sq"));
    assert_eq!(card.subtitle.as_deref(), Some("desc"));
    assert_eq!(card.entity, Some(EntityRef::Playlist("uuid-1".into())));
}

#[test]
fn an_item_with_nothing_to_show_has_no_card() {
    assert!(feed_item_to_card(&item("UNKNOWN", None, None, vec![])).is_none());
}

#[test]
fn raw_item_artwork_prefers_cover_then_picture() {
    let v = obj(vec![("picture", text("p")), ("cover", text("c"))]);
    assert_eq!(raw_item_image_id(&v).as_deref(), Some("c"));
    let v = obj(vec![("picture", text("p"))]);
    assert_eq!(raw_item_image_id(&v).as_deref(), Some("p"));
    assert!(raw_item_image_id(&Json::Null).is_none());
}
