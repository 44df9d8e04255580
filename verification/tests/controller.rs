use note2self::query::{Date, DateRange, SortKey};
use note2self::router::{resolve, ViewDescriptor, ViewName};
use note2self::state::{Action, App, AppMsg, CacheEntry};

fn entry(url: &str, time: i64) -> CacheEntry {
    CacheEntry { url: url.to_string(), time, tags: Vec::new() }
}

fn fetch_entries_parts(a: &Action) -> (&str, u64) {
    match a {
        Action::FetchEntries { query, gen } => (query.as_str(), *gen),
        other => panic!("expected an entries fetch, got {:?}", other),
    }
}

fn fetch_tags_parts(a: &Action) -> (&str, u64) {
    match a {
        Action::FetchTags { query, gen } => (query.as_str(), *gen),
        other => panic!("expected a tags fetch, got {:?}", other),
    }
}

#[test]
fn default_construction_queries() {
    let (app, actions) = App::new();
    assert_eq!(actions.len(), 2);
    let (eq_query, eq_gen) = fetch_entries_parts(&actions[0]);
    assert_eq!(eq_query, "/all/cache?sort=time&limit=150");
    assert_eq!(eq_gen, 1);
    let (tq_query, tq_gen) = fetch_tags_parts(&actions[1]);
    assert_eq!(tq_query, "/all/tags?min=10");
    assert_eq!(tq_gen, 1);
    assert_eq!(app.current_query.as_str(), "/all/cache?sort=time&limit=150");
    assert!(app.entries.is_none());
    assert!(app.tags.is_none());
    assert!(app.selected_entry.is_none());
    assert!(app.last_error.is_none());
}

#[test]
fn default_refresh_with_empty_entries_and_two_tags() {
    let (mut app, _) = App::new();
    let (redraw, actions) =
        app.update(AppMsg::TagsReceived { gen: 1, result: Ok(vec!["tag1".to_string(), "tag2".to_string()]) });
    assert!(redraw);
    assert!(actions.is_empty());
    let (redraw, actions) = app.update(AppMsg::EntriesReceived { gen: 1, result: Ok(vec![]) });
    assert!(redraw);
    assert!(actions.is_empty());
    assert_eq!(app.entries.as_ref().map(|v| v.len()), Some(0));
    assert_eq!(
        app.tags,
        Some(vec!["tag1".to_string(), "tag2".to_string()])
    );
    assert!(app.last_error.is_none());
}

#[test]
fn tag_selected_builds_tag_query() {
    let (mut app, _) = App::new();
    let (redraw, actions) = app.update(AppMsg::TagSelected(Some("foo".to_string())));
    assert!(redraw);
    assert_eq!(app.current_query.as_str(), "/all/cache?sort=time&tag=foo&limit=150");
    let (query, gen) = fetch_entries_parts(&actions[0]);
    assert_eq!(query, "/all/cache?sort=time&tag=foo&limit=150");
    assert_eq!(gen, 2);
}

#[test]
fn tag_cleared_restores_default_query() {
    let (mut app, _) = App::new();
    app.update(AppMsg::TagSelected(Some("foo".to_string())));
    app.update(AppMsg::TagSelected(None));
    assert_eq!(app.current_query.as_str(), "/all/cache?sort=time&limit=150");
}

#[test]
fn search_submission_trims_and_escapes() {
    let (mut app, _) = App::new();
    let (redraw, actions) = app.update(AppMsg::SearchTextChanged("a b".to_string()));
    assert!(!redraw);
    assert!(actions.is_empty());
    assert_eq!(app.current_query.as_str(), "/all/cache?sort=time&limit=150");
    let (redraw, actions) = app.update(AppMsg::SearchSubmitted);
    assert!(redraw);
    assert_eq!(app.current_query.as_str(), "/search/a%20b");
    let (query, _) = fetch_entries_parts(&actions[0]);
    assert_eq!(query, "/search/a%20b");
}

#[test]
fn search_submission_trims_surrounding_whitespace() {
    let (mut app, _) = App::new();
    app.update(AppMsg::SearchTextChanged("  rust notes \t".to_string()));
    app.update(AppMsg::SearchSubmitted);
    assert_eq!(app.current_query.as_str(), "/search/rust%20notes");
}

#[test]
fn blank_search_submission_stays_on_listing() {
    let (mut app, _) = App::new();
    app.update(AppMsg::SearchTextChanged("   ".to_string()));
    app.update(AppMsg::SearchSubmitted);
    assert_eq!(app.current_query.as_str(), "/all/cache?sort=time&limit=150");
}

#[test]
fn tag_after_search_reverts_to_filter_mode() {
    let (mut app, _) = App::new();
    app.update(AppMsg::SearchTextChanged("quux".to_string()));
    app.update(AppMsg::SearchSubmitted);
    assert_eq!(app.current_query.as_str(), "/search/quux");
    app.update(AppMsg::TagSelected(Some("bar".to_string())));
    assert_eq!(app.current_query.as_str(), "/all/cache?sort=time&tag=bar&limit=150");
}

#[test]
fn tag_then_date_range_compose() {
    let (mut app, _) = App::new();
    app.update(AppMsg::TagSelected(Some("foo".to_string())));
    let range = DateRange {
        start: Date { year: 2021, month: 5, day: 1 },
        end: Date { year: 2021, month: 12, day: 31 },
    };
    app.update(AppMsg::DateRangeSelected(Some(range)));
    assert_eq!(
        app.current_query.as_str(),
        "/all/cache?sort=time&tag=foo&startDate=2021-05-01&endDate=2021-12-31&limit=150"
    );
}

#[test]
fn sort_changed_rebuilds_query() {
    let (mut app, _) = App::new();
    app.update(AppMsg::SortChanged(SortKey::ByUrl));
    assert_eq!(app.current_query.as_str(), "/all/cache?sort=url&limit=150");
    app.update(AppMsg::SortChanged(SortKey::ByDate));
    assert_eq!(app.current_query.as_str(), "/all/cache?sort=time&limit=150");
}

#[test]
fn stale_entries_response_is_discarded() {
    let (mut app, _) = App::new();
    // Refresh B supersedes the initial refresh A before A's response lands.
    let (_, actions) = app.update(AppMsg::RequestRefresh);
    let (_, b_gen) = fetch_entries_parts(&actions[0]);
    assert_eq!(b_gen, 2);
    let (redraw, _) = app.update(AppMsg::EntriesReceived {
        gen: 1,
        result: Ok(vec![entry("http://stale", 1)]),
    });
    assert!(!redraw);
    assert!(app.entries.is_none());
    assert!(app.entries_pending);
    let (redraw, _) = app.update(AppMsg::EntriesReceived {
        gen: 2,
        result: Ok(vec![entry("http://fresh", 2)]),
    });
    assert!(redraw);
    let got = app.entries.as_ref().unwrap();
    assert_eq!(got.len(), 1);
    assert_eq!(got[0].url.as_str(), "http://fresh");
    assert!(!app.entries_pending);
}

#[test]
fn transport_error_sets_message_and_keeps_other_data() {
    let (mut app, _) = App::new();
    app.update(AppMsg::TagsReceived { gen: 1, result: Ok(vec!["kept".to_string()]) });
    let (redraw, _) = app.update(AppMsg::EntriesReceived {
        gen: 1,
        result: Err("connection refused".to_string()),
    });
    assert!(redraw);
    assert_eq!(app.last_error.as_deref(), Some("connection refused"));
    assert!(app.entries.is_none());
    assert_eq!(app.tags, Some(vec!["kept".to_string()]));
    assert!(!app.entries_pending);
}

#[test]
fn decode_error_on_tags_keeps_entries() {
    let (mut app, _) = App::new();
    app.update(AppMsg::EntriesReceived { gen: 1, result: Ok(vec![entry("http://a", 7)]) });
    app.update(AppMsg::TagsReceived { gen: 1, result: Err("invalid body".to_string()) });
    assert_eq!(app.last_error.as_deref(), Some("invalid body"));
    assert_eq!(app.entries.as_ref().map(|v| v.len()), Some(1));
    assert!(app.tags.is_none());
}

#[test]
fn enter_key_submits_search_other_keys_do_not() {
    let (mut app, _) = App::new();
    app.update(AppMsg::SearchTextChanged("abc".to_string()));
    let (redraw, actions) = app.update(AppMsg::SearchKeyPressed("a".to_string()));
    assert!(!redraw);
    assert!(actions.is_empty());
    assert_eq!(app.current_query.as_str(), "/all/cache?sort=time&limit=150");
    let (redraw, actions) = app.update(AppMsg::SearchKeyPressed("Enter".to_string()));
    assert!(redraw);
    assert_eq!(actions.len(), 2);
    assert_eq!(app.current_query.as_str(), "/search/abc");
}

#[test]
fn keydown_is_a_no_op() {
    let (mut app, _) = App::new();
    let (redraw, actions) = app.update(AppMsg::KeyDown);
    assert!(!redraw);
    assert!(actions.is_empty());
    assert_eq!(app.current_query.as_str(), "/all/cache?sort=time&limit=150");
}

#[test]
fn detail_without_selection_is_defined_empty_state() {
    let (app, _) = App::new();
    match resolve(ViewName::Detail, &app) {
        ViewDescriptor::DetailView { entry } => assert!(entry.is_none()),
        other => panic!("expected the detail view, got {:?}", other),
    }
}

#[test]
fn detail_carries_selected_entry_and_switching_views_keeps_state() {
    let (mut app, _) = App::new();
    app.update(AppMsg::EntriesReceived { gen: 1, result: Ok(vec![entry("http://a", 7)]) });
    app.update(AppMsg::EntrySelected(Some(entry("http://a", 7))));
    match resolve(ViewName::Detail, &app) {
        ViewDescriptor::DetailView { entry } => {
            assert_eq!(entry.as_ref().unwrap().url.as_str(), "http://a");
        }
        other => panic!("expected the detail view, got {:?}", other),
    }
    match resolve(ViewName::Gallery, &app) {
        ViewDescriptor::GalleryView { entries, tags, search_buffer } => {
            assert_eq!(entries.as_ref().map(|v| v.len()), Some(1));
            assert!(tags.is_none());
            assert_eq!(search_buffer.as_str(), "");
        }
        other => panic!("expected the gallery view, got {:?}", other),
    }
    assert!(app.selected_entry.is_some());
    match resolve(ViewName::Settings, &app) {
        ViewDescriptor::SettingsView => {}
        other => panic!("expected the settings view, got {:?}", other),
    }
}

#[test]
fn entry_selection_can_be_cleared() {
    let (mut app, _) = App::new();
    app.update(AppMsg::EntrySelected(Some(entry("http://a", 7))));
    app.update(AppMsg::EntrySelected(None));
    assert!(app.selected_entry.is_none());
}
