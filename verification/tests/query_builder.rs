use note2self::query::{
    build_entries_query, build_tags_query, Date, DateRange, FilterState, QueryMode, SortKey,
};
use note2self::text::{pad2, pad4, trim, u64_to_string};

#[test]
fn tags_query_renders_minimum_frequency() {
    assert_eq!(build_tags_query(10).as_str(), "/all/tags?min=10");
    assert_eq!(build_tags_query(5).as_str(), "/all/tags?min=5");
    assert_eq!(build_tags_query(0).as_str(), "/all/tags?min=0");
}

#[test]
fn filter_query_with_every_criterion() {
    let f = FilterState {
        mode: QueryMode::Filter {
            tag: Some("news".to_string()),
            range: Some(DateRange {
                start: Date { year: 800, month: 1, day: 2 },
                end: Date { year: 2022, month: 11, day: 30 },
            }),
            sort: SortKey::ByUrl,
        },
        search_buffer: String::new(),
    };
    assert_eq!(
        build_entries_query(&f, 25).as_str(),
        "/all/cache?sort=url&tag=news&startDate=0800-01-02&endDate=2022-11-30&limit=25"
    );
}

#[test]
fn search_query_escapes_reserved_characters() {
    let f = FilterState {
        mode: QueryMode::Search { text: "a/b?c".to_string() },
        search_buffer: "a/b?c".to_string(),
    };
    assert_eq!(build_entries_query(&f, 150).as_str(), "/search/a%2Fb%3Fc");
}

#[test]
fn blank_search_text_falls_back_to_default_listing() {
    let f = FilterState {
        mode: QueryMode::Search { text: " \n ".to_string() },
        search_buffer: " \n ".to_string(),
    };
    assert_eq!(build_entries_query(&f, 150).as_str(), "/all/cache?sort=time&limit=150");
}

#[test]
fn decimal_rendering_is_exact() {
    assert_eq!(u64_to_string(0).as_str(), "0");
    assert_eq!(u64_to_string(150).as_str(), "150");
    assert_eq!(u64_to_string(18446744073709551615).as_str(), "18446744073709551615");
    assert_eq!(pad2(7).as_str(), "07");
    assert_eq!(pad2(12).as_str(), "12");
    assert_eq!(pad4(0).as_str(), "0000");
    assert_eq!(pad4(987).as_str(), "0987");
    assert_eq!(pad4(2021).as_str(), "2021");
}

#[test]
fn trim_removes_unicode_whitespace_only_at_the_edges() {
    assert_eq!(trim("  a b \u{3000}"), "a b");
    assert_eq!(trim("\t\r\n"), "");
    assert_eq!(trim("xy"), "xy");
    assert_eq!(trim(""), "");
}
