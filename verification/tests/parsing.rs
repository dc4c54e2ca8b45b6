//! The flat-record parser, the smart-lookup merge, and the query-service
//! shapes.

use jpdict::entry::ObunshaDictEntry;
use jpdict::parser::DictParser;
use jpdict::search::{any_part_eq, merge_kanji_matches, split_parts};
use jpdict::web::{
    default_search_type, parse_search_type, query_word_valid, QueryInfo, SearchKind,
    SearchResponse,
};

#[test]
fn test_kana_cleaning() {
    let parser = DictParser::new();

    assert_eq!(parser.clean_kana("あい・あお"), "あいあお");
    assert_eq!(parser.clean_kana("アーティスティック-スイミング"), "アーティスティックスイミング");
    assert_eq!(parser.clean_kana("  あい  "), "あい");
}

#[test]
fn test_kanji_cleaning() {
    let parser = DictParser::new();

    assert_eq!(parser.clean_kanji("【愛】"), Some("愛".to_string()));
    assert_eq!(parser.clean_kanji("〔英〕"), None);
    assert_eq!(parser.clean_kanji(""), None);
}

#[test]
fn kanji_cleaning_drops_annotation_spans_and_marks() {
    let parser = DictParser::new();
    assert_eq!(parser.clean_kanji("◇足△搔く"), Some("足搔く".to_string()));
    assert_eq!(parser.clean_kanji("愛（あい）"), Some("愛".to_string()));
    assert_eq!(parser.clean_kanji(" 〖印〗愛 "), Some("愛".to_string()));
}

#[test]
fn pronunciation_captures_join_with_middle_dot() {
    let parser = DictParser::new();
    assert_eq!(
        parser.extract_pronunciation("x<b>アイ</b>y<b>エ</b>z").as_deref(),
        Some("アイ・エ")
    );
    assert_eq!(parser.extract_pronunciation("no bold here"), None);
    assert_eq!(parser.extract_pronunciation("<b></b>"), None);
    assert_eq!(parser.extract_pronunciation("<b>a<i>b</i></b>"), None);
}

#[test]
fn parse_entry_recovers_all_fields() {
    let parser = DictParser::new();
    let html = "<container data-id=\"236\" data-type=\"2\">\
        <div class=\"item item_ippan\"><span class=\"head_kana\">あが・く</span>\
        <span class=\"head_hyo_2\">◇足△搔く</span></div>\
        <div class=\"mean_normal\"><b>アイ</b>もがく。じたばたする。</div></container>";
    let e = parser.parse_entry(html).unwrap();
    assert_eq!(e.kana_entry, "あがく");
    assert_eq!(e.kanji_form.as_deref(), Some("足搔く"));
    assert_eq!(e.pronunciation.as_deref(), Some("アイ"));
    assert_eq!(e.meaning, "アイもがく。じたばたする。");
    assert_eq!(e.entry_type, "item_ippan");
    assert_eq!(e.raw_html, html);
}

#[test]
fn parse_entry_fails_without_reading() {
    let parser = DictParser::new();
    assert!(parser.parse_entry("<div class=\"mean_normal\">x</div>").is_none());
    assert!(
        parser.parse_entry("<span class=\"head_kana\">・・</span><div class=\"mean_normal\">x</div>")
            .is_none()
    );
}

#[test]
fn parse_entry_type_markers_in_priority_order() {
    let parser = DictParser::new();
    let with = |marker: &str| {
        format!(
            "<span class=\"head_kana\">あい</span><div class=\"{} mean_normal\">def</div>",
            marker
        )
    };
    assert_eq!(parser.parse_entry(&with("item_kanji")).unwrap().entry_type, "item_kanji");
    assert_eq!(parser.parse_entry(&with("item_kiso")).unwrap().entry_type, "item_kiso");
    assert_eq!(parser.parse_entry(&with("other")).unwrap().entry_type, "unknown");
}

#[test]
fn parse_lines_keeps_only_container_records() {
    let parser = DictParser::new();
    let record = "<container data-id=\"1\"><span class=\"head_kana\">あい</span>\
        <div class=\"mean_normal\">def</div></container>";
    let lines = vec![
        "noise".to_string(),
        record.to_string(),
        "<container data-id=\"2\"></container>".to_string(),
    ];
    let entries = parser.parse_lines(&lines);
    assert_eq!(entries.len(), 1);
    assert_eq!(entries[0].kana_entry, "あい");
}

fn plain_entry(id: &str, kanji: Option<&str>) -> ObunshaDictEntry {
    ObunshaDictEntry {
        id: None,
        data_id: id.to_string(),
        data_type: "0".to_string(),
        headword: "x".to_string(),
        kana_reading: None,
        kanji_writing: kanji.map(|s| s.to_string()),
        part_of_speech: None,
        conjugation: None,
        definition_html: String::new(),
        definition_text: String::new(),
        raw_mdx_content: String::new(),
    }
}

#[test]
fn split_parts_on_middle_dot() {
    assert_eq!(split_parts("愛·恋", '·'), vec!["愛", "恋"]);
    assert_eq!(split_parts("", '·'), vec![""]);
    assert_eq!(split_parts("·", '·'), vec!["", ""]);
    assert!(any_part_eq("愛·恋", '·', "恋"));
    assert!(!any_part_eq("愛恋", '·', "恋"));
}

#[test]
fn smart_merge_keeps_exact_precedence_and_dot_matches() {
    let exact = vec![plain_entry("1", Some("恋"))];
    let likes = vec![
        plain_entry("1", Some("恋")),
        plain_entry("2", Some("愛·恋")),
        plain_entry("3", Some("桜")),
        plain_entry("4", None),
    ];
    let merged = merge_kanji_matches(exact, likes, "恋");
    let ids: Vec<&str> = merged.iter().map(|e| e.data_id.as_str()).collect();
    assert_eq!(ids, vec!["1", "2"]);
}

#[test]
fn search_kind_dispatch() {
    assert_eq!(parse_search_type("exact"), SearchKind::Exact);
    assert_eq!(parse_search_type("kana"), SearchKind::Kana);
    assert_eq!(parse_search_type("kanji"), SearchKind::Kanji);
    assert_eq!(parse_search_type("fuzzy"), SearchKind::Fuzzy);
    assert_eq!(parse_search_type("anything"), SearchKind::Fuzzy);
    assert_eq!(default_search_type(), "exact");
}

#[test]
fn query_word_validation() {
    assert!(!query_word_valid(""));
    assert!(!query_word_valid("   "));
    assert!(query_word_valid("愛"));
}

#[test]
fn response_envelope_counts_entries() {
    let entries = vec![plain_entry("1", None), plain_entry("2", None)];
    let info = QueryInfo {
        word: "愛".to_string(),
        search_type: "exact".to_string(),
        duration_ms: 0,
    };
    let r = SearchResponse::ok(entries, info);
    assert!(r.success);
    assert_eq!(r.count, 2);
    assert_eq!(r.entries.len(), 2);
}
