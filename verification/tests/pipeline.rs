//! Stream-level behavior: the boundary state machine, redirect resolution,
//! and whole passes of the assembler.

use jpdict::assemble::EntryAssembler;
use jpdict::boundary::BoundaryDetector;
use jpdict::cleaner::{CleanAction, DataCleaner};
use jpdict::redirect::resolve_redirect;

fn markup_record(id: &str, kana: &str, meaning: &str) -> String {
    format!(
        "<link rel=\"stylesheet\" href=\"s.css\"><container data-id=\"{}\" data-type=\"0\">\
         <span class=\"headword_kana\">{}</span><div class=\"mean_normal\">{}</div></container>",
        id, kana, meaning
    )
}

#[test]
fn boundary_detector_sentinel_confirms() {
    let mut d = BoundaryDetector::new();
    d.note_entry("12");
    assert!(!d.confirmed);
    d.note_entry("3011400");
    assert!(d.confirmed);
    assert_eq!(d.valid_entries_seen, 2);
}

#[test]
fn boundary_detector_heuristic_needs_an_entry_first() {
    let mut d = BoundaryDetector::new();
    assert!(!d.offer_line("温故"));
    assert!(!d.confirmed);
    d.note_entry("12");
    assert!(!d.offer_line("あい"));
    assert!(!d.confirmed);
    assert!(d.offer_line("温故"));
    assert!(d.confirmed);
}

#[test]
fn kanji_share_thresholds() {
    let c = DataCleaner::new();
    assert!(c.is_likely_kanji_only("愛"));
    assert!(c.is_likely_kanji_only(" 温故 "));
    assert!(!c.is_likely_kanji_only("あい"));
    assert!(!c.is_likely_kanji_only("愛あ"));
    assert!(!c.is_likely_kanji_only("愛愛愛愛あ"));
    assert!(c.is_likely_kanji_only("愛愛愛愛愛あ"));
    assert!(!c.is_likely_kanji_only(""));
    assert!(c.is_kanji_redirect_start("温故"));
    assert!(!c.is_kanji_redirect_start("温故知新"));
    assert!(!c.is_kanji_redirect_start("あい"));
}

#[test]
fn redirect_resolution_with_and_without_pending_title() {
    let pending = Some("あい【愛】".to_string());
    let r = resolve_redirect("@@@LINK=target", &pending).unwrap();
    assert_eq!(r.alias, "あい【愛】");
    assert_eq!(r.target_headword, "target");
    let r2 = resolve_redirect("@@@LINK= target ", &None).unwrap();
    assert_eq!(r2.alias, "target");
    assert_eq!(r2.target_headword, "target");
    assert!(resolve_redirect("plain line", &None).is_none());
}

#[test]
fn assembler_three_record_stream() {
    let mut assembler = EntryAssembler::new();
    let lines = vec![
        "あい【愛】".to_string(),
        markup_record("7", "あい", "かわいがる気持ち"),
        "".to_string(),
        "@@@LINK=あい【愛】".to_string(),
    ];
    assembler.process_records(&lines);
    assert_eq!(assembler.entries.len(), 1);
    assert_eq!(assembler.redirects.len(), 1);
    assert_eq!(assembler.valid_count, 1);
    assert_eq!(assembler.redirect_count, 1);
    assert_eq!(assembler.skipped_count, 0);
    assert_eq!(assembler.entries[0].data_id, "7");
    assert_eq!(assembler.entries[0].kana_reading.as_deref(), Some("あい"));
    assert_eq!(assembler.entries[0].definition_text, "かわいがる気持ち");
    assert_eq!(assembler.redirects[0].target_headword, "あい【愛】");
}

#[test]
fn assembler_redirects_may_dangle() {
    let mut assembler = EntryAssembler::new();
    let lines = vec![
        "あい【愛】".to_string(),
        markup_record("7", "あい", "def"),
        "".to_string(),
        "@@@LINK=あい【愛】".to_string(),
        "@@@LINK=どこにもない".to_string(),
    ];
    assembler.process_records(&lines);
    assert_eq!(assembler.entries.len(), 1);
    assert_eq!(assembler.redirects.len(), 2);
    assert_eq!(assembler.redirects[0].target_headword, "あい【愛】");
    assert_eq!(assembler.redirects[1].target_headword, "どこにもない");
}

#[test]
fn assembler_confirms_on_short_kanji_line_after_entries() {
    let mut assembler = EntryAssembler::new();
    let mut lines: Vec<String> = Vec::new();
    for (i, kana) in [(1, "あい"), (2, "いえ"), (3, "うみ")] {
        lines.push(format!("{}【彙】", kana));
        lines.push(markup_record(&i.to_string(), kana, "def"));
        lines.push("".to_string());
    }
    lines.push("温故".to_string());
    lines.push("あと【後】".to_string());
    lines.push(markup_record("9", "あと", "def"));
    assembler.process_records(&lines);
    assert!(assembler.boundary.confirmed);
    assert_eq!(assembler.entries.len(), 3);
    assert_eq!(assembler.crossref_count, 3);
}

#[test]
fn assembler_does_not_confirm_on_kanji_line_at_stream_start() {
    let mut assembler = EntryAssembler::new();
    assembler.process_record("温故");
    assert!(!assembler.boundary.confirmed);
    assert_eq!(assembler.entries.len(), 0);
    let lines = vec!["あい【愛】".to_string(), markup_record("7", "あい", "def")];
    assembler.process_records(&lines);
    assert!(!assembler.boundary.confirmed);
    assert_eq!(assembler.entries.len(), 1);
}

#[test]
fn assembler_sentinel_record_is_still_emitted_then_confirms() {
    let mut assembler = EntryAssembler::new();
    let lines = vec![
        "ヴォ".to_string(),
        markup_record("3011400", "ヴォ", "def"),
        "あと【後】".to_string(),
        markup_record("10", "あと", "def"),
    ];
    assembler.process_records(&lines);
    assert!(assembler.boundary.confirmed);
    assert_eq!(assembler.entries.len(), 1);
    assert_eq!(assembler.entries[0].data_id, "3011400");
    assert_eq!(assembler.crossref_count, 2);
}

#[test]
fn assembler_counts_skip_without_identifier() {
    let mut assembler = EntryAssembler::new();
    let lines = vec![
        "あい【愛】".to_string(),
        "<link rel=\"stylesheet\" href=\"s.css\"><div class=\"mean_normal\">def</div>"
            .to_string(),
    ];
    assembler.process_records(&lines);
    assert_eq!(assembler.entries.len(), 0);
    assert_eq!(assembler.skipped_count, 1);
}

#[test]
fn assembler_blank_line_discards_pending_title() {
    let mut assembler = EntryAssembler::new();
    let lines = vec![
        "あい【愛】".to_string(),
        "  ".to_string(),
        markup_record("7", "あい", "def"),
    ];
    assembler.process_records(&lines);
    assert_eq!(assembler.entries.len(), 0);
    assert_eq!(assembler.skipped_count, 0);
}

#[test]
fn cleaner_counts_and_splits() {
    let mut c = DataCleaner::new();
    assert!(matches!(c.process_line("   "), CleanAction::Skipped));
    assert!(matches!(c.process_line("@@@LINK=x"), CleanAction::Redirect));
    let line = markup_record("7", "あい", "def");
    match c.process_line(&line) {
        CleanAction::Emit { title, html } => {
            assert_eq!(title, "あい");
            assert!(html.starts_with("<link rel=\"stylesheet\""));
        }
        _ => panic!("markup line must emit"),
    }
    assert!(matches!(c.process_line("stray text"), CleanAction::Skipped));
    let (valid, redirects, mappings) = c.get_stats();
    assert_eq!(valid, 1);
    assert_eq!(redirects, 1);
    assert_eq!(mappings, 0);
}
