//! Classifier, sanitizer, headline and markup-extraction behavior on
//! concrete records.

use jpdict::classify::{classify, is_ws, CharClass};
use jpdict::cleaner::DataCleaner;
use jpdict::headline::parse_headline;
use jpdict::markup::{extract_definition_text, parse_entry_from_html};
use jpdict::sanitize::{sanitize, SanitizeContext};

#[test]
fn classify_basic_classes() {
    assert_eq!(classify('あ'), CharClass::Kana);
    assert_eq!(classify('ア'), CharClass::Kana);
    assert_eq!(classify('ー'), CharClass::Kana);
    assert_eq!(classify('・'), CharClass::Kana);
    assert_eq!(classify('-'), CharClass::Kana);
    assert_eq!(classify('愛'), CharClass::Kanji);
    assert_eq!(classify('◇'), CharClass::DecorativeGlyph);
    assert_eq!(classify('【'), CharClass::DecorativeGlyph);
    assert_eq!(classify('★'), CharClass::DecorativeGlyph);
    assert_eq!(classify('A'), CharClass::AsciiAlnum);
    assert_eq!(classify('7'), CharClass::AsciiAlnum);
    assert_eq!(classify(' '), CharClass::Other);
    assert_eq!(classify('Ｃ'), CharClass::Other);
    assert!(is_ws(' '));
    assert!(is_ws('\u{3000}'));
    assert!(!is_ws('あ'));
}

#[test]
fn sanitize_reading_keeps_kana_and_ascii() {
    assert_eq!(sanitize("あ※い☆12ab", SanitizeContext::Reading), "あい12ab");
    assert_eq!(sanitize("愛あい", SanitizeContext::Reading), "あい");
    assert_eq!(sanitize("  あい  ", SanitizeContext::Reading), "あい");
}

#[test]
fn sanitize_script_keeps_kanji_too() {
    assert_eq!(sanitize("【愛】", SanitizeContext::Script), "愛");
    assert_eq!(sanitize("◇足△搔く", SanitizeContext::Script), "足搔く");
}

#[test]
fn sanitize_is_idempotent_on_samples() {
    for sample in ["あ※い☆12ab", "【愛】x y", "", "◇◇◇", "ＣＤ"] {
        for ctx in [SanitizeContext::Reading, SanitizeContext::Script] {
            let once = sanitize(sample, ctx);
            let twice = sanitize(&once, ctx);
            assert_eq!(once, twice);
            for c in once.chars() {
                assert!(sample.contains(c));
            }
        }
    }
}

#[test]
fn headline_with_brackets_splits_reading_and_script() {
    let h = parse_headline("あい【愛】").unwrap();
    assert_eq!(h.reading, "あい");
    assert_eq!(h.script, "愛");
}

#[test]
fn headline_with_empty_script_is_accepted() {
    let h = parse_headline("ば【】").unwrap();
    assert_eq!(h.reading, "ば");
    assert_eq!(h.script, "");
}

#[test]
fn headline_without_brackets_and_without_kanji_is_whole_reading() {
    let h = parse_headline("ＣＤ").unwrap();
    assert_eq!(h.reading, "ＣＤ");
    assert_eq!(h.script, "");
}

#[test]
fn headline_without_brackets_with_kanji_is_ambiguous() {
    assert!(parse_headline("愛あい").is_none());
    assert!(parse_headline("").is_none());
    assert!(parse_headline("【愛】").is_none());
}

#[test]
fn headline_derived_reading_wins_over_markup_marker() {
    let html = "<link rel=\"stylesheet\" href=\"s.css\"><container data-id=\"42\" \
        data-type=\"0\"><span class=\"headword_kana\">ちがう</span>\
        <div class=\"mean_normal\">def</div></container>";
    let e = parse_entry_from_html("あい【愛】", html).unwrap();
    assert_eq!(e.kana_reading.as_deref(), Some("あい"));
    assert_eq!(e.kanji_writing.as_deref(), Some("愛"));
}

#[test]
fn markup_marker_fills_in_after_headline_failure() {
    let html = "<container data-id=\"42\" data-type=\"0\">\
        <span class=\"headword_kana\">あ※い</span>\
        <span class=\"headword_hyouki\">【愛】</span>\
        <div class=\"mean_normal\">def</div></container>";
    let e = parse_entry_from_html("愛あい", html).unwrap();
    assert_eq!(e.kana_reading.as_deref(), Some("あい"));
    assert_eq!(e.kanji_writing.as_deref(), Some("愛"));
}

#[test]
fn entry_without_identifier_is_unassemblable() {
    let html = "<div class=\"mean_normal\">def</div>";
    assert!(parse_entry_from_html("あい【愛】", html).is_none());
}

#[test]
fn entry_fields_and_markers() {
    let html = "<container data-id=\"236\" data-type=\"2\">\
        <span class=\"pos_s\"> 自五 </span><span class=\"katsuyo\">カ・キ</span>\
        <div class=\"mean_no_1\">ひとつめ</div><div class=\"mean_no_2\">ふたつめ</div>\
        </container>";
    let e = parse_entry_from_html("あがく【足搔く】", html).unwrap();
    assert_eq!(e.data_id, "236");
    assert_eq!(e.data_type, "2");
    assert_eq!(e.headword, "あがく【足搔く】");
    assert_eq!(e.part_of_speech.as_deref(), Some("自五"));
    assert_eq!(e.conjugation.as_deref(), Some("カ・キ"));
    assert_eq!(e.definition_text, "ひとつめ ふたつめ");
    assert_eq!(e.definition_html, html);
    assert!(e.id.is_none());
}

#[test]
fn definition_text_falls_back_to_flat_text() {
    let html = "<div class=\"other\">全体<span>の文</span></div>";
    assert_eq!(extract_definition_text(html), "全体の文");
}

#[test]
fn title_recovery_from_markup() {
    let c = DataCleaner::new();
    let html = "<container data-id=\"9\"><span class=\"headword_kana\">あい</span>\
        <span class=\"headword_hyouki\">愛◇</span></container>";
    assert_eq!(c.extract_title_from_html(html), "あい【愛】");
    let kana_only = "<container data-id=\"9\"><span class=\"headword_kana\">あい</span></container>";
    assert_eq!(c.extract_title_from_html(kana_only), "あい");
    let ryaku = "<container data-id=\"9\"><span class=\"headword_ryaku\">CD</span></container>";
    assert_eq!(c.extract_title_from_html(ryaku), "CD");
    let bare = "<container data-id=\"31\"></container>";
    assert_eq!(c.extract_title_from_html(bare), "entry_31");
    assert_eq!(c.extract_title_from_html("<p>x</p>"), "unknown_entry");
}

#[test]
fn title_and_html_split_at_marker() {
    let c = DataCleaner::new();
    let line = "junk<link rel=\"stylesheet\" href=\"s.css\"><container data-id=\"9\">\
        <span class=\"headword_kana\">あい</span></container>";
    let (title, html) = c.extract_title_and_html(line);
    assert_eq!(title, "あい");
    assert!(html.starts_with("<link rel=\"stylesheet\""));
    let (title2, html2) = c.extract_title_and_html("plain line");
    assert_eq!(title2, "");
    assert_eq!(html2, "plain line");
}

#[test]
fn data_id_extraction() {
    let c = DataCleaner::new();
    let line = "<container data-id=\"3011400\" data-type=\"2\">";
    assert_eq!(c.extract_data_id(line).as_deref(), Some("3011400"));
    assert_eq!(c.extract_data_id("no identifier here"), None);
    assert_eq!(c.extract_data_id("data-id=\"unterminated"), None);
}
