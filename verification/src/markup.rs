//! Field extraction from a styled-markup block. The block is queried through
//! structural selectors; every field follows a fixed fallback chain, and the
//! first selector yielding non-empty sanitized text wins. The selector engine
//! is an outside library; each query stands behind a trusted wrapper whose
//! result is named, and everything downstream of the queries is verified.

use vstd::prelude::*;
use vstd::string::StrSliceExecFns;
use vstd::string::StringExecFns;
use crate::entry::EntryModel;
use crate::entry::ObunshaDictEntry;
use crate::headline::parse_headline;
use crate::headline::spec_parse_headline;
use crate::sanitize::SanitizeContext;
use crate::sanitize::sanitize;
use crate::sanitize::spec_sanitize;
use crate::text::join_with;
use crate::text::spec_join;
use crate::text::spec_trim;
use crate::text::trim_str;

verus! {

/// The text content of the first element of a markup block matching a
/// selector; a function of the two strings alone.
pub uninterp spec fn first_text_of(html: Seq<char>, selector: Seq<char>) -> Option<Seq<char>>;

/// Relies on scraper's `Html::parse_fragment`, `Selector::parse`,
/// `Html::select` and `ElementRef::text`: the concatenated text of the first
/// element matching `selector`, `None` when nothing matches or the selector
/// does not parse.
#[verifier::external_body]
pub(crate) fn select_first_text(html: &str, selector: &str) -> (r: Option<String>)
    ensures
        r.deep_view() == first_text_of(html@, selector@),
{
    let doc = scraper::Html::parse_fragment(html);
    let sel = match scraper::Selector::parse(selector) {
        Ok(sel) => sel,
        Err(_) => return None,
    };
    doc.select(&sel).next().map(|el| el.text().collect::<String>())
}

/// The text contents of every element of a markup block matching a selector,
/// in document order; a function of the two strings alone.
pub uninterp spec fn all_texts_of(html: Seq<char>, selector: Seq<char>) -> Seq<Seq<char>>;

/// Relies on scraper's `Html::parse_fragment`, `Selector::parse`,
/// `Html::select` and `ElementRef::text`: the concatenated text of each
/// element matching `selector`, in document order; empty when nothing
/// matches or the selector does not parse.
#[verifier::external_body]
pub(crate) fn select_all_texts(html: &str, selector: &str) -> (r: Vec<String>)
    ensures
        r.deep_view() == all_texts_of(html@, selector@),
{
    let doc = scraper::Html::parse_fragment(html);
    let sel = match scraper::Selector::parse(selector) {
        Ok(sel) => sel,
        Err(_) => return Vec::new(),
    };
    doc.select(&sel).map(|el| el.text().collect::<String>()).collect()
}

/// The flattened text of a whole markup block; a function of the string
/// alone.
pub uninterp spec fn flat_text_of(html: Seq<char>) -> Seq<char>;

/// Relies on scraper's `Html::parse_fragment`, `Html::root_element` and
/// `ElementRef::text`: the flattened text content of the whole block.
#[verifier::external_body]
pub(crate) fn fragment_flat_text(html: &str) -> (r: String)
    ensures
        r@ == flat_text_of(html@),
{
    let doc = scraper::Html::parse_fragment(html);
    doc.root_element().text().collect::<String>()
}

/// The value of an attribute on the first element of a markup block matching
/// a selector; a function of the three strings alone.
pub uninterp spec fn first_attr_of(html: Seq<char>, selector: Seq<char>, attr: Seq<char>) -> Option<
    Seq<char>,
>;

/// Relies on scraper's `Html::parse_fragment`, `Selector::parse`,
/// `Html::select` and `ElementRef::attr`: the value of `attr` on the first
/// element matching `selector`, `None` when nothing matches, the attribute
/// is absent, or the selector does not parse.
#[verifier::external_body]
pub(crate) fn select_first_attr(html: &str, selector: &str, attr: &str) -> (r: Option<String>)
    ensures
        r.deep_view() == first_attr_of(html@, selector@, attr@),
{
    let doc = scraper::Html::parse_fragment(html);
    let sel = match scraper::Selector::parse(selector) {
        Ok(sel) => sel,
        Err(_) => return None,
    };
    doc.select(&sel).next().and_then(|el| el.attr(attr).map(|v| v.to_string()))
}

/// The trimmed, non-empty members of a list of text fragments, in order.
pub open spec fn spec_trimmed_nonempty(texts: Seq<Seq<char>>) -> Seq<Seq<char>>
    decreases texts.len(),
{
    if texts.len() == 0 {
        Seq::empty()
    } else {
        let rest = spec_trimmed_nonempty(texts.drop_last());
        if spec_trim(texts.last()).len() > 0 {
            rest.push(spec_trim(texts.last()))
        } else {
            rest
        }
    }
}

/// Trims each fragment and appends the non-empty ones to `parts`.
fn push_trimmed_nonempty(parts: &mut Vec<String>, texts: &Vec<String>)
    ensures
        final(parts).deep_view() == old(parts).deep_view() + spec_trimmed_nonempty(
            texts.deep_view(),
        ),
{
    let mut i: usize = 0;
    while i < texts.len()
        invariant
            i <= texts@.len(),
            parts.deep_view() == old(parts).deep_view() + spec_trimmed_nonempty(
                texts.deep_view().take(i as int),
            ),
        decreases texts@.len() - i,
    {
        let t = trim_str(texts[i].as_str());
        proof {
            let cur = texts.deep_view().take(i + 1);
            assert(cur.drop_last() =~= texts.deep_view().take(i as int));
            assert(cur.last() == texts@[i as int]@);
        }
        if t.as_str().unicode_len() > 0 {
            let ghost before = parts.deep_view();
            parts.push(t);
            proof {
                assert(parts.deep_view() =~= before.push(spec_trim(texts@[i as int]@)));
                assert(parts.deep_view() =~= old(parts).deep_view() + spec_trimmed_nonempty(
                    texts.deep_view().take(i + 1),
                ));
            }
        }
        i += 1;
    }
    proof {
        assert(texts.deep_view().take(texts.deep_view().len() as int) =~= texts.deep_view());
    }
}

/// The meaning parts of a block: for each meaning selector in fixed priority
/// order, the trimmed non-empty texts of its matches, concatenated in that
/// order.
pub open spec fn spec_meaning_parts(html: Seq<char>) -> Seq<Seq<char>> {
    spec_trimmed_nonempty(all_texts_of(html, ".mean_normal"@)) + spec_trimmed_nonempty(
        all_texts_of(html, ".mean_lv_2"@),
    ) + spec_trimmed_nonempty(all_texts_of(html, ".mean_lv_1"@)) + spec_trimmed_nonempty(
        all_texts_of(html, ".mean_no_1"@),
    ) + spec_trimmed_nonempty(all_texts_of(html, ".mean_no_2"@)) + spec_trimmed_nonempty(
        all_texts_of(html, ".mean_no_3"@),
    )
}

/// The definition text of a block: the meaning parts joined with a single
/// space, in document order and without de-duplication; when no meaning
/// marker matches, the trimmed flattened text of the whole block.
pub open spec fn spec_definition_text(html: Seq<char>) -> Seq<char> {
    let parts = spec_meaning_parts(html);
    if parts.len() == 0 {
        spec_trim(flat_text_of(html))
    } else {
        spec_join(parts, " "@)
    }
}

/// Recovers the definition text of a markup block.
pub fn extract_definition_text(html: &str) -> (r: String)
    ensures
        r@ == spec_definition_text(html@),
{
    let mut parts: Vec<String> = Vec::new();
    let t1 = select_all_texts(html, ".mean_normal");
    push_trimmed_nonempty(&mut parts, &t1);
    let t2 = select_all_texts(html, ".mean_lv_2");
    push_trimmed_nonempty(&mut parts, &t2);
    let t3 = select_all_texts(html, ".mean_lv_1");
    push_trimmed_nonempty(&mut parts, &t3);
    let t4 = select_all_texts(html, ".mean_no_1");
    push_trimmed_nonempty(&mut parts, &t4);
    let t5 = select_all_texts(html, ".mean_no_2");
    push_trimmed_nonempty(&mut parts, &t5);
    let t6 = select_all_texts(html, ".mean_no_3");
    push_trimmed_nonempty(&mut parts, &t6);
    proof {
        assert(parts.deep_view() =~= spec_meaning_parts(html@));
    }
    if parts.len() == 0 {
        let flat = fragment_flat_text(html);
        trim_str(flat.as_str())
    } else {
        join_with(&parts, " ")
    }
}

/// The recovered phonetic reading of a record: the headline-derived value
/// wins; after a headline parse failure, the block's dedicated reading
/// marker, then its abbreviation marker, each sanitized as a reading and
/// accepted only when non-empty.
pub open spec fn spec_record_kana(title: Seq<char>, html: Seq<char>) -> Option<Seq<char>> {
    match spec_parse_headline(title) {
        Some(p) => Some(p.0),
        None => {
            let marker = match first_text_of(html, ".headword_kana"@) {
                Some(t) => spec_sanitize(t, SanitizeContext::Reading),
                None => Seq::empty(),
            };
            if marker.len() > 0 {
                Some(marker)
            } else {
                match first_text_of(html, ".headword_ryaku"@) {
                    Some(t) => if spec_sanitize(t, SanitizeContext::Reading).len() > 0 {
                        Some(spec_sanitize(t, SanitizeContext::Reading))
                    } else {
                        None
                    },
                    None => None,
                }
            }
        },
    }
}

/// The recovered script form of a record: the headline-derived value wins
/// (possibly empty); after a headline parse failure, the block's dedicated
/// script marker, sanitized and accepted only when non-empty.
pub open spec fn spec_record_kanji(title: Seq<char>, html: Seq<char>) -> Option<Seq<char>> {
    match spec_parse_headline(title) {
        Some(p) => Some(p.1),
        None => match first_text_of(html, ".headword_hyouki"@) {
            Some(t) => if spec_sanitize(t, SanitizeContext::Script).len() > 0 {
                Some(spec_sanitize(t, SanitizeContext::Script))
            } else {
                None
            },
            None => None,
        },
    }
}

/// The trimmed text of a single dedicated marker, absent when the marker is
/// missing or its text is blank.
pub open spec fn spec_marker_text(html: Seq<char>, selector: Seq<char>) -> Option<Seq<char>> {
    match first_text_of(html, selector) {
        Some(t) => if spec_trim(t).len() > 0 {
            Some(spec_trim(t))
        } else {
            None
        },
        None => None,
    }
}

/// Reads one dedicated marker: trimmed text, absent when missing or blank.
fn marker_text(html: &str, selector: &str) -> (r: Option<String>)
    ensures
        r.deep_view() == spec_marker_text(html@, selector@),
{
    match select_first_text(html, selector) {
        Some(t) => {
            let tt = trim_str(t.as_str());
            if tt.as_str().unicode_len() > 0 {
                Some(tt)
            } else {
                None
            }
        },
        None => None,
    }
}

/// The structured entry recovered from one title line and one markup block;
/// `None` exactly when the block carries no source identifier.
pub open spec fn spec_record_entry(title: Seq<char>, html: Seq<char>) -> Option<EntryModel> {
    match first_attr_of(html, "container"@, "data-id"@) {
        None => None,
        Some(id) => Some(
            EntryModel {
                id: None,
                data_id: id,
                data_type: match first_attr_of(html, "container"@, "data-type"@) {
                    Some(t) => t,
                    None => "unknown"@,
                },
                headword: title,
                kana_reading: spec_record_kana(title, html),
                kanji_writing: spec_record_kanji(title, html),
                part_of_speech: spec_marker_text(html, ".pos_s"@),
                conjugation: spec_marker_text(html, ".katsuyo"@),
                definition_html: html,
                definition_text: spec_definition_text(html),
                raw_mdx_content: title + "\n"@ + html,
            },
        ),
    }
}

/// The fallback order of the reading chain: whenever the headline parses,
/// the headline-derived reading wins, whatever reading the markup's own
/// marker carries — even one that differs.
pub proof fn lemma_headline_reading_wins(title: Seq<char>, html: Seq<char>)
    requires
        spec_parse_headline(title) is Some,
    ensures
        spec_record_kana(title, html) == Some(spec_parse_headline(title).unwrap().0),
        spec_record_kanji(title, html) == Some(spec_parse_headline(title).unwrap().1),
{
}

/// Assembles one structured entry from a title line and its markup block.
/// The record is un-assemblable exactly when the mandatory source identifier
/// is absent; every other failure degrades to an absent optional field.
pub fn parse_entry_from_html(title: &str, html: &str) -> (r: Option<ObunshaDictEntry>)
    ensures
        r is Some <==> spec_record_entry(title@, html@) is Some,
        r matches Some(e) ==> e@ == spec_record_entry(title@, html@).unwrap(),
{
    let data_id = match select_first_attr(html, "container", "data-id") {
        Some(v) => v,
        None => {
            return None;
        },
    };
    let data_type = match select_first_attr(html, "container", "data-type") {
        Some(v) => v,
        None => String::from_str("unknown"),
    };
    let (kana_reading, kanji_writing) = match parse_headline(title) {
        Some(h) => (Some(h.reading), Some(h.script)),
        None => {
            let kana = match select_first_text(html, ".headword_kana") {
                Some(t) => {
                    let cleaned = sanitize(t.as_str(), SanitizeContext::Reading);
                    if cleaned.as_str().unicode_len() > 0 {
                        Some(cleaned)
                    } else {
                        None
                    }
                },
                None => None,
            };
            let kana = match kana {
                Some(k) => Some(k),
                None => match select_first_text(html, ".headword_ryaku") {
                    Some(t) => {
                        let cleaned = sanitize(t.as_str(), SanitizeContext::Reading);
                        if cleaned.as_str().unicode_len() > 0 {
                            Some(cleaned)
                        } else {
                            None
                        }
                    },
                    None => None,
                },
            };
            let kanji = match select_first_text(html, ".headword_hyouki") {
                Some(t) => {
                    let cleaned = sanitize(t.as_str(), SanitizeContext::Script);
                    if cleaned.as_str().unicode_len() > 0 {
                        Some(cleaned)
                    } else {
                        None
                    }
                },
                None => None,
            };
            (kana, kanji)
        },
    };
    let part_of_speech = marker_text(html, ".pos_s");
    let conjugation = marker_text(html, ".katsuyo");
    let definition_text = extract_definition_text(html);
    let mut raw_mdx_content = title.to_owned();
    raw_mdx_content.append("\n");
    raw_mdx_content.append(html);
    Some(
        ObunshaDictEntry {
            id: None,
            data_id,
            data_type,
            headword: title.to_owned(),
            kana_reading,
            kanji_writing,
            part_of_speech,
            conjugation,
            definition_html: html.to_owned(),
            definition_text,
            raw_mdx_content,
        },
    )
}

} // verus!
