//! The first-pass cleaner over the raw export: classifies each raw line,
//! recovers a title for every markup-bearing record, and keeps the yield
//! counters. Reading and writing the files around it is the caller's
//! concern; the cleaner only decides.

use vstd::prelude::*;
use vstd::string::StrSliceExecFns;
use vstd::string::StringExecFns;
use crate::boundary::is_boundary_line;
use crate::boundary::is_likely_kanji_only_line;
use crate::boundary::inc_sat;
use crate::boundary::spec_inc_sat;
use crate::boundary::spec_is_boundary_line;
use crate::boundary::spec_is_likely_kanji_only;
use crate::markup::first_attr_of;
use crate::markup::first_text_of;
use crate::markup::select_first_attr;
use crate::markup::select_first_text;
use crate::redirect::spec_is_redirect_line;
use crate::sanitize::SanitizeContext;
use crate::sanitize::sanitize;
use crate::sanitize::spec_sanitize;
use crate::text::find_char;
use crate::text::find_sub;
use crate::text::push_char;
use crate::text::spec_find_char;
use crate::text::spec_find_sub;
use crate::text::spec_trim;
use crate::text::starts_with;
use crate::text::substr;
use crate::text::trim_str;

verus! {

/// Whether a raw line is blank.
pub open spec fn spec_line_blank(l: Seq<char>) -> bool {
    spec_trim(l).len() == 0
}

/// Whether a raw line carries a markup block.
pub open spec fn spec_line_markup(l: Seq<char>) -> bool {
    spec_find_sub(l, "<link rel=\"stylesheet\""@) is Some
}

/// The title recovered from a markup block: the sanitized reading marker
/// (the abbreviation marker when the reading is empty) and the sanitized
/// script marker, joined as `reading【script】` when both are present; the
/// reading alone without a script; failing both, the record identifier or a
/// fixed placeholder.
pub open spec fn spec_title_from_html(html: Seq<char>) -> Seq<char> {
    let kana0 = match first_text_of(html, ".headword_kana"@) {
        Some(t) => spec_sanitize(t, SanitizeContext::Reading),
        None => Seq::empty(),
    };
    let kanji = match first_text_of(html, ".headword_hyouki"@) {
        Some(t) => spec_sanitize(t, SanitizeContext::Script),
        None => Seq::empty(),
    };
    let kana = if kana0.len() == 0 {
        match first_text_of(html, ".headword_ryaku"@) {
            Some(t) => spec_sanitize(t, SanitizeContext::Reading),
            None => Seq::empty(),
        }
    } else {
        kana0
    };
    if kana.len() > 0 && kanji.len() > 0 {
        kana + seq!['\u{3010}'] + kanji + seq!['\u{3011}']
    } else if kana.len() > 0 {
        kana
    } else {
        match first_attr_of(html, "container"@, "data-id"@) {
            Some(id) => "entry_"@ + id,
            None => "unknown_entry"@,
        }
    }
}

/// The split of a raw line into recovered title and markup block: the block
/// starts at the style-sheet marker; a line without the marker yields an
/// empty title and passes through whole.
pub open spec fn spec_extract_title_and_html(l: Seq<char>) -> (Seq<char>, Seq<char>) {
    match spec_find_sub(l, "<link rel=\"stylesheet\""@) {
        Some(i) => (spec_title_from_html(l.skip(i)), l.skip(i)),
        None => (Seq::empty(), l),
    }
}

/// The record identifier embedded in a raw markup line: the run between the
/// identifier attribute marker and the next quote.
pub open spec fn spec_extract_data_id(l: Seq<char>) -> Option<Seq<char>> {
    match spec_find_sub(l, "data-id=\""@) {
        Some(i) => {
            let rest = l.skip(i + "data-id=\""@.len() as int);
            match spec_find_char(rest, '"') {
                Some(j) => Some(rest.subrange(0, j)),
                None => None,
            }
        },
        None => None,
    }
}

/// What one raw export line calls for.
pub enum CleanAction {
    /// The line contributes nothing: blank, or no recognized record shape.
    Skipped,
    /// A redirect marker; counted, carried no further by this pass.
    Redirect,
    /// A markup-bearing record: the recovered title and the markup block,
    /// to be written out as a record pair.
    Emit { title: String, html: String },
}

/// The first-pass cleaner and its yield counters for one run.
pub struct DataCleaner {
    /// Alias-to-target mappings collected for reporting.
    pub redirect_map: Vec<(String, String)>,
    /// Markup-bearing records seen so far.
    pub valid_entries: usize,
    /// Redirect markers seen so far.
    pub redirect_entries: usize,
    /// Whether the boundary has been crossed.
    pub boundary_reached: bool,
}

impl DataCleaner {
    /// A cleaner at the start of a run: no mappings, all counters zero.
    pub fn new() -> (r: Self)
        ensures
            r.redirect_map@.len() == 0,
            r.valid_entries == 0,
            r.redirect_entries == 0,
            !r.boundary_reached,
    {
        DataCleaner {
            redirect_map: Vec::new(),
            valid_entries: 0,
            redirect_entries: 0,
            boundary_reached: false,
        }
    }

    /// Classifies one raw line and keeps count: a blank line and an
    /// unrecognized line are skipped; a redirect marker is counted; a
    /// markup-bearing line is counted and split into title and block.
    pub fn process_line(&mut self, line: &str) -> (r: CleanAction)
        ensures
            final(self).redirect_map == old(self).redirect_map,
            final(self).boundary_reached == old(self).boundary_reached,
            spec_line_blank(line@) ==> r is Skipped && *final(self) == *old(self),
            (!spec_line_blank(line@) && spec_is_redirect_line(line@)) ==> {
                &&& r is Redirect
                &&& final(self).redirect_entries == spec_inc_sat(old(self).redirect_entries)
                &&& final(self).valid_entries == old(self).valid_entries
            },
            (!spec_line_blank(line@) && !spec_is_redirect_line(line@) && spec_line_markup(line@))
                ==> {
                &&& r matches CleanAction::Emit { title, html } && (title@, html@)
                    == spec_extract_title_and_html(line@)
                &&& final(self).valid_entries == spec_inc_sat(old(self).valid_entries)
                &&& final(self).redirect_entries == old(self).redirect_entries
            },
            (!spec_line_blank(line@) && !spec_is_redirect_line(line@) && !spec_line_markup(line@))
                ==> r is Skipped && *final(self) == *old(self),
    {
        let t = trim_str(line);
        if t.as_str().unicode_len() == 0 {
            return CleanAction::Skipped;
        }
        if starts_with(line, "@@@LINK=") {
            self.redirect_entries = inc_sat(self.redirect_entries);
            return CleanAction::Redirect;
        }
        if contains_marker(line) {
            let (title, html) = self.extract_title_and_html(line);
            self.valid_entries = inc_sat(self.valid_entries);
            return CleanAction::Emit { title, html };
        }
        CleanAction::Skipped
    }

    /// Splits a raw line at the style-sheet marker and recovers the title
    /// from the markup that follows.
    pub fn extract_title_and_html(&self, line: &str) -> (r: (String, String))
        ensures
            (r.0@, r.1@) == spec_extract_title_and_html(line@),
    {
        let n = line.unicode_len();
        match find_sub(line, "<link rel=\"stylesheet\"") {
            Some(i) => {
                let html = substr(line, i, n);
                proof {
                    assert(html@ =~= line@.skip(i as int));
                }
                let title = self.extract_title_from_html(html.as_str());
                (title, html)
            },
            None => (String::new(), line.to_owned()),
        }
    }

    /// Recovers a record title from its markup block through the marker
    /// fallbacks.
    pub fn extract_title_from_html(&self, html: &str) -> (r: String)
        ensures
            r@ == spec_title_from_html(html@),
    {
        let kana0 = match select_first_text(html, ".headword_kana") {
            Some(t) => sanitize(t.as_str(), SanitizeContext::Reading),
            None => String::new(),
        };
        let kanji = match select_first_text(html, ".headword_hyouki") {
            Some(t) => sanitize(t.as_str(), SanitizeContext::Script),
            None => String::new(),
        };
        let kana = if kana0.as_str().unicode_len() == 0 {
            match select_first_text(html, ".headword_ryaku") {
                Some(t) => sanitize(t.as_str(), SanitizeContext::Reading),
                None => String::new(),
            }
        } else {
            kana0
        };
        if kana.as_str().unicode_len() > 0 && kanji.as_str().unicode_len() > 0 {
            let mut title = kana;
            push_char(&mut title, '\u{3010}');
            title.append(kanji.as_str());
            push_char(&mut title, '\u{3011}');
            proof {
                assert(title@ =~= spec_title_from_html(html@));
            }
            title
        } else if kana.as_str().unicode_len() > 0 {
            kana
        } else {
            match select_first_attr(html, "container", "data-id") {
                Some(id) => {
                    let mut title = "entry_".to_owned();
                    title.append(id.as_str());
                    title
                },
                None => "unknown_entry".to_owned(),
            }
        }
    }

    /// Cleans a phonetic reading: keeps kana and ASCII alphanumerics, drops
    /// every marker glyph.
    pub fn clean_kana_text(&self, text: &str) -> (r: String)
        ensures
            r@ == spec_sanitize(text@, SanitizeContext::Reading),
    {
        sanitize(text, SanitizeContext::Reading)
    }

    /// Cleans a script form: keeps kanji, kana and ASCII alphanumerics,
    /// drops every marker glyph.
    pub fn clean_kanji_text(&self, text: &str) -> (r: String)
        ensures
            r@ == spec_sanitize(text@, SanitizeContext::Script),
    {
        sanitize(text, SanitizeContext::Script)
    }

    /// Whether a line opens the trailing kanji cross-reference region: a
    /// short, essentially-kanji line.
    pub fn is_kanji_redirect_start(&self, line: &str) -> (r: bool)
        ensures
            r == spec_is_boundary_line(line@),
    {
        is_boundary_line(line)
    }

    /// Whether a trimmed line is essentially kanji: at least one kanji code
    /// point, and kanji over four fifths of its code points.
    pub fn is_likely_kanji_only(&self, line: &str) -> (r: bool)
        ensures
            r == spec_is_likely_kanji_only(line@),
    {
        is_likely_kanji_only_line(line)
    }

    /// Reads the record identifier out of a raw markup line.
    pub fn extract_data_id(&self, line: &str) -> (r: Option<String>)
        ensures
            r.deep_view() == spec_extract_data_id(line@),
    {
        let n = line.unicode_len();
        match find_sub(line, "data-id=\"") {
            Some(i) => {
                let m = "data-id=\"".unicode_len();
                let rest = substr(line, i + m, n);
                proof {
                    assert(rest@ =~= line@.skip(i + "data-id=\""@.len()));
                }
                match find_char(rest.as_str(), '"') {
                    Some(j) => Some(substr(rest.as_str(), 0, j)),
                    None => None,
                }
            },
            None => None,
        }
    }

    /// The yield counters: markup-bearing records, redirect markers, and
    /// collected mappings.
    pub fn get_stats(&self) -> (r: (usize, usize, usize))
        ensures
            r.0 == self.valid_entries,
            r.1 == self.redirect_entries,
            r.2 == self.redirect_map@.len(),
    {
        (self.valid_entries, self.redirect_entries, self.redirect_map.len())
    }
}

/// Whether a raw line carries the style-sheet marker of a markup block.
fn contains_marker(line: &str) -> (r: bool)
    ensures
        r == spec_line_markup(line@),
{
    match find_sub(line, "<link rel=\"stylesheet\"") {
        Some(_) => true,
        None => false,
    }
}

} // verus!
