//! The flat-record parser: one markup record per line, each carrying its own
//! reading, script, pronunciation and meaning markers.

use vstd::prelude::*;
use vstd::string::StrSliceExecFns;
use crate::entry::DictEntryModel;
use crate::entry::DictionaryEntry;
use crate::classify::spec_is_ws;
use crate::classify::is_ws;
use crate::markup::extract_definition_text;
use crate::markup::first_text_of;
use crate::markup::select_first_text;
use crate::markup::spec_definition_text;
use crate::text::contains_sub;
use crate::text::find_char_from;
use crate::text::join_with;
use crate::text::push_char;
use crate::text::spec_find_char_from;
use crate::text::spec_find_sub;
use crate::text::spec_join;
use crate::text::spec_trim;
use crate::text::substr;
use crate::text::trim_str;

verus! {

/// A reading separator: the katakana middle dot, hyphen-minus, or white
/// space. All are stripped from a reading key.
pub open spec fn spec_is_kana_sep(c: char) -> bool {
    c == '\u{30fb}' || c == '-' || spec_is_ws(c)
}

/// The cleaned reading key: the input without separator code points.
pub open spec fn spec_clean_kana(s: Seq<char>) -> Seq<char> {
    s.filter(|c: char| !spec_is_kana_sep(c))
}

/// An annotation opener: 〔, fullwidth （, plain (, 〖. What such a bracket
/// encloses is a gloss, not part of the script form.
pub open spec fn spec_is_annot_open(c: char) -> bool {
    c == '\u{3014}' || c == '\u{ff08}' || c == '(' || c == '\u{3016}'
}

/// The matching annotation closers: 〕, fullwidth ）, plain ), 〗.
pub open spec fn spec_is_annot_close(c: char) -> bool {
    c == '\u{3015}' || c == '\u{ff09}' || c == ')' || c == '\u{3017}'
}

/// A mark dropped on its own from a script form: the lenticular delimiters
/// and the decorative marks of the source typesetting.
pub open spec fn spec_is_script_mark(c: char) -> bool {
    ||| c == '\u{3010}'  // left lenticular bracket
    ||| c == '\u{3011}'  // right lenticular bracket
    ||| c == '\u{25c7}'  // white diamond
    ||| c == '\u{25b3}'  // white up-pointing triangle
    ||| c == '\u{25bd}'  // white down-pointing triangle
    ||| c == '\u{25b2}'  // black up-pointing triangle
    ||| c == '\u{25c6}'  // black diamond
    ||| c == '\u{25a0}'  // black square
    ||| c == '\u{25cf}'  // black circle
    ||| c == '\u{25cb}'  // white circle
    ||| c == '\u{25a1}'  // white square
    ||| c == '\u{25ce}'  // bullseye
    ||| c == '\u{203b}'  // reference mark
    ||| c == '\u{2605}'  // black star
    ||| c == '\u{2606}'  // white star
    ||| c == '\u{2666}'  // black diamond suit
    ||| c == '\u{2660}'  // black spade suit
    ||| c == '\u{2663}'  // black club suit
    ||| c == '\u{2665}'  // black heart suit
}

/// The script form with annotation spans removed whole (bracket and content)
/// and lone marks dropped; `depth` counts the enclosing annotation brackets.
pub open spec fn spec_strip_annot(s: Seq<char>, depth: nat) -> Seq<char>
    decreases s.len(),
{
    if s.len() == 0 {
        Seq::empty()
    } else {
        let c = s[0];
        if spec_is_annot_open(c) {
            spec_strip_annot(s.drop_first(), depth + 1)
        } else if spec_is_annot_close(c) {
            spec_strip_annot(s.drop_first(), if depth > 0 { (depth - 1) as nat } else { 0 })
        } else if depth > 0 || spec_is_script_mark(c) {
            spec_strip_annot(s.drop_first(), depth)
        } else {
            seq![c] + spec_strip_annot(s.drop_first(), depth)
        }
    }
}

/// The cleaned script form: trimmed, stripped of annotation spans and marks,
/// and trimmed again.
pub open spec fn spec_clean_kanji(s: Seq<char>) -> Seq<char> {
    spec_trim(spec_strip_annot(spec_trim(s), 0))
}

/// The cleaned script form as an optional value: absent when nothing
/// survives the cleaning.
pub open spec fn spec_clean_kanji_opt(s: Seq<char>) -> Option<Seq<char>> {
    if spec_clean_kanji(s).len() == 0 {
        None
    } else {
        Some(spec_clean_kanji(s))
    }
}

/// The pronunciation captures of a block: for each leftmost occurrence of a
/// bold span with a non-empty body free of markup, the body; the scan
/// resumes after each capture.
pub open spec fn spec_bold_caps(s: Seq<char>) -> Seq<Seq<char>>
    decreases s.len(),
{
    if s.len() < 3 {
        Seq::empty()
    } else if s[0] == '<' && s[1] == 'b' && s[2] == '>' {
        let body_end = spec_bold_body_end(s);
        if body_end > 3 && body_end + 4 <= s.len() && s[body_end + 1] == '/' && s[body_end + 2]
            == 'b' && s[body_end + 3] == '>' {
            seq![s.subrange(3, body_end)] + spec_bold_caps(s.skip(body_end + 4))
        } else {
            spec_bold_caps(s.drop_first())
        }
    } else {
        spec_bold_caps(s.drop_first())
    }
}

/// The end of a bold body: the first `<` at or after the opening tag, the
/// whole length when none follows.
pub open spec fn spec_bold_body_end(s: Seq<char>) -> int {
    match spec_find_char_from(s, '<', 3) {
        Some(i) => i,
        None => s.len() as int,
    }
}

/// The joined pronunciation: the bold captures joined with the katakana
/// middle dot, absent when there is no capture.
pub open spec fn spec_pronunciation(s: Seq<char>) -> Option<Seq<char>> {
    if spec_bold_caps(s).len() == 0 {
        None
    } else {
        Some(spec_join(spec_bold_caps(s), "\u{30fb}"@))
    }
}

/// The record type marker: the first of the known type markers that occurs
/// in the block.
pub open spec fn spec_entry_type(s: Seq<char>) -> Seq<char> {
    if spec_find_sub(s, "item_kanji"@) is Some {
        "item_kanji"@
    } else if spec_find_sub(s, "item_ippan"@) is Some {
        "item_ippan"@
    } else if spec_find_sub(s, "item_kiso"@) is Some {
        "item_kiso"@
    } else {
        "unknown"@
    }
}

/// The first non-absent cleaned script form over the fixed selector chain.
pub open spec fn spec_dict_kanji(html: Seq<char>) -> Option<Seq<char>> {
    let c1 = spec_selector_kanji(html, ".head_hyo_1"@);
    let c2 = spec_selector_kanji(html, ".head_hyo_2"@);
    let c3 = spec_selector_kanji(html, ".head_joyo"@);
    let c4 = spec_selector_kanji(html, ".head_kyoiku"@);
    let c5 = spec_selector_kanji(html, ".head_gen"@);
    if c1 is Some {
        c1
    } else if c2 is Some {
        c2
    } else if c3 is Some {
        c3
    } else if c4 is Some {
        c4
    } else {
        c5
    }
}

/// The cleaned script form drawn from one selector, absent when the selector
/// matches nothing or nothing survives the cleaning.
pub open spec fn spec_selector_kanji(html: Seq<char>, selector: Seq<char>) -> Option<Seq<char>> {
    match first_text_of(html, selector) {
        Some(t) => spec_clean_kanji_opt(t),
        None => None,
    }
}

/// The parse of one flat record: fails without a reading marker, with an
/// empty cleaned reading, or with an empty recovered meaning; otherwise
/// every field is recovered through its own chain.
pub open spec fn spec_dict_entry(html: Seq<char>) -> Option<DictEntryModel> {
    match first_text_of(html, ".head_kana"@) {
        None => None,
        Some(t) => {
            let kana = spec_clean_kana(t);
            if kana.len() == 0 {
                None
            } else {
                let meaning = spec_definition_text(html);
                if meaning.len() == 0 {
                    None
                } else {
                    Some(
                        DictEntryModel {
                            id: None,
                            kana_entry: kana,
                            kanji_form: spec_dict_kanji(html),
                            meaning,
                            pronunciation: spec_pronunciation(html),
                            entry_type: spec_entry_type(html),
                            raw_html: html,
                        },
                    )
                }
            }
        },
    }
}

/// The entries of a record stream, in input order: the contribution of each
/// line that carries a record container and parses.
pub open spec fn spec_parse_stream(lines: Seq<Seq<char>>) -> Seq<DictEntryModel>
    decreases lines.len(),
{
    if lines.len() == 0 {
        Seq::empty()
    } else {
        let rest = spec_parse_stream(lines.drop_last());
        let l = lines.last();
        if spec_find_sub(l, "<container"@) is Some {
            match spec_dict_entry(l) {
                Some(e) => rest.push(e),
                None => rest,
            }
        } else {
            rest
        }
    }
}

/// The flat-record parser. It carries no state; each record is parsed on its
/// own.
pub struct DictParser {}

impl DictParser {
    /// Creates a parser.
    pub fn new() -> (r: Self) {
        DictParser {  }
    }

    /// Cleans a reading key: strips middle dots, hyphen-minus and white
    /// space, keeping everything else in order.
    pub fn clean_kana(&self, kana: &str) -> (r: String)
        ensures
            r@ == spec_clean_kana(kana@),
    {
        let ghost pred = |c: char| !spec_is_kana_sep(c);
        let n = kana.unicode_len();
        let mut out = String::new();
        let mut i: usize = 0;
        while i < n
            invariant
                i <= n,
                n == kana@.len(),
                out@ == kana@.take(i as int).filter(pred),
                pred == (|c: char| !spec_is_kana_sep(c)),
            decreases n - i,
        {
            let c = kana.get_char(i);
            let keep = !(c == '\u{30fb}' || c == '-' || is_ws(c));
            proof {
                reveal(Seq::filter);
                let cur = kana@.take(i + 1);
                assert(cur.drop_last() =~= kana@.take(i as int));
                assert(cur.last() == kana@[i as int]);
                assert(keep == pred(kana@[i as int]));
            }
            if keep {
                push_char(&mut out, c);
            }
            i += 1;
        }
        proof {
            assert(kana@.take(n as int) =~= kana@);
        }
        out
    }

    /// Cleans a script form: annotation brackets 〔〕（）()〖〗 are dropped
    /// together with what they enclose, lenticular delimiters and decorative
    /// marks are dropped alone, and the result is trimmed; absent when
    /// nothing survives.
    pub fn clean_kanji(&self, kanji: &str) -> (r: Option<String>)
        ensures
            r.deep_view() == spec_clean_kanji_opt(kanji@),
    {
        let t = trim_str(kanji);
        let n = t.as_str().unicode_len();
        let mut out = String::new();
        let mut depth: usize = 0;
        let mut i: usize = 0;
        proof {
            assert(t@.skip(0) =~= t@);
            assert(out@ + spec_strip_annot(t@, 0) =~= spec_strip_annot(t@, 0));
        }
        while i < n
            invariant
                i <= n,
                n == t@.len(),
                depth <= i,
                out@ + spec_strip_annot(t@.skip(i as int), depth as nat) == spec_strip_annot(
                    t@,
                    0,
                ),
            decreases n - i,
        {
            let c = t.as_str().get_char(i);
            proof {
                let rest = t@.skip(i as int);
                assert(rest.len() > 0);
                assert(rest[0] == t@[i as int]);
                assert(rest.drop_first() =~= t@.skip(i + 1));
            }
            if c == '\u{3014}' || c == '\u{ff08}' || c == '(' || c == '\u{3016}' {
                depth += 1;
            } else if c == '\u{3015}' || c == '\u{ff09}' || c == ')' || c == '\u{3017}' {
                if depth > 0 {
                    depth -= 1;
                }
            } else if depth > 0 || is_script_mark(c) {
            } else {
                let ghost before = out@;
                push_char(&mut out, c);
                proof {
                    assert(out@ + spec_strip_annot(t@.skip(i + 1), depth as nat) =~= before + (
                    seq![t@[i as int]] + spec_strip_annot(t@.skip(i + 1), depth as nat)));
                }
            }
            i += 1;
        }
        proof {
            assert(t@.skip(n as int) =~= Seq::<char>::empty());
            assert(out@ + Seq::<char>::empty() =~= out@);
        }
        let cleaned = trim_str(out.as_str());
        if cleaned.as_str().unicode_len() == 0 {
            None
        } else {
            Some(cleaned)
        }
    }

    /// Collects the pronunciation captures of a block, in order.
    fn bold_captures(&self, html: &str) -> (r: Vec<String>)
        ensures
            r.deep_view() == spec_bold_caps(html@),
    {
        let n = html.unicode_len();
        let mut caps: Vec<String> = Vec::new();
        let mut i: usize = 0;
        proof {
            assert(html@.skip(0) =~= html@);
            assert(caps.deep_view() + spec_bold_caps(html@) =~= spec_bold_caps(html@));
        }
        while i < n
            invariant
                i <= n,
                n == html@.len(),
                caps.deep_view() + spec_bold_caps(html@.skip(i as int)) == spec_bold_caps(html@),
            decreases n - i,
        {
            let ghost rest = html@.skip(i as int);
            proof {
                assert(rest.len() == n - i);
                assert forall|k: int| 0 <= k < rest.len() implies rest[k] == html@[i + k] by {}
                assert(rest.drop_first() =~= html@.skip(i + 1));
            }
            let is_open = n - i >= 3 && html.get_char(i) == '<' && html.get_char(i + 1) == 'b'
                && html.get_char(i + 2) == '>';
            if is_open {
                let body_end = match find_char_from(html, '<', i + 3) {
                    Some(j) => j,
                    None => n,
                };
                proof {
                    assert(rest.skip(3) =~= html@.skip(i + 3));
                    if spec_find_char_from(html@, '<', i + 3) is Some {
                        let j = spec_find_char_from(html@, '<', i + 3).unwrap();
                        assert(spec_find_char_from(rest, '<', 3) == Some(j - i));
                    } else {
                        assert(spec_find_char_from(rest, '<', 3) is None);
                    }
                    assert(spec_bold_body_end(rest) == body_end - i);
                }
                let is_close = body_end > i + 3 && n - body_end >= 4 && html.get_char(
                    body_end + 1,
                ) == '/' && html.get_char(body_end + 2) == 'b' && html.get_char(body_end + 3)
                    == '>';
                if is_close {
                    let cap = substr(html, i + 3, body_end);
                    let ghost before = caps.deep_view();
                    caps.push(cap);
                    proof {
                        assert(rest.subrange(3, body_end - i) =~= html@.subrange(
                            i + 3,
                            body_end as int,
                        ));
                        assert(rest.skip(body_end - i + 4) =~= html@.skip(body_end + 4));
                        assert(caps.deep_view() =~= before.push(cap@));
                        assert(before.push(cap@) + spec_bold_caps(html@.skip(body_end + 4))
                            =~= before + (seq![cap@] + spec_bold_caps(html@.skip(body_end + 4))));
                    }
                    i = body_end + 4;
                } else {
                    i += 1;
                }
            } else {
                proof {
                    if rest.len() >= 3 {
                        assert(rest[0] == html@[i as int]);
                        assert(rest[1] == html@[i + 1]);
                        assert(rest[2] == html@[i + 2]);
                    }
                }
                i += 1;
            }
        }
        proof {
            assert(html@.skip(n as int) =~= Seq::<char>::empty());
            assert(caps.deep_view() + Seq::<Seq<char>>::empty() =~= caps.deep_view());
        }
        caps
    }

    /// Recovers the pronunciation: the bold captures joined with the middle
    /// dot, absent when the block carries none.
    pub fn extract_pronunciation(&self, html: &str) -> (r: Option<String>)
        ensures
            r.deep_view() == spec_pronunciation(html@),
    {
        let caps = self.bold_captures(html);
        if caps.len() == 0 {
            None
        } else {
            Some(join_with(&caps, "\u{30fb}"))
        }
    }

    /// Recovers the meaning text of a record through the meaning-marker
    /// chain, falling back to the flattened block text.
    pub fn extract_meaning(&self, html: &str) -> (r: String)
        ensures
            r@ == spec_definition_text(html@),
    {
        extract_definition_text(html)
    }

    /// Parses one flat record. The parse fails only without a usable reading
    /// or without any meaning text; a missing script form or pronunciation
    /// is an absent optional field.
    pub fn parse_entry(&self, html_content: &str) -> (r: Option<DictionaryEntry>)
        ensures
            r is Some <==> spec_dict_entry(html_content@) is Some,
            r matches Some(e) ==> e@ == spec_dict_entry(html_content@).unwrap(),
    {
        let raw_kana = match select_first_text(html_content, ".head_kana") {
            Some(t) => t,
            None => {
                return None;
            },
        };
        let cleaned_kana = self.clean_kana(raw_kana.as_str());
        if cleaned_kana.as_str().unicode_len() == 0 {
            return None;
        }
        let kanji_form = self.selector_chain_kanji(html_content);
        let pronunciation = self.extract_pronunciation(html_content);
        let meaning = self.extract_meaning(html_content);
        if meaning.as_str().unicode_len() == 0 {
            return None;
        }
        let entry_type = if contains_sub(html_content, "item_kanji") {
            "item_kanji".to_owned()
        } else if contains_sub(html_content, "item_ippan") {
            "item_ippan".to_owned()
        } else if contains_sub(html_content, "item_kiso") {
            "item_kiso".to_owned()
        } else {
            "unknown".to_owned()
        };
        Some(
            DictionaryEntry {
                id: None,
                kana_entry: cleaned_kana,
                kanji_form,
                meaning,
                pronunciation,
                entry_type,
                raw_html: html_content.to_owned(),
            },
        )
    }

    /// Tries the script-form selectors in priority order; the first that
    /// yields a non-empty cleaned form wins.
    fn selector_chain_kanji(&self, html: &str) -> (r: Option<String>)
        ensures
            r.deep_view() == spec_dict_kanji(html@),
    {
        let c1 = self.one_selector_kanji(html, ".head_hyo_1");
        if c1.is_some() {
            return c1;
        }
        let c2 = self.one_selector_kanji(html, ".head_hyo_2");
        if c2.is_some() {
            return c2;
        }
        let c3 = self.one_selector_kanji(html, ".head_joyo");
        if c3.is_some() {
            return c3;
        }
        let c4 = self.one_selector_kanji(html, ".head_kyoiku");
        if c4.is_some() {
            return c4;
        }
        self.one_selector_kanji(html, ".head_gen")
    }

    /// One link of the script-form chain.
    fn one_selector_kanji(&self, html: &str, selector: &str) -> (r: Option<String>)
        ensures
            r.deep_view() == spec_selector_kanji(html@, selector@),
    {
        match select_first_text(html, selector) {
            Some(t) => self.clean_kanji(t.as_str()),
            None => None,
        }
    }

    /// Parses every record of a stream of lines, in order: a line carrying a
    /// record container contributes its parse; every other line is passed
    /// over.
    pub fn parse_lines(&self, lines: &Vec<String>) -> (r: Vec<DictionaryEntry>)
        ensures
            r.deep_view() == spec_parse_stream(lines.deep_view()),
    {
        let mut entries: Vec<DictionaryEntry> = Vec::new();
        let mut i: usize = 0;
        while i < lines.len()
            invariant
                i <= lines@.len(),
                entries.deep_view() == spec_parse_stream(lines.deep_view().take(i as int)),
            decreases lines@.len() - i,
        {
            let line = &lines[i];
            proof {
                let cur = lines.deep_view().take(i + 1);
                assert(cur.drop_last() =~= lines.deep_view().take(i as int));
                assert(cur.last() == lines@[i as int]@);
            }
            if contains_sub(line.as_str(), "<container") {
                match self.parse_entry(line.as_str()) {
                    Some(e) => {
                        let ghost before = entries.deep_view();
                        entries.push(e);
                        proof {
                            assert(entries.deep_view() =~= before.push(e@));
                        }
                    },
                    None => {},
                }
            }
            i += 1;
        }
        proof {
            assert(lines.deep_view().take(lines.deep_view().len() as int) =~= lines.deep_view());
        }
        entries
    }
}

/// Whether a code point is a lone script mark.
fn is_script_mark(c: char) -> (r: bool)
    ensures
        r == spec_is_script_mark(c),
{
    c == '\u{3010}' || c == '\u{3011}' || c == '\u{25c7}' || c == '\u{25b3}' || c == '\u{25bd}'
        || c == '\u{25b2}' || c == '\u{25c6}' || c == '\u{25a0}' || c == '\u{25cf}' || c
        == '\u{25cb}' || c == '\u{25a1}' || c == '\u{25ce}' || c == '\u{203b}' || c == '\u{2605}'
        || c == '\u{2606}' || c == '\u{2666}' || c == '\u{2660}' || c == '\u{2663}' || c
        == '\u{2665}'
}

} // verus!
