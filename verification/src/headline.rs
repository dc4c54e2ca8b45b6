//! Decomposition of a title line of the form `reading【script】` into its
//! phonetic reading and script form. Both delimiters are located by
//! code-point index; the script part may be empty. A line without the
//! delimiters is taken whole as the reading when it carries no kanji,
//! and rejected as ambiguous otherwise.

use vstd::prelude::*;
use vstd::string::StrSliceExecFns;
use crate::classify::is_kanji;
use crate::classify::spec_is_kanji;
use crate::sanitize::SanitizeContext;
use crate::sanitize::sanitize;
use crate::sanitize::spec_sanitize;
use crate::text::find_char;
use crate::text::find_char_from;
use crate::text::spec_find_char;
use crate::text::spec_find_char_from;
use crate::text::spec_trim;
use crate::text::substr;
use crate::text::trim_str;

verus! {

/// A decomposed headline: the phonetic reading (never empty) and the script
/// form (possibly empty).
pub struct Headline {
    pub reading: String,
    pub script: String,
}

/// Whether the sequence holds at least one kanji code point.
pub open spec fn spec_has_kanji(s: Seq<char>) -> bool {
    exists|i: int| 0 <= i < s.len() && spec_is_kanji(s[i])
}

/// Whether the string holds at least one kanji code point.
pub fn has_kanji(s: &str) -> (r: bool)
    ensures
        r == spec_has_kanji(s@),
{
    let n = s.unicode_len();
    let mut i: usize = 0;
    while i < n
        invariant
            i <= n,
            n == s@.len(),
            forall|j: int| 0 <= j < i ==> !spec_is_kanji(s@[j]),
        decreases n - i,
    {
        if is_kanji(s.get_char(i)) {
            return true;
        }
        i += 1;
    }
    false
}

/// The decomposition of a title line: the trimmed line is searched for the
/// first opening bracket and the first closing bracket after it. With both
/// present, the reading is the sanitized part before the opening bracket
/// (empty reading fails the parse) and the script is the sanitized part
/// between the brackets. Without the pair, a line free of kanji is taken
/// whole as the reading; a kanji-bearing line is ambiguous and fails.
pub open spec fn spec_parse_headline(s: Seq<char>) -> Option<(Seq<char>, Seq<char>)> {
    let t = spec_trim(s);
    let pair = match spec_find_char(t, '\u{3010}') {
        Some(o) => match spec_find_char_from(t, '\u{3011}', o + 1) {
            Some(cl) => Some((o, cl)),
            None => None,
        },
        None => None,
    };
    match pair {
        Some((o, cl)) => {
            let reading = spec_sanitize(t.subrange(0, o), SanitizeContext::Reading);
            if reading.len() == 0 {
                None
            } else {
                Some((reading, spec_sanitize(t.subrange(o + 1, cl), SanitizeContext::Script)))
            }
        },
        None => if t.len() > 0 && !spec_has_kanji(t) {
            Some((t, Seq::empty()))
        } else {
            None
        },
    }
}

/// Parses a title line into reading and script form; `None` is a parse
/// failure (ambiguous line or empty reading), which the caller counts and
/// survives.
pub fn parse_headline(s: &str) -> (r: Option<Headline>)
    ensures
        r is Some <==> spec_parse_headline(s@) is Some,
        r matches Some(h) ==> spec_parse_headline(s@) == Some((h.reading@, h.script@)),
        r matches Some(h) ==> h.reading@.len() > 0,
{
    let t = trim_str(s);
    let tn = t.as_str().unicode_len();
    let pair = match find_char(t.as_str(), '\u{3010}') {
        Some(o) => match find_char_from(t.as_str(), '\u{3011}', o + 1) {
            Some(cl) => Some((o, cl)),
            None => None,
        },
        None => None,
    };
    match pair {
        Some((o, cl)) => {
            let before = substr(t.as_str(), 0, o);
            let reading = sanitize(before.as_str(), SanitizeContext::Reading);
            if reading.as_str().unicode_len() == 0 {
                None
            } else {
                let between = substr(t.as_str(), o + 1, cl);
                let script = sanitize(between.as_str(), SanitizeContext::Script);
                Some(Headline { reading, script })
            }
        },
        None => {
            if !t.as_str().is_empty() && !has_kanji(t.as_str()) {
                Some(Headline { reading: t, script: String::new() })
            } else {
                None
            }
        },
    }
}

} // verus!
