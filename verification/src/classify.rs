//! Classification of a single code point into the classes that drive
//! sanitization and the boundary heuristic.

use vstd::prelude::*;

verus! {

/// The class of one code point.
#[derive(Clone, Copy, PartialEq, Eq, Structural, Debug)]
pub enum CharClass {
    /// Hiragana, katakana, the long-vowel mark, and a small fixed set of
    /// separator glyphs (middle dot variants, hyphen-minus, katakana hyphen).
    Kana,
    /// CJK unified ideographs.
    Kanji,
    /// Bracket and marker glyphs of the source typesetting; always dropped.
    DecorativeGlyph,
    /// ASCII letters and digits, for loan-word and abbreviation headwords.
    AsciiAlnum,
    /// Everything else; dropped by the sanitizer.
    Other,
}

/// Hiragana block, katakana block (which holds the long-vowel mark U+30FC and
/// the middle dot U+30FB), plus the out-of-block separators: hyphenation
/// point U+2027, middle dot U+00B7 and hyphen-minus.
pub open spec fn spec_is_kana(c: char) -> bool {
    (0x3040 <= c as u32 && c as u32 <= 0x309f)
    || (0x30a0 <= c as u32 && c as u32 <= 0x30ff)
    || c == '\u{2027}'
    || c == '\u{00b7}'
    || c == '-'
}

/// CJK unified ideographs.
pub open spec fn spec_is_kanji(c: char) -> bool {
    0x4e00 <= c as u32 && c as u32 <= 0x9fff
}

/// Whether a code point is a CJK unified ideograph.
pub fn is_kanji(c: char) -> (r: bool)
    ensures
        r == spec_is_kanji(c),
{
    let u = c as u32;
    0x4e00 <= u && u <= 0x9fff
}

/// The fixed set of marker glyphs of the source typesetting: the lenticular
/// brackets, geometric shapes, reference marks, asterisk and stars.
pub open spec fn spec_is_decorative(c: char) -> bool {
    ||| c == '\u{3010}'  // left lenticular bracket
    ||| c == '\u{3011}'  // right lenticular bracket
    ||| c == '\u{25c7}'  // white diamond
    ||| c == '\u{25b3}'  // white up-pointing triangle
    ||| c == '\u{25bd}'  // white down-pointing triangle
    ||| c == '\u{25b2}'  // black up-pointing triangle
    ||| c == '\u{25bc}'  // black down-pointing triangle
    ||| c == '\u{25cb}'  // white circle
    ||| c == '\u{25cf}'  // black circle
    ||| c == '\u{25ef}'  // large circle
    ||| c == '\u{25a1}'  // white square
    ||| c == '\u{25a0}'  // black square
    ||| c == '\u{25a2}'  // white square with rounded corners
    ||| c == '\u{25a3}'  // white square containing black small square
    ||| c == '\u{25c6}'  // black diamond
    ||| c == '\u{203b}'  // reference mark
    ||| c == '\u{ff0a}'  // fullwidth asterisk
    ||| c == '\u{2606}'  // white star
    ||| c == '\u{2605}'  // black star
}

/// ASCII letters and digits.
pub open spec fn spec_is_ascii_alnum(c: char) -> bool {
    ('0' <= c && c <= '9') || ('a' <= c && c <= 'z') || ('A' <= c && c <= 'Z')
}

/// The class of a code point. Total: every code point falls in exactly the
/// first of these tests that holds, `Other` if none does.
pub open spec fn spec_classify(c: char) -> CharClass {
    if spec_is_kana(c) {
        CharClass::Kana
    } else if spec_is_kanji(c) {
        CharClass::Kanji
    } else if spec_is_decorative(c) {
        CharClass::DecorativeGlyph
    } else if spec_is_ascii_alnum(c) {
        CharClass::AsciiAlnum
    } else {
        CharClass::Other
    }
}

/// Classifies one code point; pure and total.
pub fn classify(c: char) -> (r: CharClass)
    ensures
        r == spec_classify(c),
{
    let u = c as u32;
    if (0x3040 <= u && u <= 0x309f) || (0x30a0 <= u && u <= 0x30ff) || c == '\u{2027}'
        || c == '\u{00b7}' || c == '-' {
        CharClass::Kana
    } else if 0x4e00 <= u && u <= 0x9fff {
        CharClass::Kanji
    } else if c == '\u{3010}' || c == '\u{3011}' || c == '\u{25c7}' || c == '\u{25b3}'
        || c == '\u{25bd}' || c == '\u{25b2}' || c == '\u{25bc}' || c == '\u{25cb}'
        || c == '\u{25cf}' || c == '\u{25ef}' || c == '\u{25a1}' || c == '\u{25a0}'
        || c == '\u{25a2}' || c == '\u{25a3}' || c == '\u{25c6}' || c == '\u{203b}'
        || c == '\u{ff0a}' || c == '\u{2606}' || c == '\u{2605}' {
        CharClass::DecorativeGlyph
    } else if ('0' <= c && c <= '9') || ('a' <= c && c <= 'z') || ('A' <= c && c <= 'Z') {
        CharClass::AsciiAlnum
    } else {
        CharClass::Other
    }
}

/// The Unicode white-space code points; used for trimming and for the
/// separator-stripping cleaner.
pub open spec fn spec_is_ws(c: char) -> bool {
    ||| c == '\u{0009}'
    ||| c == '\u{000a}'
    ||| c == '\u{000b}'
    ||| c == '\u{000c}'
    ||| c == '\u{000d}'
    ||| c == ' '
    ||| c == '\u{0085}'
    ||| c == '\u{00a0}'
    ||| c == '\u{1680}'
    ||| (0x2000 <= c as u32 && c as u32 <= 0x200a)
    ||| c == '\u{2028}'
    ||| c == '\u{2029}'
    ||| c == '\u{202f}'
    ||| c == '\u{205f}'
    ||| c == '\u{3000}'  // ideographic space
}

/// Whether a code point is white space.
pub fn is_ws(c: char) -> (r: bool)
    ensures
        r == spec_is_ws(c),
{
    let u = c as u32;
    c == '\u{0009}' || c == '\u{000a}' || c == '\u{000b}' || c == '\u{000c}' || c == '\u{000d}'
        || c == ' ' || c == '\u{0085}' || c == '\u{00a0}' || c == '\u{1680}'
        || (0x2000 <= u && u <= 0x200a) || c == '\u{2028}' || c == '\u{2029}'
        || c == '\u{202f}' || c == '\u{205f}' || c == '\u{3000}'
}

} // verus!
