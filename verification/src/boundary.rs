//! The boundary detector: the state machine that separates the genuine
//! lexicon stream from the trailing cross-reference region. The sentinel
//! record identifier is authoritative; a short kanji-only line is the
//! secondary, heuristic confirmation, guarded against firing before any
//! valid entry has been seen. The boundary is crossed at most once: the
//! state never leaves `Confirmed`.

use vstd::prelude::*;
use vstd::string::StrSliceExecFns;
use crate::classify::is_kanji;
use crate::classify::spec_is_kanji;
use crate::text::eq_str;
use crate::text::spec_find_sub;
use crate::text::spec_trim;
use crate::text::trim_str;

verus! {

/// A counter bumped by one, held at the numeric ceiling.
pub open spec fn spec_inc_sat(n: usize) -> usize {
    if n < usize::MAX {
        (n + 1) as usize
    } else {
        n
    }
}

/// Bumps a counter by one, held at the numeric ceiling.
pub fn inc_sat(n: usize) -> (r: usize)
    ensures
        r == spec_inc_sat(n),
{
    if n < usize::MAX {
        n + 1
    } else {
        n
    }
}

/// The source identifier of the last true lexicon record.
pub open spec fn spec_sentinel_id() -> Seq<char> {
    "3011400"@
}

/// The kanji code points of a sequence.
pub open spec fn spec_kanji_count(s: Seq<char>) -> nat
    decreases s.len(),
{
    if s.len() == 0 {
        0
    } else {
        spec_kanji_count(s.drop_last()) + if spec_is_kanji(s.last()) {
            1nat
        } else {
            0nat
        }
    }
}

/// Whether a line is, once trimmed, essentially kanji: at least one kanji
/// code point, and kanji make up more than four fifths of its code points.
pub open spec fn spec_is_likely_kanji_only(s: Seq<char>) -> bool {
    let t = spec_trim(s);
    spec_kanji_count(t) > 0 && 5 * spec_kanji_count(t) > 4 * t.len()
}

/// Whether a line has the shape of the heuristic boundary: trimmed to one to
/// three code points, essentially kanji.
pub open spec fn spec_is_boundary_line(s: Seq<char>) -> bool {
    let t = spec_trim(s);
    1 <= t.len() <= 3 && spec_kanji_count(t) > 0 && 5 * spec_kanji_count(t) > 4 * t.len()
}

/// Counts the kanji code points of a string.
pub fn kanji_count(s: &str) -> (r: usize)
    ensures
        r == spec_kanji_count(s@),
        r <= s@.len(),
{
    let n = s.unicode_len();
    let mut count: usize = 0;
    let mut i: usize = 0;
    while i < n
        invariant
            i <= n,
            n == s@.len(),
            count <= i,
            count == spec_kanji_count(s@.take(i as int)),
        decreases n - i,
    {
        let c = s.get_char(i);
        proof {
            let cur = s@.take(i + 1);
            assert(cur.drop_last() =~= s@.take(i as int));
            assert(cur.last() == s@[i as int]);
        }
        if is_kanji(c) {
            count += 1;
        }
        i += 1;
    }
    proof {
        assert(s@.take(n as int) =~= s@);
    }
    count
}

/// Whether a trimmed line is essentially kanji.
pub fn is_likely_kanji_only_line(line: &str) -> (r: bool)
    ensures
        r == spec_is_likely_kanji_only(line@),
{
    let t = trim_str(line);
    let n = t.as_str().unicode_len();
    let count = kanji_count(t.as_str());
    count > 0 && (count as u128) * 5 > (n as u128) * 4
}

/// Whether a line has the shape of the heuristic boundary.
pub fn is_boundary_line(line: &str) -> (r: bool)
    ensures
        r == spec_is_boundary_line(line@),
{
    let t = trim_str(line);
    let n = t.as_str().unicode_len();
    if n < 1 || n > 3 {
        return false;
    }
    let count = kanji_count(t.as_str());
    count > 0 && (count as u128) * 5 > (n as u128) * 4
}

/// A line of the heuristic boundary's shape — one to three code points once
/// trimmed — is far too short to be a redirect marker (eight code points)
/// or to carry the style-sheet marker of a markup block (twenty-two).
pub proof fn lemma_boundary_line_shape(l: Seq<char>)
    requires
        spec_is_boundary_line(l),
    ensures
        !crate::redirect::spec_is_redirect_line(l),
        !crate::cleaner::spec_line_markup(l),
{
    if crate::redirect::spec_is_redirect_line(l) {
        reveal_strlit("@@@LINK=");
        let pat = "@@@LINK="@;
        assert(pat.len() == 8);
        assert(l.subrange(0, 8) == pat);
        assert(l.subrange(0, 8)[0] == l[0]);
        assert(l.subrange(0, 8)[7] == l[7]);
        assert(pat[0] == '@');
        assert(pat[7] == '=');
        crate::text::lemma_trim_spans(l, 0, 7);
        assert(false);
    }
    if crate::cleaner::spec_line_markup(l) {
        let pat = "<link rel=\"stylesheet\""@;
        crate::text::lemma_find_sub_is_match(l, pat);
        reveal_strlit("<link rel=\"stylesheet\"");
        assert(pat.len() == 22);
        let i = spec_find_sub(l, pat).unwrap();
        assert(crate::text::spec_match_at(l, pat, i));
        assert(l.subrange(i, i + 22) == pat);
        assert(l.subrange(i, i + 22)[0] == l[i]);
        assert(l.subrange(i, i + 22)[21] == l[i + 21]);
        assert(pat[0] == '<');
        assert(pat[21] == '"');
        crate::text::lemma_trim_spans(l, i, i + 21);
        assert(false);
    }
}

/// The cursor state of one pass over one input stream: whether the boundary
/// has been crossed, and how many valid entries have been seen. Reset per
/// invocation, never persisted.
pub struct BoundaryDetector {
    /// Whether the stream has crossed into the cross-reference region.
    pub confirmed: bool,
    /// The valid lexicon entries emitted so far.
    pub valid_entries_seen: usize,
}

impl BoundaryDetector {
    /// A detector at the start of a stream: scanning, nothing seen.
    pub fn new() -> (r: Self)
        ensures
            !r.confirmed,
            r.valid_entries_seen == 0,
    {
        BoundaryDetector { confirmed: false, valid_entries_seen: 0 }
    }

    /// Records one emitted entry. The sentinel identifier is the
    /// authoritative boundary: the record carrying it is still lexicon
    /// content, and the boundary is crossed right after it.
    pub fn note_entry(&mut self, source_id: &str)
        ensures
            final(self).valid_entries_seen == spec_inc_sat(old(self).valid_entries_seen),
            final(self).confirmed == (old(self).confirmed || source_id@ == spec_sentinel_id()),
    {
        self.valid_entries_seen = inc_sat(self.valid_entries_seen);
        if eq_str(source_id, "3011400") {
            self.confirmed = true;
        }
    }

    /// Offers a candidate line to the heuristic. The line is to be discarded
    /// exactly when it confirms the boundary: a short kanji-only line, after
    /// at least one valid entry. Before the first valid entry the heuristic
    /// never fires, and a crossed boundary is never uncrossed.
    pub fn offer_line(&mut self, line: &str) -> (discard: bool)
        ensures
            final(self).valid_entries_seen == old(self).valid_entries_seen,
            discard == (!old(self).confirmed && old(self).valid_entries_seen > 0
                && spec_is_boundary_line(line@)),
            final(self).confirmed == (old(self).confirmed || discard),
            old(self).valid_entries_seen == 0 ==> final(self).confirmed == old(self).confirmed,
            old(self).confirmed ==> final(self).confirmed,
    {
        if self.confirmed {
            return false;
        }
        if self.valid_entries_seen == 0 {
            return false;
        }
        if is_boundary_line(line) {
            self.confirmed = true;
            true
        } else {
            false
        }
    }
}

} // verus!
