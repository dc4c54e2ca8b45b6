//! Context-sensitive text sanitization: a fragment is filtered through the
//! code-point classifier, keeping only the classes allowed in the context.
//! Dropped code points leave no gap behind; nothing is ever inserted.

use vstd::prelude::*;
use vstd::string::StrSliceExecFns;
use crate::classify::CharClass;
use crate::classify::classify;
use crate::classify::spec_classify;
use crate::classify::spec_is_ws;
use crate::text::push_char;
use crate::text::spec_trim;

verus! {

/// The two sanitization contexts: a phonetic reading keeps kana and ASCII
/// alphanumerics; a script form additionally keeps kanji.
#[derive(Clone, Copy, PartialEq, Eq, Structural, Debug)]
pub enum SanitizeContext {
    Reading,
    Script,
}

/// Whether a code point survives sanitization in the given context.
/// Decorative glyphs and unclassified code points are always dropped.
pub open spec fn spec_keeps(ctx: SanitizeContext, c: char) -> bool {
    match spec_classify(c) {
        CharClass::Kana => true,
        CharClass::AsciiAlnum => true,
        CharClass::Kanji => ctx is Script,
        CharClass::DecorativeGlyph => false,
        CharClass::Other => false,
    }
}

/// The sanitized fragment: the kept code points of `s`, in order, directly
/// concatenated.
pub open spec fn spec_sanitize(s: Seq<char>, ctx: SanitizeContext) -> Seq<char> {
    s.filter(|c: char| spec_keeps(ctx, c))
}

/// Sanitizes a fragment in the given context.
pub fn sanitize(s: &str, ctx: SanitizeContext) -> (r: String)
    ensures
        r@ == spec_sanitize(s@, ctx),
{
    let ghost pred = |c: char| spec_keeps(ctx, c);
    let n = s.unicode_len();
    let mut out = String::new();
    let mut i: usize = 0;
    while i < n
        invariant
            i <= n,
            n == s@.len(),
            out@ == s@.take(i as int).filter(pred),
            pred == (|c: char| spec_keeps(ctx, c)),
        decreases n - i,
    {
        let c = s.get_char(i);
        let keep = match classify(c) {
            CharClass::Kana => true,
            CharClass::AsciiAlnum => true,
            CharClass::Kanji => match ctx {
                SanitizeContext::Script => true,
                SanitizeContext::Reading => false,
            },
            CharClass::DecorativeGlyph => false,
            CharClass::Other => false,
        };
        proof {
            reveal(Seq::filter);
            let cur = s@.take(i + 1);
            assert(cur.drop_last() =~= s@.take(i as int));
            assert(cur.last() == s@[i as int]);
            assert(keep == pred(s@[i as int]));
            assert(cur.filter(pred) == if pred(s@[i as int]) {
                s@.take(i as int).filter(pred).push(s@[i as int])
            } else {
                s@.take(i as int).filter(pred)
            });
        }
        if keep {
            push_char(&mut out, c);
        }
        i += 1;
    }
    proof {
        assert(s@.take(n as int) =~= s@);
        assert(out@ == spec_sanitize(s@, ctx));
    }
    out
}

proof fn lemma_filter_all_kept(s: Seq<char>, pred: spec_fn(char) -> bool)
    requires
        forall|i: int| 0 <= i < s.len() ==> pred(s[i]),
    ensures
        s.filter(pred) == s,
    decreases s.len(),
{
    reveal(Seq::filter);
    if s.len() == 0 {
        assert(s.filter(pred) =~= s);
    } else {
        lemma_filter_all_kept(s.drop_last(), pred);
        assert(pred(s.last()));
        assert(s.drop_last().push(s.last()) =~= s);
    }
}

proof fn lemma_filter_subset(s: Seq<char>, pred: spec_fn(char) -> bool)
    ensures
        forall|c: char| #[trigger] s.filter(pred).contains(c) ==> s.contains(c),
    decreases s.len(),
{
    reveal(Seq::filter);
    if s.len() > 0 {
        lemma_filter_subset(s.drop_last(), pred);
        assert forall|c: char| s.filter(pred).contains(c) implies s.contains(c) by {
            let sub = s.drop_last();
            if sub.filter(pred).contains(c) {
                let j = choose|j: int|
                    0 <= j < sub.len() && sub.filter(pred).contains(c) && sub[j] == c;
                assert(sub.contains(c));
                let k = choose|k: int| 0 <= k < sub.len() && sub[k] == c;
                assert(s[k] == c);
            } else {
                assert(pred(s.last()) && c == s.last());
                assert(s[s.len() - 1] == c);
            }
        }
    }
}

/// Sanitization is idempotent, and it never introduces a code point that was
/// not present in the input.
pub proof fn lemma_sanitize_idempotent(s: Seq<char>, ctx: SanitizeContext)
    ensures
        spec_sanitize(spec_sanitize(s, ctx), ctx) == spec_sanitize(s, ctx),
        forall|c: char| #[trigger] spec_sanitize(s, ctx).contains(c) ==> s.contains(c),
{
    let pred = |c: char| spec_keeps(ctx, c);
    broadcast use vstd::seq_lib::group_filter_ensures;

    lemma_filter_all_kept(s.filter(pred), pred);
    lemma_filter_subset(s, pred);
}

/// A sanitized fragment carries no white space at all, so it is its own
/// trimmed form: trimming after filtering changes nothing.
pub proof fn lemma_sanitize_trimmed(s: Seq<char>, ctx: SanitizeContext)
    ensures
        spec_trim(spec_sanitize(s, ctx)) == spec_sanitize(s, ctx),
{
    let pred = |c: char| spec_keeps(ctx, c);
    let f = s.filter(pred);
    broadcast use vstd::seq_lib::group_filter_ensures;

    assert forall|i: int| 0 <= i < f.len() implies !spec_is_ws(f[i]) by {
        assert(pred(f[i]));
    }
    if f.len() > 0 {
        assert(!spec_is_ws(f[0]));
        assert(!spec_is_ws(f.last()));
    }
}

} // verus!
