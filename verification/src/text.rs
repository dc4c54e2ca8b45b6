//! Text primitives over code-point sequences: trimming, code-point and
//! substring search, substring extraction and joining. Everything here works
//! on `Seq<char>` models of `&str` / `String`.

use vstd::prelude::*;
use vstd::string::StrSliceExecFns;
use vstd::string::StringExecFns;
use crate::classify::is_ws;
use crate::classify::spec_is_ws;

verus! {

/// Relies on String::push: appends the given char to the end of the string.
#[verifier::external_body]
pub fn push_char(s: &mut String, c: char)
    ensures
        final(s)@ == old(s)@.push(c),
{
    s.push(c);
}

/// The sequence without its leading white space.
pub open spec fn spec_trim_start(s: Seq<char>) -> Seq<char>
    decreases s.len(),
{
    if s.len() == 0 {
        s
    } else if spec_is_ws(s[0]) {
        spec_trim_start(s.drop_first())
    } else {
        s
    }
}

/// The sequence without its trailing white space.
pub open spec fn spec_trim_end(s: Seq<char>) -> Seq<char>
    decreases s.len(),
{
    if s.len() == 0 {
        s
    } else if spec_is_ws(s.last()) {
        spec_trim_end(s.drop_last())
    } else {
        s
    }
}

/// The sequence without leading and trailing white space.
pub open spec fn spec_trim(s: Seq<char>) -> Seq<char> {
    spec_trim_end(spec_trim_start(s))
}

proof fn lemma_trim_start_at(s: Seq<char>, a: int)
    requires
        0 <= a <= s.len(),
        forall|j: int| 0 <= j < a ==> spec_is_ws(s[j]),
        a < s.len() ==> !spec_is_ws(s[a]),
    ensures
        spec_trim_start(s) == s.subrange(a, s.len() as int),
    decreases a,
{
    if a == 0 {
        if s.len() == 0 {
            assert(s.subrange(0, 0) =~= s);
        } else {
            assert(s.subrange(0, s.len() as int) =~= s);
        }
    } else {
        let t = s.drop_first();
        assert(spec_is_ws(s[0]));
        lemma_trim_start_at(t, a - 1);
        assert(t.subrange(a - 1, t.len() as int) =~= s.subrange(a, s.len() as int));
    }
}

proof fn lemma_trim_end_at(s: Seq<char>, b: int)
    requires
        0 <= b <= s.len(),
        forall|j: int| b <= j < s.len() ==> spec_is_ws(s[j]),
        b > 0 ==> !spec_is_ws(s[b - 1]),
    ensures
        spec_trim_end(s) == s.subrange(0, b),
    decreases s.len() - b,
{
    if b == s.len() {
        assert(s.subrange(0, s.len() as int) =~= s);
    } else {
        let t = s.drop_last();
        assert(spec_is_ws(s.last()));
        lemma_trim_end_at(t, b);
        assert(t.subrange(0, b) =~= s.subrange(0, b));
    }
}

/// Trims leading and trailing white space, by code point.
pub fn trim_str(s: &str) -> (r: String)
    ensures
        r@ == spec_trim(s@),
{
    let n = s.unicode_len();
    let mut a: usize = 0;
    while a < n && is_ws(s.get_char(a))
        invariant
            a <= n,
            n == s@.len(),
            forall|j: int| 0 <= j < a ==> spec_is_ws(s@[j]),
        decreases n - a,
    {
        a += 1;
    }
    if a == n {
        proof {
            lemma_trim_start_at(s@, a as int);
            assert(spec_trim_start(s@) =~= Seq::<char>::empty());
        }
        return String::new();
    }
    let mut b: usize = n;
    while b > a && is_ws(s.get_char(b - 1))
        invariant
            a <= b <= n,
            n == s@.len(),
            forall|j: int| b <= j < n ==> spec_is_ws(s@[j]),
        decreases b,
    {
        b -= 1;
    }
    proof {
        lemma_trim_start_at(s@, a as int);
        let t = s@.subrange(a as int, n as int);
        if b == a {
            assert(spec_is_ws(s@[a as int]));
            assert(false);
        }
        assert(!spec_is_ws(s@[b - 1]));
        lemma_trim_end_at(t, b - a);
        assert(t.subrange(0, b - a) =~= s@.subrange(a as int, b as int));
    }
    let part = s.substring_char(a, b);
    part.to_owned()
}

proof fn lemma_trim_start_suffix(s: Seq<char>)
    ensures
        spec_trim_start(s).len() <= s.len(),
        spec_trim_start(s) == s.subrange(
            s.len() - spec_trim_start(s).len(),
            s.len() as int,
        ),
    decreases s.len(),
{
    if s.len() == 0 {
        assert(s.subrange(0, 0) =~= s);
    } else if spec_is_ws(s[0]) {
        lemma_trim_start_suffix(s.drop_first());
        let t = s.drop_first();
        assert(t.subrange(t.len() - spec_trim_start(t).len(), t.len() as int) =~= s.subrange(
            s.len() - spec_trim_start(s).len(),
            s.len() as int,
        ));
    } else {
        assert(s.subrange(0, s.len() as int) =~= s);
    }
}

proof fn lemma_trim_start_long(s: Seq<char>, i: int)
    requires
        0 <= i < s.len(),
        !spec_is_ws(s[i]),
    ensures
        spec_trim_start(s).len() >= s.len() - i,
    decreases s.len(),
{
    if s.len() > 0 && spec_is_ws(s[0]) {
        lemma_trim_start_long(s.drop_first(), i - 1);
    }
}

proof fn lemma_trim_end_long(s: Seq<char>, j: int)
    requires
        0 <= j < s.len(),
        !spec_is_ws(s[j]),
    ensures
        spec_trim_end(s).len() >= j + 1,
    decreases s.len(),
{
    if s.len() > 0 && spec_is_ws(s.last()) {
        lemma_trim_end_long(s.drop_last(), j);
    }
}

/// Trimming only strips the white-space margins: whatever lies between two
/// non-white-space code points survives, so the trimmed line is at least
/// that long.
pub proof fn lemma_trim_spans(s: Seq<char>, i: int, j: int)
    requires
        0 <= i <= j < s.len(),
        !spec_is_ws(s[i]),
        !spec_is_ws(s[j]),
    ensures
        spec_trim(s).len() >= j - i + 1,
{
    lemma_trim_start_suffix(s);
    let u = spec_trim_start(s);
    let a = s.len() - u.len();
    lemma_trim_start_long(s, i);
    assert(a <= i);
    assert(u[j - a] == s[j]);
    lemma_trim_end_long(u, j - a);
}

/// The index of the first occurrence of a code point, if any.
pub open spec fn spec_find_char(s: Seq<char>, c: char) -> Option<int>
    decreases s.len(),
{
    if s.len() == 0 {
        None
    } else if s[0] == c {
        Some(0)
    } else {
        match spec_find_char(s.drop_first(), c) {
            Some(i) => Some(i + 1),
            None => None,
        }
    }
}

proof fn lemma_find_char_none(s: Seq<char>, c: char)
    requires
        forall|j: int| 0 <= j < s.len() ==> s[j] != c,
    ensures
        spec_find_char(s, c) is None,
    decreases s.len(),
{
    if s.len() > 0 {
        lemma_find_char_none(s.drop_first(), c);
    }
}

proof fn lemma_find_char_some(s: Seq<char>, c: char, i: int)
    requires
        0 <= i < s.len(),
        s[i] == c,
        forall|j: int| 0 <= j < i ==> s[j] != c,
    ensures
        spec_find_char(s, c) == Some(i),
    decreases i,
{
    if i > 0 {
        lemma_find_char_some(s.drop_first(), c, i - 1);
    }
}

/// Finds the first occurrence of a code point.
pub fn find_char(s: &str, c: char) -> (r: Option<usize>)
    ensures
        match r {
            Some(i) => i < s@.len() && s@[i as int] == c && spec_find_char(s@, c) == Some(
                i as int,
            ),
            None => spec_find_char(s@, c) is None,
        },
{
    let n = s.unicode_len();
    let mut i: usize = 0;
    while i < n
        invariant
            i <= n,
            n == s@.len(),
            forall|j: int| 0 <= j < i ==> s@[j] != c,
        decreases n - i,
    {
        if s.get_char(i) == c {
            proof {
                lemma_find_char_some(s@, c, i as int);
            }
            return Some(i);
        }
        i += 1;
    }
    proof {
        lemma_find_char_none(s@, c);
    }
    None
}

/// The index of the first occurrence of a code point at or after `from`.
pub open spec fn spec_find_char_from(s: Seq<char>, c: char, from: int) -> Option<int> {
    match spec_find_char(s.skip(from), c) {
        Some(i) => Some(from + i),
        None => None,
    }
}

/// Finds the first occurrence of a code point at or after `from`.
pub fn find_char_from(s: &str, c: char, from: usize) -> (r: Option<usize>)
    requires
        from <= s@.len(),
    ensures
        match r {
            Some(i) => from <= i < s@.len() && s@[i as int] == c && spec_find_char_from(
                s@,
                c,
                from as int,
            ) == Some(i as int),
            None => spec_find_char_from(s@, c, from as int) is None,
        },
{
    let n = s.unicode_len();
    let mut i: usize = from;
    while i < n
        invariant
            from <= i <= n,
            n == s@.len(),
            forall|j: int| from <= j < i ==> s@[j] != c,
        decreases n - i,
    {
        if s.get_char(i) == c {
            proof {
                assert forall|j: int| 0 <= j < i - from implies s@.skip(from as int)[j] != c by {
                    assert(s@.skip(from as int)[j] == s@[j + from]);
                }
                lemma_find_char_some(s@.skip(from as int), c, i - from);
            }
            return Some(i);
        }
        i += 1;
    }
    proof {
        assert forall|j: int| 0 <= j < s@.skip(from as int).len() implies s@.skip(from as int)[j]
            != c by {
            assert(s@.skip(from as int)[j] == s@[j + from]);
        }
        lemma_find_char_none(s@.skip(from as int), c);
    }
    None
}

/// Whether `pat` occurs in `s` starting at code-point index `i`.
pub open spec fn spec_match_at(s: Seq<char>, pat: Seq<char>, i: int) -> bool {
    0 <= i && i + pat.len() <= s.len() && s.subrange(i, i + pat.len() as int) == pat
}

/// The index of the leftmost occurrence of `pat` in `s`, if any.
pub open spec fn spec_find_sub(s: Seq<char>, pat: Seq<char>) -> Option<int>
    decreases s.len(),
{
    if pat.len() == 0 {
        Some(0)
    } else if s.len() < pat.len() {
        None
    } else if s.subrange(0, pat.len() as int) == pat {
        Some(0)
    } else {
        match spec_find_sub(s.drop_first(), pat) {
            Some(i) => Some(i + 1),
            None => None,
        }
    }
}

proof fn lemma_match_at_shift(s: Seq<char>, pat: Seq<char>, i: int)
    requires
        s.len() > 0,
        1 <= i,
    ensures
        spec_match_at(s, pat, i) == spec_match_at(s.drop_first(), pat, i - 1),
{
    if 0 <= i - 1 && i + pat.len() <= s.len() {
        assert(s.subrange(i, i + pat.len() as int) =~= s.drop_first().subrange(
            i - 1,
            i - 1 + pat.len() as int,
        ));
    }
}

proof fn lemma_find_sub_none(s: Seq<char>, pat: Seq<char>)
    requires
        forall|i: int| !spec_match_at(s, pat, i),
    ensures
        spec_find_sub(s, pat) is None,
    decreases s.len(),
{
    if pat.len() == 0 {
        assert(!spec_match_at(s, pat, 0));
        assert(s.subrange(0, 0) =~= pat);
        assert(false);
    } else if s.len() >= pat.len() {
        assert(!spec_match_at(s, pat, 0));
        assert forall|i: int| !spec_match_at(s.drop_first(), pat, i) by {
            if 0 <= i {
                lemma_match_at_shift(s, pat, i + 1);
            }
        }
        lemma_find_sub_none(s.drop_first(), pat);
    }
}

proof fn lemma_find_sub_some(s: Seq<char>, pat: Seq<char>, i: int)
    requires
        spec_match_at(s, pat, i),
        forall|j: int| 0 <= j < i ==> !spec_match_at(s, pat, j),
    ensures
        spec_find_sub(s, pat) == Some(i),
    decreases i,
{
    if i == 0 {
        assert(s.subrange(0, pat.len() as int) == pat);
    } else {
        assert(!spec_match_at(s, pat, 0));
        if pat.len() == 0 {
            assert(s.subrange(0, 0) =~= pat);
            assert(false);
        }
        assert(s.subrange(0, pat.len() as int) != pat);
        lemma_match_at_shift(s, pat, i);
        assert forall|j: int| 0 <= j < i - 1 implies !spec_match_at(s.drop_first(), pat, j) by {
            lemma_match_at_shift(s, pat, j + 1);
        }
        lemma_find_sub_some(s.drop_first(), pat, i - 1);
    }
}

/// A found occurrence really is one: wherever the search succeeds, the
/// pattern stands at the reported index.
pub proof fn lemma_find_sub_is_match(s: Seq<char>, pat: Seq<char>)
    ensures
        spec_find_sub(s, pat) matches Some(i) ==> spec_match_at(s, pat, i),
    decreases s.len(),
{
    if pat.len() == 0 {
        assert(s.subrange(0, 0) =~= pat);
    } else if s.len() >= pat.len() {
        if s.subrange(0, pat.len() as int) == pat {
        } else {
            lemma_find_sub_is_match(s.drop_first(), pat);
            match spec_find_sub(s.drop_first(), pat) {
                Some(i) => {
                    lemma_match_at_shift(s, pat, i + 1);
                },
                None => {},
            }
        }
    }
}

/// Whether `pat` occurs in `s` at code-point index `i`.
pub fn match_at(s: &str, pat: &str, i: usize) -> (r: bool)
    ensures
        r == spec_match_at(s@, pat@, i as int),
{
    let n = s.unicode_len();
    let m = pat.unicode_len();
    if i > n || m > n - i {
        return false;
    }
    let mut k: usize = 0;
    while k < m
        invariant
            k <= m,
            i + m <= n,
            n == s@.len(),
            m == pat@.len(),
            forall|j: int| 0 <= j < k ==> s@[i + j] == pat@[j],
        decreases m - k,
    {
        if s.get_char(i + k) != pat.get_char(k) {
            assert(s@.subrange(i as int, i + m) != pat@) by {
                assert(s@.subrange(i as int, i + m)[k as int] == s@[i + k]);
            }
            return false;
        }
        k += 1;
    }
    proof {
        assert(s@.subrange(i as int, i + m) =~= pat@);
    }
    true
}

/// Finds the leftmost occurrence of `pat` in `s`.
pub fn find_sub(s: &str, pat: &str) -> (r: Option<usize>)
    ensures
        match r {
            Some(i) => spec_match_at(s@, pat@, i as int) && spec_find_sub(s@, pat@) == Some(
                i as int,
            ),
            None => spec_find_sub(s@, pat@) is None,
        },
{
    let n = s.unicode_len();
    let m = pat.unicode_len();
    if m > n {
        proof {
            lemma_find_sub_none(s@, pat@);
        }
        return None;
    }
    if m == 0 {
        proof {
            assert(s@.subrange(0, 0) =~= pat@);
            lemma_find_sub_some(s@, pat@, 0);
        }
        return Some(0);
    }
    let mut i: usize = 0;
    while i <= n - m
        invariant
            i <= n - m + 1,
            1 <= m <= n,
            n == s@.len(),
            m == pat@.len(),
            forall|j: int| 0 <= j < i ==> !spec_match_at(s@, pat@, j),
        decreases n - i,
    {
        if match_at(s, pat, i) {
            proof {
                lemma_find_sub_some(s@, pat@, i as int);
            }
            return Some(i);
        }
        i += 1;
    }
    proof {
        assert forall|j: int| !spec_match_at(s@, pat@, j) by {
            if 0 <= j < i {
            } else if j >= i {
                assert(j + pat@.len() > s@.len());
            }
        }
        lemma_find_sub_none(s@, pat@);
    }
    None
}

/// Whether `pat` occurs anywhere in `s`.
pub fn contains_sub(s: &str, pat: &str) -> (r: bool)
    ensures
        r == (spec_find_sub(s@, pat@) is Some),
{
    match find_sub(s, pat) {
        Some(_) => true,
        None => false,
    }
}

/// Whether `s` begins with `pat`.
pub open spec fn spec_starts_with(s: Seq<char>, pat: Seq<char>) -> bool {
    spec_match_at(s, pat, 0)
}

/// Whether `s` begins with `pat`.
pub fn starts_with(s: &str, pat: &str) -> (r: bool)
    ensures
        r == spec_starts_with(s@, pat@),
{
    match_at(s, pat, 0)
}

/// The code points of `s` from `a` (inclusive) to `b` (exclusive), owned.
pub fn substr(s: &str, a: usize, b: usize) -> (r: String)
    requires
        a <= b <= s@.len(),
    ensures
        r@ == s@.subrange(a as int, b as int),
{
    let part = s.substring_char(a, b);
    part.to_owned()
}

/// Whether the two strings hold the same code points.
pub fn eq_str(a: &str, b: &str) -> (r: bool)
    ensures
        r == (a@ == b@),
{
    let n = a.unicode_len();
    if n != b.unicode_len() {
        return false;
    }
    let r = match_at(a, b, 0);
    proof {
        if r {
            assert(a@.subrange(0, a@.len() as int) =~= a@);
        } else {
            assert(a@.subrange(0, b@.len() as int) =~= a@);
        }
    }
    r
}

/// The parts joined with the separator between consecutive parts.
pub open spec fn spec_join(parts: Seq<Seq<char>>, sep: Seq<char>) -> Seq<char>
    decreases parts.len(),
{
    if parts.len() == 0 {
        Seq::empty()
    } else if parts.len() == 1 {
        parts[0]
    } else {
        parts[0] + sep + spec_join(parts.drop_first(), sep)
    }
}

proof fn lemma_join_push(parts: Seq<Seq<char>>, sep: Seq<char>, p: Seq<char>)
    ensures
        spec_join(parts.push(p), sep) == if parts.len() == 0 {
            p
        } else {
            spec_join(parts, sep) + sep + p
        },
    decreases parts.len(),
{
    if parts.len() == 0 {
        assert(parts.push(p)[0] == p);
    } else if parts.len() == 1 {
        assert(parts.push(p).drop_first() =~= seq![p]);
        assert(seq![p][0] == p);
        assert(spec_join(seq![p], sep) == p);
        assert(parts.push(p)[0] == parts[0]);
        assert(spec_join(parts.push(p), sep) == parts[0] + sep + p);
    } else {
        lemma_join_push(parts.drop_first(), sep, p);
        assert(parts.push(p).drop_first() =~= parts.drop_first().push(p));
        assert(spec_join(parts, sep) + sep + p =~= parts[0] + sep + (spec_join(
            parts.drop_first(),
            sep,
        ) + sep + p));
    }
}

/// Joins the parts with the separator.
pub fn join_with(parts: &Vec<String>, sep: &str) -> (r: String)
    ensures
        r@ == spec_join(parts.deep_view(), sep@),
{
    let mut out = String::new();
    let mut i: usize = 0;
    while i < parts.len()
        invariant
            i <= parts@.len(),
            out@ == spec_join(parts.deep_view().take(i as int), sep@),
        decreases parts@.len() - i,
    {
        if i > 0 {
            out.append(sep);
        }
        out.append(parts[i].as_str());
        proof {
            lemma_join_push(parts.deep_view().take(i as int), sep@, parts@[i as int]@);
            assert(parts.deep_view().take(i + 1) =~= parts.deep_view().take(i as int).push(
                parts@[i as int]@,
            ));
        }
        i += 1;
    }
    proof {
        assert(parts.deep_view().take(parts.deep_view().len() as int) =~= parts.deep_view());
    }
    out
}

} // verus!
