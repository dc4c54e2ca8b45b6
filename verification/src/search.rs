//! The in-memory half of the smart script-form lookup: the storage
//! collaborator hands back the exact matches and the broad containment
//! matches, and this module decides which broad matches really count — a
//! multi-script entry matches when one of its dot-separated script forms
//! equals the query — and keeps the exact matches' precedence without
//! duplication.

use vstd::prelude::*;
use vstd::string::StrSliceExecFns;
use crate::entry::EntryModel;
use crate::entry::ObunshaDictEntry;
use crate::text::eq_str;
use crate::text::push_char;

verus! {

/// The dot-separated parts of a script form, in order; an empty form is one
/// empty part.
pub open spec fn spec_split_parts(s: Seq<char>, sep: char) -> Seq<Seq<char>>
    decreases s.len(),
{
    if s.len() == 0 {
        seq![Seq::<char>::empty()]
    } else {
        let rest = spec_split_parts(s.drop_last(), sep);
        if s.last() == sep {
            rest.push(Seq::empty())
        } else {
            rest.update(rest.len() - 1, rest.last().push(s.last()))
        }
    }
}

/// Whether some dot-separated part equals the query.
pub open spec fn spec_any_part_eq(s: Seq<char>, sep: char, q: Seq<char>) -> bool {
    exists|i: int|
        0 <= i < spec_split_parts(s, sep).len() && spec_split_parts(s, sep)[i] == q
}

/// Splits a string at a separator code point; parts keep their order, and
/// empty parts are kept.
pub fn split_parts(s: &str, sep: char) -> (r: Vec<String>)
    ensures
        r.deep_view() == spec_split_parts(s@, sep),
{
    let n = s.unicode_len();
    let mut parts: Vec<String> = Vec::new();
    let mut cur = String::new();
    let mut i: usize = 0;
    proof {
        assert(parts.deep_view().push(cur@) =~= spec_split_parts(s@.take(0), sep));
    }
    while i < n
        invariant
            i <= n,
            n == s@.len(),
            parts.deep_view().push(cur@) == spec_split_parts(s@.take(i as int), sep),
        decreases n - i,
    {
        let c = s.get_char(i);
        proof {
            let t = s@.take(i + 1);
            assert(t.drop_last() =~= s@.take(i as int));
            assert(t.last() == s@[i as int]);
        }
        if c == sep {
            let ghost before = parts.deep_view();
            parts.push(cur);
            cur = String::new();
            proof {
                assert(parts.deep_view() =~= before.push(
                    spec_split_parts(s@.take(i as int), sep).last(),
                ));
                assert(parts.deep_view().push(cur@) =~= spec_split_parts(s@.take(i + 1), sep));
            }
        } else {
            proof {
                let prev = spec_split_parts(s@.take(i as int), sep);
                let pdv = parts.deep_view();
                assert(prev == pdv.push(cur@));
                assert(prev.last() == cur@);
                assert(prev.update(prev.len() - 1, prev.last().push(s@[i as int])) =~= pdv.push(
                    cur@.push(s@[i as int]),
                ));
                assert(spec_split_parts(s@.take(i + 1), sep) == pdv.push(
                    cur@.push(s@[i as int]),
                ));
            }
            push_char(&mut cur, c);
        }
        i += 1;
    }
    proof {
        assert(s@.take(n as int) =~= s@);
    }
    parts.push(cur);
    parts
}

/// Whether some part of the dot-separated script form equals the query.
pub fn any_part_eq(s: &str, sep: char, q: &str) -> (r: bool)
    ensures
        r == spec_any_part_eq(s@, sep, q@),
{
    let parts = split_parts(s, sep);
    let mut i: usize = 0;
    while i < parts.len()
        invariant
            i <= parts@.len(),
            parts.deep_view() == spec_split_parts(s@, sep),
            forall|j: int| 0 <= j < i ==> spec_split_parts(s@, sep)[j] != q@,
        decreases parts@.len() - i,
    {
        if eq_str(parts[i].as_str(), q) {
            proof {
                assert(parts.deep_view()[i as int] == parts@[i as int]@);
                assert(spec_split_parts(s@, sep)[i as int] == q@);
            }
            return true;
        }
        proof {
            assert(parts.deep_view()[i as int] == parts@[i as int]@);
        }
        i += 1;
    }
    false
}

/// Whether one of the exact matches already carries this identifier.
pub open spec fn spec_id_among(exact: Seq<EntryModel>, id: Seq<char>) -> bool {
    exists|i: int| 0 <= i < exact.len() && exact[i].data_id == id
}

/// Whether a broad match earns a place behind the exact matches: its
/// identifier is new, and one of its dot-separated script forms equals the
/// query exactly.
pub open spec fn spec_smart_keep(exact: Seq<EntryModel>, e: EntryModel, q: Seq<char>) -> bool {
    &&& !spec_id_among(exact, e.data_id)
    &&& match e.kanji_writing {
        Some(w) => spec_any_part_eq(w, '\u{00b7}', q),
        None => false,
    }
}

/// The merged smart-lookup result: the exact matches first, then every
/// broad match that earns a place, in storage order.
pub open spec fn spec_merge_kanji(exact: Seq<EntryModel>, likes: Seq<EntryModel>, q: Seq<char>)
    -> Seq<EntryModel> {
    exact + likes.filter(|e: EntryModel| spec_smart_keep(exact, e, q))
}

/// Merges the two result lists of the smart script-form lookup. Exact
/// matches come first; a broad match follows only when its identifier is
/// not among theirs and a dot-separated part of its script form equals the
/// query.
pub fn merge_kanji_matches(exact: Vec<ObunshaDictEntry>, likes: Vec<ObunshaDictEntry>, kanji: &str)
    -> (r: Vec<ObunshaDictEntry>)
    ensures
        r.deep_view() == spec_merge_kanji(exact.deep_view(), likes.deep_view(), kanji@),
{
    let ghost exact0 = exact.deep_view();
    let ghost likes0 = likes.deep_view();
    let ghost pred = |e: EntryModel| spec_smart_keep(exact0, e, kanji@);
    let mut ids: Vec<String> = Vec::new();
    let mut i: usize = 0;
    while i < exact.len()
        invariant
            i <= exact@.len(),
            exact.deep_view() == exact0,
            ids.deep_view().len() == i,
            forall|j: int| 0 <= j < i ==> ids.deep_view()[j] == exact0[j].data_id,
        decreases exact@.len() - i,
    {
        let id = exact[i].data_id.clone();
        let ghost before = ids.deep_view();
        ids.push(id);
        proof {
            assert(ids.deep_view() =~= before.push(exact@[i as int].data_id@));
            assert(exact0[i as int] == exact@[i as int]@);
        }
        i += 1;
    }
    let mut out = exact;
    let mut rest = likes;
    let ghost n = likes0.len();
    let total = rest.len();
    proof {
        assert(n == total);
    }
    let mut k: usize = 0;
    proof {
        reveal(Seq::filter);
        assert(likes0.take(0).filter(pred) =~= Seq::<EntryModel>::empty());
        assert(out.deep_view() =~= exact0 + likes0.take(0).filter(pred));
        assert(rest.deep_view() =~= likes0.skip(0));
    }
    while rest.len() > 0
        invariant
            k <= n,
            n <= usize::MAX,
            n == likes0.len(),
            rest.deep_view() == likes0.skip(k as int),
            out.deep_view() == exact0 + likes0.take(k as int).filter(pred),
            ids.deep_view().len() == exact0.len(),
            forall|j: int| 0 <= j < exact0.len() ==> ids.deep_view()[j] == exact0[j].data_id,
            pred == (|e: EntryModel| spec_smart_keep(exact0, e, kanji@)),
        decreases rest@.len(),
    {
        let ghost restd0 = rest.deep_view();
        proof {
            assert(restd0.len() == rest@.len());
            assert(k < n);
        }
        let e = rest.remove(0);
        proof {
            assert(restd0[0] == likes0.skip(k as int)[0]);
            assert(likes0.skip(k as int)[0] == likes0[k as int]);
            assert(e.deep_view() == restd0[0]);
            assert(e@ == likes0[k as int]);
            assert forall|j: int| 0 <= j < rest.deep_view().len() implies rest.deep_view()[j]
                == likes0.skip(k + 1)[j] by {
                assert(rest.deep_view()[j] == rest@[j].deep_view());
                assert(rest@[j].deep_view() == restd0[j + 1]);
                assert(restd0[j + 1] == likes0.skip(k as int)[j + 1]);
                assert(likes0.skip(k as int)[j + 1] == likes0[k + 1 + j]);
                assert(likes0.skip(k + 1)[j] == likes0[k + 1 + j]);
            }
            assert(rest.deep_view() =~= likes0.skip(k + 1));
        }
        let id_known = contains_str(&ids, e.data_id.as_str());
        proof {
            if id_known {
                let w = choose|w: int|
                    0 <= w < ids.deep_view().len() && ids.deep_view()[w] == e@.data_id;
                assert(exact0[w].data_id == e@.data_id);
            }
            if spec_id_among(exact0, e@.data_id) {
                let w = choose|w: int| 0 <= w < exact0.len() && exact0[w].data_id == e@.data_id;
                assert(ids.deep_view()[w] == e@.data_id);
            }
            assert(id_known == spec_id_among(exact0, e@.data_id));
        }
        let keep = if id_known {
            false
        } else {
            match &e.kanji_writing {
                Some(w) => any_part_eq(w.as_str(), '\u{00b7}', kanji),
                None => false,
            }
        };
        proof {
            assert(keep == pred(e@));
            reveal(Seq::filter);
            let t = likes0.take(k + 1);
            assert(t.drop_last() =~= likes0.take(k as int));
            assert(t.last() == likes0[k as int]);
        }
        if keep {
            let ghost before = out.deep_view();
            out.push(e);
            proof {
                assert(out.deep_view() =~= before.push(likes0[k as int]));
                assert(out.deep_view() =~= exact0 + likes0.take(k + 1).filter(pred));
            }
        } else {
            proof {
                assert(out.deep_view() =~= exact0 + likes0.take(k + 1).filter(pred));
            }
        }
        k += 1;
    }
    proof {
        assert(likes0.skip(n as int).len() == 0);
        assert(k == n);
        assert(likes0.take(n as int) =~= likes0);
    }
    out
}

/// Whether the list holds this exact string.
fn contains_str(ids: &Vec<String>, id: &str) -> (r: bool)
    ensures
        r == exists|i: int| 0 <= i < ids.deep_view().len() && ids.deep_view()[i] == id@,
{
    let mut i: usize = 0;
    while i < ids.len()
        invariant
            i <= ids@.len(),
            forall|j: int| 0 <= j < i ==> ids.deep_view()[j] != id@,
        decreases ids@.len() - i,
    {
        if eq_str(ids[i].as_str(), id) {
            proof {
                assert(ids.deep_view()[i as int] == id@);
            }
            return true;
        }
        i += 1;
    }
    false
}

} // verus!
