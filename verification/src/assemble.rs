//! The record-by-record orchestration of one pass: each raw record is
//! classified, routed to the headline parser and field extractor, to the
//! redirect resolver, or past the boundary to the cross-reference counter.
//! The whole pass is modelled by one step function over the assembler
//! state, so the stream-level guarantees are theorems about folds of that
//! step.

use vstd::prelude::*;
use vstd::string::StrSliceExecFns;
use crate::boundary::BoundaryDetector;
use crate::boundary::inc_sat;
use crate::boundary::spec_inc_sat;
use crate::boundary::spec_is_boundary_line;
use crate::boundary::spec_sentinel_id;
use crate::cleaner::spec_line_blank;
use crate::cleaner::spec_line_markup;
use crate::entry::EntryModel;
use crate::entry::ObunshaDictEntry;
use crate::markup::parse_entry_from_html;
use crate::markup::spec_record_entry;
use crate::redirect::RedirectEntry;
use crate::redirect::RedirectModel;
use crate::redirect::resolve_redirect;
use crate::redirect::spec_is_redirect_line;
use crate::redirect::spec_resolve_redirect;
use crate::text::contains_sub;
use crate::text::starts_with;
use crate::text::trim_str;

verus! {

/// The model of the assembler state: the boundary cursor, the pending
/// title, everything emitted so far, and the four yield counters.
pub ghost struct AsmModel {
    pub confirmed: bool,
    pub pending_title: Option<Seq<char>>,
    pub entries: Seq<EntryModel>,
    pub redirects: Seq<RedirectModel>,
    pub valid_count: usize,
    pub redirect_count: usize,
    pub skipped_count: usize,
    pub crossref_count: usize,
}

/// The state at the start of a pass.
pub open spec fn spec_asm_init() -> AsmModel {
    AsmModel {
        confirmed: false,
        pending_title: None,
        entries: Seq::empty(),
        redirects: Seq::empty(),
        valid_count: 0,
        redirect_count: 0,
        skipped_count: 0,
        crossref_count: 0,
    }
}

/// One step of the pass. In order: a confirmed boundary routes the record
/// to the cross-reference counter; a blank line resets the pending title; a
/// redirect marker is resolved against the pending title; a markup block
/// paired with a pending title is assembled (the sentinel identifier then
/// confirms the boundary; a block without an identifier is a counted skip;
/// a block with no pending title is an incomplete pairing and passes); any
/// other line either confirms the boundary heuristically and is discarded
/// into the cross-reference region, or becomes the pending title.
pub open spec fn spec_step(m: AsmModel, l: Seq<char>) -> AsmModel {
    if m.confirmed {
        AsmModel { crossref_count: spec_inc_sat(m.crossref_count), ..m }
    } else if spec_line_blank(l) {
        AsmModel { pending_title: None, ..m }
    } else if spec_is_redirect_line(l) {
        AsmModel {
            redirects: m.redirects.push(spec_resolve_redirect(l, m.pending_title).unwrap()),
            redirect_count: spec_inc_sat(m.redirect_count),
            ..m
        }
    } else if spec_line_markup(l) {
        match m.pending_title {
            None => m,
            Some(title) => match spec_record_entry(title, l) {
                Some(e) => AsmModel {
                    pending_title: None,
                    entries: m.entries.push(e),
                    valid_count: spec_inc_sat(m.valid_count),
                    confirmed: e.data_id == spec_sentinel_id(),
                    ..m
                },
                None => AsmModel {
                    pending_title: None,
                    skipped_count: spec_inc_sat(m.skipped_count),
                    ..m
                },
            },
        }
    } else {
        if m.valid_count > 0 && spec_is_boundary_line(l) {
            AsmModel { confirmed: true, crossref_count: spec_inc_sat(m.crossref_count), ..m }
        } else {
            AsmModel { pending_title: Some(l), ..m }
        }
    }
}

/// The fold of the step function over a whole stream, in input order.
pub open spec fn spec_run(m: AsmModel, lines: Seq<Seq<char>>) -> AsmModel
    decreases lines.len(),
{
    if lines.len() == 0 {
        m
    } else {
        spec_step(spec_run(m, lines.drop_last()), lines.last())
    }
}

/// The boundary is crossed at most once per stream: a confirmed state stays
/// confirmed through every further record.
pub proof fn lemma_confirmed_monotonic(m: AsmModel, l: Seq<char>)
    ensures
        m.confirmed ==> spec_step(m, l).confirmed,
{
}

/// Entries and redirects are emitted in strict input order: a step only
/// ever appends, never reorders or retracts.
pub proof fn lemma_emission_order(m: AsmModel, l: Seq<char>)
    ensures
        spec_step(m, l).entries.len() >= m.entries.len(),
        forall|i: int|
            0 <= i < m.entries.len() ==> spec_step(m, l).entries[i] == m.entries[i],
        spec_step(m, l).redirects.len() >= m.redirects.len(),
        forall|i: int|
            0 <= i < m.redirects.len() ==> spec_step(m, l).redirects[i] == m.redirects[i],
{
}

/// Whether a line is an ordinary title line: not blank, no redirect marker,
/// no markup block, and not of the heuristic boundary's shape.
pub open spec fn spec_is_plain_title(l: Seq<char>) -> bool {
    &&& !spec_line_blank(l)
    &&& !spec_is_redirect_line(l)
    &&& !spec_line_markup(l)
    &&& !spec_is_boundary_line(l)
}

/// Whether a title line and a markup line form one valid lexicon record:
/// the pair assembles into an entry whose identifier is not the sentinel.
pub open spec fn spec_is_valid_pair(t: Seq<char>, h: Seq<char>) -> bool {
    &&& spec_is_plain_title(t)
    &&& !spec_line_blank(h)
    &&& !spec_is_redirect_line(h)
    &&& spec_line_markup(h)
    &&& spec_record_entry(t, h) is Some
    &&& spec_record_entry(t, h).unwrap().data_id != spec_sentinel_id()
}

/// The raw lines of a sequence of title-and-markup record pairs, in order.
pub open spec fn spec_pair_lines(pairs: Seq<(Seq<char>, Seq<char>)>) -> Seq<Seq<char>>
    decreases pairs.len(),
{
    if pairs.len() == 0 {
        Seq::empty()
    } else {
        spec_pair_lines(pairs.drop_last()) + seq![pairs.last().0, pairs.last().1]
    }
}

/// The entries that a sequence of valid record pairs assembles to, in
/// order.
pub open spec fn spec_pair_entries(pairs: Seq<(Seq<char>, Seq<char>)>) -> Seq<EntryModel>
    decreases pairs.len(),
{
    if pairs.len() == 0 {
        Seq::empty()
    } else {
        spec_pair_entries(pairs.drop_last()).push(
            spec_record_entry(pairs.last().0, pairs.last().1).unwrap(),
        )
    }
}

/// Running a pass over a concatenation is running it over each part in
/// turn.
pub proof fn lemma_run_concat(m: AsmModel, a: Seq<Seq<char>>, b: Seq<Seq<char>>)
    ensures
        spec_run(m, a + b) == spec_run(spec_run(m, a), b),
    decreases b.len(),
{
    if b.len() == 0 {
        assert(a + b =~= a);
    } else {
        lemma_run_concat(m, a, b.drop_last());
        assert((a + b).drop_last() =~= a + b.drop_last());
        assert((a + b).last() == b.last());
    }
}

proof fn lemma_run_one(m: AsmModel, l: Seq<char>)
    ensures
        spec_run(m, seq![l]) == spec_step(m, l),
{
    let s1 = seq![l];
    assert(s1.drop_last() =~= Seq::<Seq<char>>::empty());
    assert(spec_run(m, s1.drop_last()) == m);
    assert(s1.last() == l);
}

/// A pass over valid lexicon records, started while still scanning with no
/// pending title, stays scanning: every pair is assembled and emitted, no
/// title is left pending, and the boundary is never confirmed.
pub proof fn lemma_run_valid_pairs(m: AsmModel, pairs: Seq<(Seq<char>, Seq<char>)>)
    requires
        !m.confirmed,
        m.pending_title is None,
        forall|i: int| 0 <= i < pairs.len() ==> spec_is_valid_pair(
            #[trigger] pairs[i].0,
            pairs[i].1,
        ),
    ensures
        !spec_run(m, spec_pair_lines(pairs)).confirmed,
        spec_run(m, spec_pair_lines(pairs)).pending_title is None,
        spec_run(m, spec_pair_lines(pairs)).entries == m.entries + spec_pair_entries(pairs),
        spec_run(m, spec_pair_lines(pairs)).valid_count >= m.valid_count,
        pairs.len() > 0 ==> spec_run(m, spec_pair_lines(pairs)).valid_count > 0,
    decreases pairs.len(),
{
    if pairs.len() > 0 {
        let init = pairs.drop_last();
        let t = pairs.last().0;
        let h = pairs.last().1;
        assert(spec_is_valid_pair(pairs[pairs.len() - 1].0, pairs[pairs.len() - 1].1));
        lemma_run_valid_pairs(m, init);
        let m1 = spec_run(m, spec_pair_lines(init));
        lemma_run_concat(m, spec_pair_lines(init), seq![t, h]);
        assert(spec_pair_lines(pairs) == spec_pair_lines(init) + seq![t, h]);
        assert(seq![t, h].drop_last() =~= seq![t]);
        assert(seq![t, h].last() == h);
        lemma_run_one(m1, t);
        assert(spec_run(m1, seq![t, h]) == spec_step(spec_run(m1, seq![t, h].drop_last()),
        seq![t, h].last()));
        assert(spec_run(m1, seq![t, h]) == spec_step(spec_step(m1, t), h));
        let m2 = spec_step(m1, t);
        assert(m2.pending_title == Some(t));
        let m3 = spec_step(m2, h);
        assert(spec_run(m, spec_pair_lines(pairs)) == m3);
        assert(m3.entries == m1.entries.push(spec_record_entry(t, h).unwrap()));
        assert(m3.entries =~= m.entries + spec_pair_entries(pairs));
    } else {
        assert(spec_pair_lines(pairs) =~= Seq::<Seq<char>>::empty());
        assert(m.entries + spec_pair_entries(pairs) =~= m.entries);
    }
}

/// After a stream of valid lexicon records followed by a short kanji-only
/// line, the boundary stands confirmed and exactly the records before the
/// line were emitted as entries: the line itself never becomes an entry.
pub proof fn lemma_boundary_cut_after_stream(
    pairs: Seq<(Seq<char>, Seq<char>)>,
    kline: Seq<char>,
)
    requires
        pairs.len() >= 1,
        forall|i: int| 0 <= i < pairs.len() ==> spec_is_valid_pair(
            #[trigger] pairs[i].0,
            pairs[i].1,
        ),
        spec_is_boundary_line(kline),
    ensures
        spec_run(spec_asm_init(), spec_pair_lines(pairs).push(kline)).confirmed,
        spec_run(spec_asm_init(), spec_pair_lines(pairs).push(kline)).entries
            == spec_pair_entries(pairs),
        spec_run(spec_asm_init(), spec_pair_lines(pairs).push(kline)).entries.len()
            == pairs.len(),
{
    let m0 = spec_asm_init();
    lemma_run_valid_pairs(m0, pairs);
    let m1 = spec_run(m0, spec_pair_lines(pairs));
    assert(spec_pair_lines(pairs).push(kline) =~= spec_pair_lines(pairs) + seq![kline]);
    lemma_run_concat(m0, spec_pair_lines(pairs), seq![kline]);
    lemma_run_one(m1, kline);
    crate::boundary::lemma_boundary_line_shape(kline);
    let m2 = spec_step(m1, kline);
    assert(m2.confirmed);
    assert(m2.entries =~= spec_pair_entries(pairs));
    lemma_pair_entries_len(pairs);
}

proof fn lemma_pair_entries_len(pairs: Seq<(Seq<char>, Seq<char>)>)
    ensures
        spec_pair_entries(pairs).len() == pairs.len(),
    decreases pairs.len(),
{
    if pairs.len() > 0 {
        lemma_pair_entries_len(pairs.drop_last());
    }
}

/// The heuristic guard at stream start: while no entry has been emitted, a
/// short kanji-only line does not confirm the boundary and nothing is
/// emitted for it; it merely becomes the pending title.
pub proof fn lemma_no_confirm_before_first_entry(m: AsmModel, l: Seq<char>)
    requires
        !m.confirmed,
        m.valid_count == 0,
        spec_is_boundary_line(l),
    ensures
        !spec_step(m, l).confirmed,
        spec_step(m, l).entries == m.entries,
{
    crate::boundary::lemma_boundary_line_shape(l);
}

/// The assembler for one pass over one input stream.
pub struct EntryAssembler {
    /// The boundary cursor.
    pub boundary: BoundaryDetector,
    /// The title line waiting for its markup block.
    pub pending_title: Option<String>,
    /// The structured entries emitted so far, in input order.
    pub entries: Vec<ObunshaDictEntry>,
    /// The redirect mappings emitted so far, in input order.
    pub redirects: Vec<RedirectEntry>,
    /// Entries assembled and emitted.
    pub valid_count: usize,
    /// Redirect markers resolved.
    pub redirect_count: usize,
    /// Records dropped for want of a source identifier.
    pub skipped_count: usize,
    /// Records routed past the boundary.
    pub crossref_count: usize,
}

impl View for EntryAssembler {
    type V = AsmModel;

    open spec fn view(&self) -> AsmModel {
        AsmModel {
            confirmed: self.boundary.confirmed,
            pending_title: self.pending_title.deep_view(),
            entries: self.entries.deep_view(),
            redirects: self.redirects.deep_view(),
            valid_count: self.valid_count,
            redirect_count: self.redirect_count,
            skipped_count: self.skipped_count,
            crossref_count: self.crossref_count,
        }
    }
}

impl EntryAssembler {
    /// The counters the state keeps double as the lengths of what it has
    /// emitted, and the boundary cursor counts the same entries.
    pub open spec fn wf(&self) -> bool {
        &&& self.valid_count == self.entries@.len()
        &&& self.redirect_count == self.redirects@.len()
        &&& self.boundary.valid_entries_seen == self.valid_count
    }

    /// An assembler at the start of a pass.
    pub fn new() -> (r: Self)
        ensures
            r@ == spec_asm_init(),
            r.wf(),
    {
        let r = EntryAssembler {
            boundary: BoundaryDetector::new(),
            pending_title: None,
            entries: Vec::new(),
            redirects: Vec::new(),
            valid_count: 0,
            redirect_count: 0,
            skipped_count: 0,
            crossref_count: 0,
        };
        proof {
            assert(r.entries.deep_view() =~= Seq::<EntryModel>::empty());
            assert(r.redirects.deep_view() =~= Seq::<RedirectModel>::empty());
        }
        r
    }

    /// Consumes one record of the stream.
    pub fn process_record(&mut self, line: &str)
        requires
            old(self).wf(),
        ensures
            final(self).wf(),
            final(self)@ == spec_step(old(self)@, line@),
    {
        if self.boundary.confirmed {
            self.crossref_count = inc_sat(self.crossref_count);
            return;
        }
        let t = trim_str(line);
        if t.as_str().unicode_len() == 0 {
            self.pending_title = None;
            return;
        }
        if starts_with(line, "@@@LINK=") {
            let r = resolve_redirect(line, &self.pending_title);
            let ghost before = self.redirects.deep_view();
            match r {
                Some(e) => {
                    self.redirects.push(e);
                    proof {
                        assert(self.redirects.deep_view() =~= before.push(e@));
                    }
                },
                None => {
                    proof {
                        assert(false);
                    }
                },
            }
            self.redirect_count = self.redirects.len();
            return;
        }
        if contains_sub(line, "<link rel=\"stylesheet\"") {
            let title = match &self.pending_title {
                Some(t2) => Some(t2.clone()),
                None => None,
            };
            match title {
                Some(t2) => {
                    match parse_entry_from_html(t2.as_str(), line) {
                        Some(e) => {
                            let ghost before = self.entries.deep_view();
                            self.boundary.note_entry(e.data_id.as_str());
                            self.entries.push(e);
                            proof {
                                assert(self.entries.deep_view() =~= before.push(e@));
                            }
                            self.valid_count = self.entries.len();
                            self.pending_title = None;
                        },
                        None => {
                            self.skipped_count = inc_sat(self.skipped_count);
                            self.pending_title = None;
                        },
                    }
                },
                None => {},
            }
            return;
        }
        let discard = self.boundary.offer_line(line);
        if discard {
            self.crossref_count = inc_sat(self.crossref_count);
        } else {
            self.pending_title = Some(line.to_owned());
        }
    }

    /// Consumes a whole stream of records, in order.
    pub fn process_records(&mut self, lines: &Vec<String>)
        requires
            old(self).wf(),
        ensures
            final(self).wf(),
            final(self)@ == spec_run(old(self)@, lines.deep_view()),
    {
        let mut i: usize = 0;
        while i < lines.len()
            invariant
                i <= lines@.len(),
                self.wf(),
                self@ == spec_run(old(self)@, lines.deep_view().take(i as int)),
            decreases lines@.len() - i,
        {
            proof {
                let cur = lines.deep_view().take(i + 1);
                assert(cur.drop_last() =~= lines.deep_view().take(i as int));
                assert(cur.last() == lines@[i as int]@);
            }
            self.process_record(lines[i].as_str());
            i += 1;
        }
        proof {
            assert(lines.deep_view().take(lines.deep_view().len() as int) =~= lines.deep_view());
        }
    }
}

} // verus!
