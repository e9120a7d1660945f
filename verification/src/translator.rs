//! The translator: joins deinflection candidates against the headwords the
//! store returned, picks the best derivation for each match, and groups and
//! ranks the results.

use vstd::multiset::Multiset;
use vstd::prelude::*;

use crate::db::term_views;
use crate::deinflect::{views, Deinflection, DeinflectionV};
use crate::terms_bank::{Term, TermV};
use crate::text::str_eq;

verus! {

broadcast use vstd::seq::Seq::lemma_push_map_commute;

/// One translator result row: the matched headword, the reasons of the
/// chosen derivation, the character count of the matched input, and whether
/// the join went through the expression rather than the reading.
pub struct DictEntry {
    pub term: Term,
    pub reasons: Vec<String>,
    pub source_len: usize,
    pub primary_match: bool,
}

/// The mathematical value of a [`DictEntry`].
#[verifier::ext_equal]
pub ghost struct DictEntryV {
    pub term: TermV,
    pub reasons: Seq<Seq<char>>,
    pub source_len: nat,
    pub primary_match: bool,
}

impl View for DictEntry {
    type V = DictEntryV;

    open spec fn view(&self) -> DictEntryV {
        DictEntryV {
            term: self.term@,
            reasons: self.reasons@.map_values(|s: String| s@),
            source_len: self.source_len as nat,
            primary_match: self.primary_match,
        }
    }
}

/// A result group: all entries share this expression and reading.
pub struct DictEntries {
    pub expression: String,
    pub reading: String,
    pub entries: Vec<DictEntry>,
}

/// The mathematical value of a [`DictEntries`].
#[verifier::ext_equal]
pub ghost struct DictEntriesV {
    pub expression: Seq<char>,
    pub reading: Seq<char>,
    pub entries: Seq<DictEntryV>,
}

impl View for DictEntries {
    type V = DictEntriesV;

    open spec fn view(&self) -> DictEntriesV {
        DictEntriesV {
            expression: self.expression@,
            reading: self.reading@,
            entries: self.entries@.map_values(|e: DictEntry| e@),
        }
    }
}

/// The values of a list of entries.
pub open spec fn entry_views(s: Seq<DictEntry>) -> Seq<DictEntryV> {
    s.map_values(|e: DictEntry| e@)
}

/// The values of a list of groups.
pub open spec fn group_views(s: Seq<DictEntries>) -> Seq<DictEntriesV> {
    s.map_values(|g: DictEntries| g@)
}

/// Whether a derivation's rule constraint admits a headword with the given
/// rule set: an unconstrained derivation admits any headword, a constrained
/// one must share a class.
pub open spec fn spec_compatible(d: DeinflectionV, rules: u8) -> bool {
    d.rules == 0 || d.rules & rules != 0
}

/// The derivations whose candidate term is the given key, in order.
pub open spec fn derivs_for(ds: Seq<DeinflectionV>, key: Seq<char>) -> Seq<DeinflectionV>
    decreases ds.len(),
{
    if ds.len() == 0 {
        Seq::empty()
    } else {
        derivs_for(ds.drop_last(), key) + (if ds.last().term == key {
            seq![ds.last()]
        } else {
            Seq::empty()
        })
    }
}

/// The derivation the translator pairs with a headword: among the
/// compatible derivations, the one with the most reasons, and of those the
/// one listed first — the most-deinflected compatible derivation.
pub open spec fn best_derivation(ds: Seq<DeinflectionV>, rules: u8) -> Option<DeinflectionV>
    decreases ds.len(),
{
    if ds.len() == 0 {
        None
    } else {
        let b = best_derivation(ds.drop_last(), rules);
        if spec_compatible(ds.last(), rules) && (b is None || b->0.reasons.len()
            < ds.last().reasons.len()) {
            Some(ds.last())
        } else {
            b
        }
    }
}

/// The result row a headword produces, if any: the headword is paired with
/// the derivations of its expression where any exist, else with those of its
/// reading, and the best compatible derivation of that list decides the row.
/// A headword whose derivation list has no compatible derivation is dropped.
pub open spec fn entry_for(ds: Seq<DeinflectionV>, t: TermV) -> Option<DictEntryV> {
    let primary = derivs_for(ds, t.expression);
    let secondary = derivs_for(ds, t.reading);
    if primary.len() > 0 {
        match best_derivation(primary, t.rules) {
            Some(d) => Some(
                DictEntryV {
                    term: t,
                    reasons: d.reasons,
                    source_len: d.source.len(),
                    primary_match: true,
                },
            ),
            None => None,
        }
    } else if secondary.len() > 0 {
        match best_derivation(secondary, t.rules) {
            Some(d) => Some(
                DictEntryV {
                    term: t,
                    reasons: d.reasons,
                    source_len: d.source.len(),
                    primary_match: false,
                },
            ),
            None => None,
        }
    } else {
        None
    }
}

/// The result rows of a list of headwords, in order, skipping the dropped
/// ones.
pub open spec fn raw_entries(ds: Seq<DeinflectionV>, ts: Seq<TermV>) -> Seq<DictEntryV>
    decreases ts.len(),
{
    if ts.len() == 0 {
        Seq::empty()
    } else {
        raw_entries(ds, ts.drop_last()) + (match entry_for(ds, ts.last()) {
            Some(e) => seq![e],
            None => Seq::empty(),
        })
    }
}

/// The value of an optional derivation.
pub open spec fn opt_view(o: Option<Deinflection>) -> Option<DeinflectionV> {
    match o {
        Some(d) => Some(d@),
        None => None,
    }
}

/// The derivations of `deinflections` whose candidate term equals `key`.
fn collect_derivs(deinflections: &Vec<Deinflection>, key: &str) -> (r: Vec<Deinflection>)
    ensures
        views(r@) == derivs_for(views(deinflections@), key@),
{
    let mut r: Vec<Deinflection> = Vec::new();
    let mut i: usize = 0;
    while i < deinflections.len()
        invariant
            i <= deinflections@.len(),
            views(r@) == derivs_for(views(deinflections@).take(i as int), key@),
        decreases deinflections@.len() - i,
    {
        let ghost pre = views(deinflections@).take(i as int);
        proof {
            assert(views(deinflections@).take(i + 1).drop_last() =~= pre);
            assert(views(deinflections@).take(i + 1).last() == deinflections@[i as int]@);
        }
        if str_eq(deinflections[i].term.as_str(), key) {
            r.push(deinflections[i].duplicate());
            proof {
                assert(views(r@) =~~= derivs_for(views(deinflections@).take(i + 1), key@));
            }
        } else {
            proof {
                assert(views(r@) =~~= derivs_for(views(deinflections@).take(i + 1), key@));
            }
        }
        i += 1;
    }
    proof {
        assert(views(deinflections@).take(deinflections@.len() as int) =~= views(
            deinflections@,
        ));
    }
    r
}

/// The best compatible derivation of the list: most reasons first, earlier
/// listed on ties.
fn pick_best(cands: &Vec<Deinflection>, rules: crate::deinflect::Rules) -> (r: Option<
    Deinflection,
>)
    ensures
        opt_view(r) == best_derivation(views(cands@), rules.mask),
{
    let mut best: Option<Deinflection> = None;
    let mut k: usize = 0;
    while k < cands.len()
        invariant
            k <= cands@.len(),
            opt_view(best) == best_derivation(views(cands@).take(k as int), rules.mask),
        decreases cands@.len() - k,
    {
        proof {
            assert(views(cands@).take(k + 1).drop_last() =~= views(cands@).take(k as int));
            assert(views(cands@).take(k + 1).last() == cands@[k as int]@);
        }
        let c = &cands[k];
        let compatible = c.rules.is_empty() || c.rules.intersects(&rules);
        let replace = match &best {
            None => compatible,
            Some(b) => compatible && b.reasons.len() < c.reasons.len(),
        };
        if replace {
            best = Some(c.duplicate());
        }
        k += 1;
    }
    proof {
        assert(views(cands@).take(cands@.len() as int) =~= views(cands@));
    }
    best
}

/// The ungrouped result rows: each headword the store returned is paired
/// with the derivations of its expression, or else of its reading, and the
/// best compatible derivation of that list decides its row; headwords with
/// no compatible derivation are dropped, and order is kept.
pub fn get_raw_terms(deinflections: &Vec<Deinflection>, terms: Vec<Term>) -> (r: Vec<DictEntry>)
    ensures
        entry_views(r@) == raw_entries(views(deinflections@), term_views(terms@)),
{
    let ghost ds = views(deinflections@);
    let ghost all_terms = term_views(terms@);
    let mut input = terms;
    let mut r: Vec<DictEntry> = Vec::new();
    let ghost mut done: Seq<TermV> = Seq::empty();
    while input.len() > 0
        invariant
            ds == views(deinflections@),
            all_terms == done + term_views(input@),
            entry_views(r@) == raw_entries(ds, done),
        decreases input@.len(),
    {
        let ghost prev = term_views(input@);
        let t = input.remove(0);
        proof {
            assert(prev[0] == t@);
            assert(prev.remove(0) =~= term_views(input@));
            assert(all_terms =~= (done.push(t@)) + term_views(input@));
            assert(done.push(t@).drop_last() =~= done);
        }
        let primary = collect_derivs(deinflections, t.expression.as_str());
        let (cands, primary_match) = if primary.len() > 0 {
            (primary, true)
        } else {
            let secondary = collect_derivs(deinflections, t.reading.as_str());
            (secondary, false)
        };
        let ghost t_view = t@;
        if cands.len() > 0 {
            match pick_best(&cands, t.rules) {
                Some(d) => {
                    let source_len = d.source.as_str().unicode_len();
                    let entry = DictEntry {
                        term: t,
                        reasons: d.reasons,
                        source_len,
                        primary_match,
                    };
                    proof {
                        assert(entry@ == entry_for(ds, t_view)->0);
                    }
                    r.push(entry);
                    proof {
                        done = done.push(t_view);
                        assert(entry_views(r@) =~~= raw_entries(ds, done));
                    }
                },
                None => {
                    proof {
                        assert(entry_for(ds, t_view) is None);
                        done = done.push(t_view);
                        assert(entry_views(r@) =~~= raw_entries(ds, done));
                    }
                },
            }
        } else {
            proof {
                assert(entry_for(ds, t_view) is None);
                done = done.push(t_view);
                assert(entry_views(r@) =~~= raw_entries(ds, done));
            }
        }
    }
    proof {
        assert(term_views(input@) =~= Seq::<TermV>::empty());
        assert(done =~= all_terms);
    }
    r
}

/// The grouping key of a result group.
pub open spec fn group_key(g: DictEntriesV) -> (Seq<char>, Seq<char>) {
    (g.expression, g.reading)
}

/// The key an entry belongs under.
pub open spec fn entry_key(e: DictEntryV) -> (Seq<char>, Seq<char>) {
    (e.term.expression, e.term.reading)
}

/// The position of the group with the given key, or -1 where none exists.
pub open spec fn find_group(gs: Seq<DictEntriesV>, key: (Seq<char>, Seq<char>)) -> int
    decreases gs.len(),
{
    if gs.len() == 0 {
        -1
    } else if group_key(gs[0]) == key {
        0
    } else {
        let r = find_group(gs.drop_first(), key);
        if r == -1 {
            -1
        } else {
            r + 1
        }
    }
}

proof fn lemma_find_group_props(gs: Seq<DictEntriesV>, key: (Seq<char>, Seq<char>))
    ensures
        find_group(gs, key) == -1 ==> forall|i: int|
            0 <= i < gs.len() ==> group_key(#[trigger] gs[i]) != key,
        find_group(gs, key) != -1 ==> 0 <= find_group(gs, key) < gs.len() && group_key(
            gs[find_group(gs, key)],
        ) == key,
    decreases gs.len(),
{
    if gs.len() > 0 && group_key(gs[0]) != key {
        lemma_find_group_props(gs.drop_first(), key);
        let r = find_group(gs.drop_first(), key);
        if r == -1 {
            assert forall|i: int| 0 <= i < gs.len() implies group_key(#[trigger] gs[i])
                != key by {
                if i > 0 {
                    assert(gs.drop_first()[i - 1] == gs[i]);
                }
            }
        } else {
            assert(gs.drop_first()[r] == gs[r + 1]);
        }
    }
}

/// The result rows grouped by their key, in order of first appearance: a
/// row joins the group with its key, or opens a new group at the end.
pub open spec fn spec_group(es: Seq<DictEntryV>) -> Seq<DictEntriesV>
    decreases es.len(),
{
    if es.len() == 0 {
        Seq::empty()
    } else {
        let gs = spec_group(es.drop_last());
        let e = es.last();
        let i = find_group(gs, entry_key(e));
        if i == -1 {
            gs + seq![
                DictEntriesV {
                    expression: e.term.expression,
                    reading: e.term.reading,
                    entries: seq![e],
                },
            ]
        } else {
            gs.update(i, DictEntriesV { entries: gs[i].entries.push(e), ..gs[i] })
        }
    }
}

/// All entries of all groups, counted together.
pub open spec fn entries_multiset(gs: Seq<DictEntriesV>) -> Multiset<DictEntryV>
    decreases gs.len(),
{
    if gs.len() == 0 {
        Multiset::empty()
    } else {
        entries_multiset(gs.drop_last()).add(gs.last().entries.to_multiset())
    }
}

/// Whether no two groups share a key.
pub open spec fn unique_keys(gs: Seq<DictEntriesV>) -> bool {
    forall|i: int, j: int|
        0 <= i < j < gs.len() ==> group_key(#[trigger] gs[i]) != group_key(#[trigger] gs[j])
}

/// Whether every group is non-empty and holds only entries with its key.
pub open spec fn groups_wf(gs: Seq<DictEntriesV>) -> bool {
    forall|i: int|
        0 <= i < gs.len() ==> (#[trigger] gs[i]).entries.len() > 0 && (forall|k: int|
            0 <= k < gs[i].entries.len() ==> entry_key(#[trigger] gs[i].entries[k]) == group_key(
                gs[i],
            ))
}

proof fn lemma_entries_multiset_update(
    gs: Seq<DictEntriesV>,
    i: int,
    g: DictEntriesV,
    e: DictEntryV,
)
    requires
        0 <= i < gs.len(),
        g.entries.to_multiset() == gs[i].entries.to_multiset().insert(e),
    ensures
        entries_multiset(gs.update(i, g)) == entries_multiset(gs).insert(e),
    decreases gs.len(),
{
    broadcast use vstd::seq_lib::group_to_multiset_ensures;

    if i == gs.len() - 1 {
        assert(gs.update(i, g).drop_last() =~= gs.drop_last());
        assert(gs.update(i, g).last() == g);
        assert(entries_multiset(gs.drop_last()).add(gs.last().entries.to_multiset().insert(e))
            =~= entries_multiset(gs.drop_last()).add(gs.last().entries.to_multiset()).insert(e));
    } else {
        lemma_entries_multiset_update(gs.drop_last(), i, g, e);
        assert(gs.update(i, g).drop_last() =~= gs.drop_last().update(i, g));
        assert(gs.update(i, g).last() == gs.last());
        assert(entries_multiset(gs.drop_last()).insert(e).add(gs.last().entries.to_multiset())
            =~= entries_multiset(gs.drop_last()).add(gs.last().entries.to_multiset()).insert(e));
    }
}

/// Grouping produces well-formed groups: every group is non-empty, holds
/// only entries with its key, no two groups share a key, and together the
/// groups hold exactly the given rows.
pub proof fn lemma_spec_group_wf(es: Seq<DictEntryV>)
    ensures
        groups_wf(spec_group(es)),
        unique_keys(spec_group(es)),
        entries_multiset(spec_group(es)) == es.to_multiset(),
    decreases es.len(),
{
    broadcast use vstd::seq_lib::group_to_multiset_ensures;

    if es.len() == 0 {
        assert(entries_multiset(spec_group(es)) =~= es.to_multiset());
    } else {
        lemma_spec_group_wf(es.drop_last());
        let gs = spec_group(es.drop_last());
        let e = es.last();
        let i = find_group(gs, entry_key(e));
        lemma_find_group_props(gs, entry_key(e));
        assert(es.drop_last().push(e) =~= es);
        assert(es.to_multiset() == es.drop_last().to_multiset().insert(e));
        if i == -1 {
            let ng = DictEntriesV {
                expression: e.term.expression,
                reading: e.term.reading,
                entries: seq![e],
            };
            let result = gs + seq![ng];
            assert(result.drop_last() =~= gs);
            assert(result.last() == ng);
            assert(seq![e].to_multiset() =~= Multiset::empty().insert(e)) by {
                assert(seq![e] =~= Seq::<DictEntryV>::empty().push(e));
                assert(Seq::<DictEntryV>::empty().to_multiset() =~= Multiset::<
                    DictEntryV,
                >::empty());
            }
            assert(entries_multiset(result) =~= entries_multiset(gs).insert(e));
            assert(groups_wf(result)) by {
                assert forall|t: int|
                    0 <= t < result.len() implies (#[trigger] result[t]).entries.len() > 0 && (
                forall|k: int|
                    0 <= k < result[t].entries.len() ==> entry_key(#[trigger] result[t].entries[k])
                        == group_key(result[t])) by {
                    if t < gs.len() {
                        assert(result[t] == gs[t]);
                    } else {
                        assert(result[t] == ng);
                        assert(ng.entries[0] == e);
                    }
                }
            }
            assert(unique_keys(result)) by {
                assert forall|a: int, b: int| 0 <= a < b < result.len() implies group_key(
                    #[trigger] result[a],
                ) != group_key(#[trigger] result[b]) by {
                    if b < gs.len() {
                        assert(result[a] == gs[a] && result[b] == gs[b]);
                    } else {
                        assert(result[a] == gs[a] && result[b] == ng);
                    }
                }
            }
        } else {
            let g2 = DictEntriesV { entries: gs[i].entries.push(e), ..gs[i] };
            let result = gs.update(i, g2);
            assert(g2.entries.to_multiset() == gs[i].entries.to_multiset().insert(e));
            lemma_entries_multiset_update(gs, i, g2, e);
            assert(groups_wf(result)) by {
                assert forall|t: int|
                    0 <= t < result.len() implies (#[trigger] result[t]).entries.len() > 0 && (
                forall|k: int|
                    0 <= k < result[t].entries.len() ==> entry_key(#[trigger] result[t].entries[k])
                        == group_key(result[t])) by {
                    if t != i {
                        assert(result[t] == gs[t]);
                    } else {
                        assert(result[t] == g2);
                        assert(group_key(g2) == group_key(gs[i]));
                        assert forall|k: int|
                            0 <= k < g2.entries.len() implies entry_key(
                            #[trigger] g2.entries[k],
                        ) == group_key(g2) by {
                            if k < gs[i].entries.len() {
                                assert(g2.entries[k] == gs[i].entries[k]);
                            } else {
                                assert(g2.entries[k] == e);
                            }
                        }
                    }
                }
            }
            assert(unique_keys(result)) by {
                assert forall|a: int, b: int| 0 <= a < b < result.len() implies group_key(
                    #[trigger] result[a],
                ) != group_key(#[trigger] result[b]) by {
                    assert(group_key(result[a]) == group_key(gs[a]));
                    assert(group_key(result[b]) == group_key(gs[b]));
                }
            }
        }
    }
}

/// The position of the group both of whose key strings match, if any.
fn find_group_index(groups: &Vec<DictEntries>, expression: &str, reading: &str) -> (r: Option<
    usize,
>)
    ensures
        match r {
            Some(i) => i < groups@.len() && find_group(
                group_views(groups@),
                (expression@, reading@),
            ) == i as int,
            None => find_group(group_views(groups@), (expression@, reading@)) == -1,
        },
{
    let ghost key = (expression@, reading@);
    let mut idx: usize = 0;
    while idx < groups.len()
        invariant
            idx <= groups@.len(),
            key == (expression@, reading@),
            forall|t: int|
                0 <= t < idx ==> group_key(#[trigger] group_views(groups@)[t]) != key,
        decreases groups@.len() - idx,
    {
        let g = &groups[idx];
        if str_eq(g.expression.as_str(), expression) && str_eq(g.reading.as_str(), reading) {
            proof {
                assert(group_key(group_views(groups@)[idx as int]) == key);
                lemma_find_group_skip(group_views(groups@), key, idx as int);
            }
            return Some(idx);
        }
        proof {
            assert(group_key(group_views(groups@)[idx as int]) != key);
        }
        idx += 1;
    }
    proof {
        lemma_find_group_props(group_views(groups@), key);
        if find_group(group_views(groups@), key) != -1 {
            assert(group_key(
                group_views(groups@)[find_group(group_views(groups@), key)],
            ) == key);
        }
    }
    None
}

/// The rows grouped by key, first appearance first.
fn group_entries(entries: Vec<DictEntry>) -> (r: Vec<DictEntries>)
    ensures
        group_views(r@) == spec_group(entry_views(entries@)),
{
    let ghost evs = entry_views(entries@);
    let mut input = entries;
    let mut groups: Vec<DictEntries> = Vec::new();
    let ghost mut done: Seq<DictEntryV> = Seq::empty();
    while input.len() > 0
        invariant
            evs == done + entry_views(input@),
            group_views(groups@) == spec_group(done),
        decreases input@.len(),
    {
        let ghost prev = entry_views(input@);
        let e = input.remove(0);
        proof {
            assert(prev[0] == e@);
            assert(prev.remove(0) =~= entry_views(input@));
            assert(evs =~= (done.push(e@)) + entry_views(input@));
            assert(done.push(e@).drop_last() =~= done);
            assert(entry_key(e@) == (e.term.expression@, e.term.reading@));
        }
        let ghost pre_groups = group_views(groups@);
        match find_group_index(&groups, e.term.expression.as_str(), e.term.reading.as_str()) {
            Some(gi) => {
                let ghost pre = groups@;
                let mut g = groups.remove(gi);
                g.entries.push(e);
                groups.insert(gi, g);
                proof {
                    assert(groups@ =~= pre.update(gi as int, groups@[gi as int]));
                    assert(groups@[gi as int]@ =~~= (DictEntriesV {
                        entries: pre_groups[gi as int].entries.push(e@),
                        ..pre_groups[gi as int]
                    }));
                    assert(group_views(groups@) =~~= pre_groups.update(
                        gi as int,
                        (DictEntriesV {
                            entries: pre_groups[gi as int].entries.push(e@),
                            ..pre_groups[gi as int]
                        }),
                    ));
                    assert(group_views(groups@) =~~= spec_group(done.push(e@)));
                    done = done.push(e@);
                }
            },
            None => {
                let mut ents: Vec<DictEntry> = Vec::new();
                let expression = e.term.expression.clone();
                let reading = e.term.reading.clone();
                ents.push(e);
                groups.push(DictEntries { expression, reading, entries: ents });
                proof {
                    assert(group_views(groups@) =~~= spec_group(done.push(e@)));
                    done = done.push(e@);
                }
            },
        }
    }
    proof {
        assert(entry_views(input@) =~= Seq::<DictEntryV>::empty());
        assert(done =~= evs);
    }
    groups
}

/// The order of entries inside a group: earlier dictionary first, higher
/// score first, longer glossary first.
pub open spec fn entry_le(a: DictEntryV, b: DictEntryV) -> bool {
    if a.term.dict_id != b.term.dict_id {
        a.term.dict_id < b.term.dict_id
    } else if a.term.score != b.term.score {
        a.term.score > b.term.score
    } else {
        a.term.glossary.len() >= b.term.glossary.len()
    }
}

/// The order of groups, judged by each group's first entry: earlier
/// dictionary first, longer matched input first, fewer inflection steps
/// first, expression matches before reading matches, higher score first,
/// longer glossary first.
pub open spec fn group_le(a: DictEntriesV, b: DictEntriesV) -> bool {
    let x = a.entries[0];
    let y = b.entries[0];
    if x.term.dict_id != y.term.dict_id {
        x.term.dict_id < y.term.dict_id
    } else if x.source_len != y.source_len {
        x.source_len > y.source_len
    } else if x.reasons.len() != y.reasons.len() {
        x.reasons.len() < y.reasons.len()
    } else if x.primary_match != y.primary_match {
        x.primary_match
    } else if x.term.score != y.term.score {
        x.term.score > y.term.score
    } else {
        x.term.glossary.len() >= y.term.glossary.len()
    }
}

fn entry_le_exec(a: &DictEntry, b: &DictEntry) -> (r: bool)
    ensures
        r == entry_le(a@, b@),
{
    if a.term.dict_id != b.term.dict_id {
        a.term.dict_id < b.term.dict_id
    } else if a.term.score.0 != b.term.score.0 {
        a.term.score.0 > b.term.score.0
    } else {
        a.term.glossary.len() >= b.term.glossary.len()
    }
}

fn group_le_exec(a: &DictEntries, b: &DictEntries) -> (r: bool)
    requires
        a@.entries.len() > 0,
        b@.entries.len() > 0,
    ensures
        r == group_le(a@, b@),
{
    let x = &a.entries[0];
    let y = &b.entries[0];
    proof {
        assert(a@.entries[0] == x@);
        assert(b@.entries[0] == y@);
    }
    if x.term.dict_id != y.term.dict_id {
        x.term.dict_id < y.term.dict_id
    } else if x.source_len != y.source_len {
        x.source_len > y.source_len
    } else if x.reasons.len() != y.reasons.len() {
        x.reasons.len() < y.reasons.len()
    } else if x.primary_match != y.primary_match {
        x.primary_match
    } else if x.term.score.0 != y.term.score.0 {
        x.term.score.0 > y.term.score.0
    } else {
        x.term.glossary.len() >= y.term.glossary.len()
    }
}

/// The list sorted by the within-group order; the same entries, rearranged.
fn sort_entries(v: Vec<DictEntry>) -> (r: Vec<DictEntry>)
    ensures
        entry_views(r@).to_multiset() == entry_views(v@).to_multiset(),
        r@.len() == v@.len(),
        forall|i: int, j: int| 0 <= i < j < r@.len() ==> entry_le(r@[i]@, r@[j]@),
{
    broadcast use vstd::seq_lib::group_to_multiset_ensures;
    broadcast use vstd::multiset::group_multiset_axioms;

    let mut rem = v;
    let mut out: Vec<DictEntry> = Vec::new();
    proof {
        let e = entry_views(out@);
        assert(e =~= Seq::<DictEntryV>::empty());
        assert forall|a: DictEntryV| e.to_multiset().count(a) == 0 by {
            if e.to_multiset().count(a) > 0 {
                assert(e.contains(a));
            }
        }
        assert(e.to_multiset() =~= Multiset::<DictEntryV>::empty());
        assert(e.to_multiset().add(entry_views(rem@).to_multiset()) =~= entry_views(
            v@,
        ).to_multiset());
    }
    while rem.len() > 0
        invariant
            entry_views(out@).to_multiset().add(entry_views(rem@).to_multiset()) == entry_views(
                v@,
            ).to_multiset(),
            out@.len() + rem@.len() == v@.len(),
            forall|i: int, j: int| 0 <= i < j < out@.len() ==> entry_le(out@[i]@, out@[j]@),
            forall|i: int, j: int|
                0 <= i < out@.len() && 0 <= j < rem@.len() ==> entry_le(out@[i]@, rem@[j]@),
        decreases rem@.len(),
    {
        let mut m: usize = 0;
        let mut k: usize = 1;
        while k < rem.len()
            invariant
                m < k <= rem@.len(),
                forall|j: int| 0 <= j < k ==> entry_le(rem@[m as int]@, rem@[j]@),
            decreases rem@.len() - k,
        {
            if !entry_le_exec(&rem[m], &rem[k]) {
                m = k;
            }
            k += 1;
        }
        let ghost pre_rem = entry_views(rem@);
        let ghost pre_out = entry_views(out@);
        let x = rem.remove(m);
        out.push(x);
        proof {
            assert(entry_views(rem@) =~= pre_rem.remove(m as int));
            assert(entry_views(out@) =~= pre_out.push(x@));
            vstd::seq_lib::to_multiset_remove(pre_rem, m as int);
            vstd::seq_lib::to_multiset_build(pre_out, x@);
            assert(pre_rem.to_multiset().contains(pre_rem[m as int])) by {
                vstd::seq_lib::to_multiset_contains(pre_rem, pre_rem[m as int]);
            }
            assert(entry_views(out@).to_multiset().add(entry_views(rem@).to_multiset())
                =~= entry_views(v@).to_multiset());
            assert forall|i: int, j: int|
                0 <= i < out@.len() && 0 <= j < rem@.len() implies entry_le(
                out@[i]@,
                rem@[j]@,
            ) by {
                assert(rem@[j]@ == (if j < m { pre_rem[j] } else { pre_rem[j + 1] }));
            }
        }
    }
    out
}

/// Whether one group is well formed on its own: non-empty, every entry
/// under the group's key, and the entries in the within-group order.
pub open spec fn group_ok(g: DictEntriesV) -> bool {
    &&& g.entries.len() > 0
    &&& forall|k: int| 0 <= k < g.entries.len() ==> entry_key(#[trigger] g.entries[k]) == group_key(g)
    &&& forall|p: int, q: int|
        0 <= p < q < g.entries.len() ==> entry_le(#[trigger] g.entries[p], #[trigger] g.entries[q])
}

proof fn lemma_entries_multiset_remove(gs: Seq<DictEntriesV>, m: int)
    requires
        0 <= m < gs.len(),
    ensures
        entries_multiset(gs) == entries_multiset(gs.remove(m)).add(gs[m].entries.to_multiset()),
    decreases gs.len(),
{
    if m == gs.len() - 1 {
        assert(gs.remove(m) =~= gs.drop_last());
    } else {
        lemma_entries_multiset_remove(gs.drop_last(), m);
        assert(gs.remove(m).drop_last() =~= gs.drop_last().remove(m));
        assert(gs.remove(m).last() == gs.last());
        assert(entries_multiset(gs.drop_last().remove(m)).add(
            gs[m].entries.to_multiset(),
        ).add(gs.last().entries.to_multiset()) =~= entries_multiset(
            gs.drop_last().remove(m),
        ).add(gs.last().entries.to_multiset()).add(gs[m].entries.to_multiset()));
    }
}

/// The list sorted by the group order: the same groups rearranged, each
/// still well formed, keys still pairwise distinct, and the entries of all
/// groups together unchanged.
fn sort_groups(v: Vec<DictEntries>) -> (r: Vec<DictEntries>)
    requires
        forall|i: int| 0 <= i < v@.len() ==> group_ok(#[trigger] group_views(v@)[i]),
        unique_keys(group_views(v@)),
    ensures
        r@.len() == v@.len(),
        forall|i: int| 0 <= i < r@.len() ==> group_ok(#[trigger] group_views(r@)[i]),
        unique_keys(group_views(r@)),
        entries_multiset(group_views(r@)) == entries_multiset(group_views(v@)),
        forall|i: int, j: int| 0 <= i < j < r@.len() ==> group_le(r@[i]@, r@[j]@),
{
    broadcast use vstd::seq_lib::group_to_multiset_ensures;
    broadcast use vstd::multiset::group_multiset_axioms;

    let mut rem = v;
    let mut out: Vec<DictEntries> = Vec::new();
    proof {
        assert(group_views(out@) + group_views(rem@) =~= group_views(rem@));
        assert(entries_multiset(group_views(out@)) =~= Multiset::<DictEntryV>::empty());
        assert(entries_multiset(group_views(out@)).add(
            entries_multiset(group_views(rem@)),
        ) =~= entries_multiset(group_views(v@)));
    }
    while rem.len() > 0
        invariant
            out@.len() + rem@.len() == v@.len(),
            forall|i: int| 0 <= i < out@.len() ==> group_ok(#[trigger] group_views(out@)[i]),
            forall|i: int| 0 <= i < rem@.len() ==> group_ok(#[trigger] group_views(rem@)[i]),
            unique_keys(group_views(out@) + group_views(rem@)),
            entries_multiset(group_views(out@)).add(entries_multiset(group_views(rem@)))
                == entries_multiset(group_views(v@)),
            forall|i: int, j: int| 0 <= i < j < out@.len() ==> group_le(out@[i]@, out@[j]@),
            forall|i: int, j: int|
                0 <= i < out@.len() && 0 <= j < rem@.len() ==> group_le(out@[i]@, rem@[j]@),
        decreases rem@.len(),
    {
        let mut m: usize = 0;
        let mut k: usize = 1;
        while k < rem.len()
            invariant
                m < k <= rem@.len(),
                forall|i: int| 0 <= i < rem@.len() ==> group_ok(#[trigger] group_views(rem@)[i]),
                forall|j: int| 0 <= j < k ==> group_le(rem@[m as int]@, rem@[j]@),
            decreases rem@.len() - k,
        {
            proof {
                assert(group_ok(group_views(rem@)[m as int]));
                assert(group_ok(group_views(rem@)[k as int]));
            }
            if !group_le_exec(&rem[m], &rem[k]) {
                m = k;
            }
            k += 1;
        }
        let ghost pre_rem = group_views(rem@);
        let ghost pre_out = group_views(out@);
        let x = rem.remove(m);
        out.push(x);
        proof {
            assert(group_views(rem@) =~= pre_rem.remove(m as int));
            assert(group_views(out@) =~= pre_out.push(x@));
            lemma_entries_multiset_remove(pre_rem, m as int);
            assert(entries_multiset(group_views(out@)) =~= entries_multiset(pre_out).add(
                x@.entries.to_multiset(),
            )) by {
                assert(group_views(out@).drop_last() =~= pre_out);
            }
            assert(entries_multiset(group_views(out@)).add(
                entries_multiset(group_views(rem@)),
            ) =~= entries_multiset(group_views(v@)));
            assert forall|j: int|
                0 <= j < rem@.len() implies group_ok(#[trigger] group_views(rem@)[j]) by {
                assert(group_views(rem@)[j] == (if j < m {
                    pre_rem[j]
                } else {
                    pre_rem[j + 1]
                }));
            }
            let merged = group_views(out@) + group_views(rem@);
            let pre_merged = pre_out + pre_rem;
            assert forall|a: int, b: int| 0 <= a < b < merged.len() implies group_key(
                #[trigger] merged[a],
            ) != group_key(#[trigger] merged[b]) by {
                let fa = (if a < pre_out.len() {
                    a
                } else if a == pre_out.len() {
                    pre_out.len() + m
                } else if a - pre_out.len() - 1 < m {
                    a - 1
                } else {
                    a
                });
                let fb = (if b < pre_out.len() {
                    b
                } else if b == pre_out.len() {
                    pre_out.len() + m
                } else if b - pre_out.len() - 1 < m {
                    b - 1
                } else {
                    b
                });
                assert(merged[a] == pre_merged[fa]);
                assert(merged[b] == pre_merged[fb]);
                assert(fa != fb);
                if fa < fb {
                    assert(group_key(pre_merged[fa]) != group_key(pre_merged[fb]));
                } else {
                    assert(group_key(pre_merged[fb]) != group_key(pre_merged[fa]));
                }
            }
            assert forall|i: int, j: int|
                0 <= i < out@.len() && 0 <= j < rem@.len() implies group_le(
                out@[i]@,
                rem@[j]@,
            ) by {
                assert(rem@[j]@ == (if j < m { pre_rem[j] } else { pre_rem[j + 1] }));
            }
        }
    }
    proof {
        assert(group_views(rem@) =~= Seq::<DictEntriesV>::empty());
        assert(group_views(out@) + group_views(rem@) =~= group_views(out@));
        assert(entries_multiset(group_views(rem@)) =~= Multiset::<DictEntryV>::empty());
        assert(entries_multiset(group_views(out@)).add(
            entries_multiset(group_views(rem@)),
        ) =~= entries_multiset(group_views(out@)));
    }
    out
}

proof fn lemma_entries_multiset_congruence(a: Seq<DictEntriesV>, b: Seq<DictEntriesV>)
    requires
        a.len() == b.len(),
        forall|i: int|
            0 <= i < a.len() ==> (#[trigger] a[i]).entries.to_multiset()
                == b[i].entries.to_multiset(),
    ensures
        entries_multiset(a) == entries_multiset(b),
    decreases a.len(),
{
    if a.len() > 0 {
        lemma_entries_multiset_congruence(a.drop_last(), b.drop_last());
        assert(a[a.len() - 1].entries.to_multiset() == b[b.len() - 1].entries.to_multiset());
        assert forall|i: int|
            0 <= i < a.drop_last().len() implies (#[trigger] a.drop_last()[i]).entries.to_multiset()
            == b.drop_last()[i].entries.to_multiset() by {
            assert(a.drop_last()[i] == a[i]);
            assert(b.drop_last()[i] == b[i]);
        }
    }
}

/// Every group with its entries sorted into the within-group order; keys
/// and contents are untouched.
fn sort_each_group(groups: Vec<DictEntries>) -> (r: Vec<DictEntries>)
    requires
        groups_wf(group_views(groups@)),
    ensures
        r@.len() == groups@.len(),
        forall|i: int| 0 <= i < r@.len() ==> group_ok(#[trigger] group_views(r@)[i]),
        forall|i: int|
            0 <= i < r@.len() ==> group_key(#[trigger] group_views(r@)[i]) == group_key(
                group_views(groups@)[i],
            ),
        entries_multiset(group_views(r@)) == entries_multiset(group_views(groups@)),
{
    broadcast use vstd::seq_lib::group_to_multiset_ensures;

    let ghost orig = group_views(groups@);
    let mut input = groups;
    let mut out: Vec<DictEntries> = Vec::new();
    while input.len() > 0
        invariant
            groups_wf(orig),
            out@.len() + input@.len() == orig.len(),
            forall|j: int|
                0 <= j < input@.len() ==> #[trigger] group_views(input@)[j] == orig[out@.len()
                    + j],
            forall|i: int| 0 <= i < out@.len() ==> group_ok(#[trigger] group_views(out@)[i]),
            forall|i: int|
                0 <= i < out@.len() ==> group_key(#[trigger] group_views(out@)[i]) == group_key(
                    orig[i],
                ),
            forall|i: int|
                0 <= i < out@.len() ==> (#[trigger] group_views(out@)[i]).entries.to_multiset()
                    == orig[i].entries.to_multiset(),
        decreases input@.len(),
    {
        let ghost pos = out@.len() as int;
        let ghost pre_input = group_views(input@);
        let g = input.remove(0);
        proof {
            assert(pre_input[0] == g@);
            assert(g@ == orig[pos]);
            assert(pre_input.remove(0) =~= group_views(input@));
            assert forall|j: int|
                0 <= j < input@.len() implies #[trigger] group_views(input@)[j] == orig[pos + 1
                + j] by {
                assert(group_views(input@)[j] == pre_input[j + 1]);
            }
        }
        let DictEntries { expression, reading, entries } = g;
        let ghost pre_entries = entry_views(entries@);
        let sorted = sort_entries(entries);
        let ng = DictEntries { expression, reading, entries: sorted };
        proof {
            assert(ng@.entries =~= entry_views(sorted@));
            assert(group_key(ng@) == group_key(orig[pos]));
            assert(ng@.entries.to_multiset() == orig[pos].entries.to_multiset());
            assert(group_ok(ng@)) by {
                assert(orig[pos].entries.len() > 0);
                assert(ng@.entries.len() == orig[pos].entries.len());
                assert forall|k: int|
                    0 <= k < ng@.entries.len() implies entry_key(#[trigger] ng@.entries[k])
                    == group_key(ng@) by {
                    assert(ng@.entries.contains(ng@.entries[k]));
                    assert(ng@.entries.to_multiset().count(ng@.entries[k]) > 0) by {
                        vstd::seq_lib::to_multiset_contains(ng@.entries, ng@.entries[k]);
                    }
                    assert(orig[pos].entries.to_multiset().count(ng@.entries[k]) > 0);
                    assert(orig[pos].entries.contains(ng@.entries[k])) by {
                        vstd::seq_lib::to_multiset_contains(orig[pos].entries, ng@.entries[k]);
                    }
                    let t = choose|t: int|
                        0 <= t < orig[pos].entries.len() && orig[pos].entries[t] == ng@.entries[k];
                    assert(entry_key(orig[pos].entries[t]) == group_key(orig[pos]));
                }
            }
        }
        let ghost pre_out = group_views(out@);
        out.push(ng);
        proof {
            assert(group_views(out@) =~= pre_out.push(ng@));
            assert(group_views(out@)[pos] == ng@);
            assert forall|i: int| 0 <= i < pos implies #[trigger] group_views(out@)[i]
                == pre_out[i] by {
            }
        }
    }
    proof {
        lemma_entries_multiset_congruence(group_views(out@), orig);
    }
    out
}

/// The grouped, ranked results. The rows are grouped by `(expression,
/// reading)` — no two returned groups share that pair — and every group is
/// non-empty and holds exactly the rows with its key. Within a group the
/// entries are in the within-group order; the groups themselves are in the
/// group order. Together the groups hold exactly the given rows.
pub fn get_grouped_terms(entries: Vec<DictEntry>) -> (r: Vec<DictEntries>)
    ensures
        forall|i: int| 0 <= i < r@.len() ==> group_ok(#[trigger] group_views(r@)[i]),
        unique_keys(group_views(r@)),
        entries_multiset(group_views(r@)) == entry_views(entries@).to_multiset(),
        forall|i: int, j: int| 0 <= i < j < r@.len() ==> group_le(r@[i]@, r@[j]@),
{
    let ghost evs = entry_views(entries@);
    let grouped = group_entries(entries);
    proof {
        lemma_spec_group_wf(evs);
    }
    let leveled = sort_each_group(grouped);
    proof {
        assert(unique_keys(group_views(leveled@))) by {
            assert forall|a: int, b: int|
                0 <= a < b < group_views(leveled@).len() implies group_key(
                #[trigger] group_views(leveled@)[a],
            ) != group_key(#[trigger] group_views(leveled@)[b]) by {
                assert(group_key(group_views(leveled@)[a]) == group_key(
                    group_views(grouped@)[a],
                ));
                assert(group_key(group_views(leveled@)[b]) == group_key(
                    group_views(grouped@)[b],
                ));
            }
        }
    }
    sort_groups(leveled)
}

/// The lookup keys for a set of deinflections: each candidate's term, in
/// order.
pub fn lookup_strings(deinflections: &Vec<Deinflection>) -> (r: Vec<String>)
    ensures
        r@.len() == deinflections@.len(),
        forall|i: int| 0 <= i < r@.len() ==> (#[trigger] r@[i])@ == deinflections@[i]@.term,
{
    let mut r: Vec<String> = Vec::new();
    let mut i: usize = 0;
    while i < deinflections.len()
        invariant
            i <= deinflections@.len(),
            r@.len() == i,
            forall|t: int| 0 <= t < i ==> (#[trigger] r@[t])@ == deinflections@[t]@.term,
        decreases deinflections@.len() - i,
    {
        r.push(deinflections[i].term.clone());
        i += 1;
    }
    r
}

proof fn lemma_find_group_skip(gs: Seq<DictEntriesV>, key: (Seq<char>, Seq<char>), idx: int)
    requires
        0 <= idx < gs.len(),
        group_key(gs[idx]) == key,
        forall|t: int| 0 <= t < idx ==> group_key(#[trigger] gs[t]) != key,
    ensures
        find_group(gs, key) == idx,
    decreases idx,
{
    if idx == 0 {
    } else {
        lemma_find_group_skip(gs.drop_first(), key, idx - 1);
        assert(gs.drop_first()[idx - 1] == gs[idx]);
        assert forall|t: int| 0 <= t < idx - 1 implies group_key(
            #[trigger] gs.drop_first()[t],
        ) != key by {
            assert(gs.drop_first()[t] == gs[t + 1]);
        }
    }
}

} // verus!
