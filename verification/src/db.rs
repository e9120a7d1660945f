//! The store's decisions: the persistent schema, the chunked ingestion plan
//! with its duplicate-dictionary policy, and the de-duplication of lookup
//! results by primary key. The transactions themselves are driven by the
//! caller that owns the persistence substrate.

use vstd::prelude::*;

use crate::dict::Dict;
use crate::kanji_bank::{Kanji, KanjiV};
use crate::tag_bank::{Tag, TagV};
use crate::terms_bank::{Term, TermV};

verus! {

broadcast use vstd::seq::Seq::lemma_push_map_commute;

/// The largest number of records one insertion step commits in one
/// transaction.
pub const TRANSACTION_SIZE: usize = 1000;

/// One collection of the persistent store: its name, its primary key path,
/// whether that key auto-increments, and its secondary indices.
pub struct CollectionSchema {
    pub name: String,
    pub key: String,
    pub auto_increment: bool,
    pub indices: Vec<String>,
}

/// The four collections of a dictionary database: `dictionaries` indexed by
/// title, `tags`, `terms` indexed by expression and by reading, and `kanji`;
/// every one keyed by an auto-incremented `id`.
pub fn schema() -> (r: Vec<CollectionSchema>)
    ensures
        r@.len() == 4,
        r@[0].name@ == "dictionaries"@ && r@[0].indices@.len() == 1 && r@[0].indices@[0]@
            == "title"@,
        r@[1].name@ == "tags"@ && r@[1].indices@.len() == 0,
        r@[2].name@ == "terms"@ && r@[2].indices@.len() == 2 && r@[2].indices@[0]@
            == "expression"@ && r@[2].indices@[1]@ == "reading"@,
        r@[3].name@ == "kanji"@ && r@[3].indices@.len() == 0,
        forall|k: int| 0 <= k < 4 ==> (#[trigger] r@[k]).key@ == "id"@ && r@[k].auto_increment,
{
    let mut r: Vec<CollectionSchema> = Vec::new();
    let mut dict_indices: Vec<String> = Vec::new();
    dict_indices.push("title".to_owned());
    r.push(
        CollectionSchema {
            name: "dictionaries".to_owned(),
            key: "id".to_owned(),
            auto_increment: true,
            indices: dict_indices,
        },
    );
    r.push(
        CollectionSchema {
            name: "tags".to_owned(),
            key: "id".to_owned(),
            auto_increment: true,
            indices: Vec::new(),
        },
    );
    let mut term_indices: Vec<String> = Vec::new();
    term_indices.push("expression".to_owned());
    term_indices.push("reading".to_owned());
    r.push(
        CollectionSchema {
            name: "terms".to_owned(),
            key: "id".to_owned(),
            auto_increment: true,
            indices: term_indices,
        },
    );
    r.push(
        CollectionSchema {
            name: "kanji".to_owned(),
            key: "id".to_owned(),
            auto_increment: true,
            indices: Vec::new(),
        },
    );
    r
}

/// The values of a list of tags.
pub open spec fn tag_views(s: Seq<Tag>) -> Seq<TagV> {
    s.map_values(|t: Tag| t@)
}

/// The values of a list of terms.
pub open spec fn term_views(s: Seq<Term>) -> Seq<TermV> {
    s.map_values(|t: Term| t@)
}

/// The values of a list of kanji.
pub open spec fn kanji_views(s: Seq<Kanji>) -> Seq<KanjiV> {
    s.map_values(|k: Kanji| k@)
}

/// The list split into chunks of at most [`TRANSACTION_SIZE`] records, in
/// order.
pub open spec fn spec_chunks<A>(s: Seq<A>) -> Seq<Seq<A>>
    decreases s.len(),
{
    if s.len() == 0 {
        Seq::empty()
    } else if s.len() <= TRANSACTION_SIZE {
        seq![s]
    } else {
        seq![s.take(TRANSACTION_SIZE as int)] + spec_chunks(s.skip(TRANSACTION_SIZE as int))
    }
}

/// One unit of deferred insertion work: a chunk of stamped records bound for
/// one collection, committed in one transaction when driven.
pub enum InsertionStep {
    Tags(Vec<Tag>),
    Terms(Vec<Term>),
    Kanji(Vec<Kanji>),
}

/// The mathematical value of an [`InsertionStep`].
#[verifier::ext_equal]
pub ghost enum InsertionStepV {
    Tags(Seq<TagV>),
    Terms(Seq<TermV>),
    Kanji(Seq<KanjiV>),
}

impl View for InsertionStep {
    type V = InsertionStepV;

    open spec fn view(&self) -> InsertionStepV {
        match self {
            InsertionStep::Tags(v) => InsertionStepV::Tags(tag_views(v@)),
            InsertionStep::Terms(v) => InsertionStepV::Terms(term_views(v@)),
            InsertionStep::Kanji(v) => InsertionStepV::Kanji(kanji_views(v@)),
        }
    }
}

/// The number of records one step inserts.
pub open spec fn spec_step_count(s: InsertionStepV) -> nat {
    match s {
        InsertionStepV::Tags(v) => v.len(),
        InsertionStepV::Terms(v) => v.len(),
        InsertionStepV::Kanji(v) => v.len(),
    }
}

impl InsertionStep {
    /// The number of records this step inserts.
    pub fn count(&self) -> (r: usize)
        ensures
            r == spec_step_count(self@),
    {
        match self {
            InsertionStep::Tags(v) => v.len(),
            InsertionStep::Terms(v) => v.len(),
            InsertionStep::Kanji(v) => v.len(),
        }
    }
}

/// The values of a list of steps.
pub open spec fn step_views(s: Seq<InsertionStep>) -> Seq<InsertionStepV> {
    s.map_values(|x: InsertionStep| x@)
}

/// The records all steps insert, added up.
pub open spec fn spec_total(steps: Seq<InsertionStepV>) -> nat
    decreases steps.len(),
{
    if steps.len() == 0 {
        0
    } else {
        spec_total(steps.drop_last()) + spec_step_count(steps.last())
    }
}

/// The whole plan for one dictionary: the tag chunks, then the term chunks,
/// then the kanji chunks.
pub open spec fn spec_plan(tags: Seq<TagV>, terms: Seq<TermV>, kanji: Seq<KanjiV>) -> Seq<
    InsertionStepV,
> {
    spec_chunks(tags).map_values(|c: Seq<TagV>| InsertionStepV::Tags(c)) + spec_chunks(
        terms,
    ).map_values(|c: Seq<TermV>| InsertionStepV::Terms(c)) + spec_chunks(kanji).map_values(
        |c: Seq<KanjiV>| InsertionStepV::Kanji(c),
    )
}

/// A list of tags, each stamped with the dictionary it belongs to.
pub open spec fn stamped_tags(s: Seq<TagV>, dict_id: u8) -> Seq<TagV> {
    s.map_values(|t: TagV| (TagV { dict_id, ..t }))
}

/// A list of terms, each stamped with the dictionary it belongs to.
pub open spec fn stamped_terms(s: Seq<TermV>, dict_id: u8) -> Seq<TermV> {
    s.map_values(|t: TermV| (TermV { dict_id, ..t }))
}

/// A list of kanji, each stamped with the dictionary it belongs to.
pub open spec fn stamped_kanji(s: Seq<KanjiV>, dict_id: u8) -> Seq<KanjiV> {
    s.map_values(|k: KanjiV| (KanjiV { dict_id, ..k }))
}

/// The planned steps for one dictionary, with the record count they add up
/// to.
pub struct DictInsertionSteps {
    pub total_count: usize,
    pub steps: Vec<InsertionStep>,
}

fn stamp_tags(items: &mut Vec<Tag>, dict_id: u8)
    ensures
        tag_views(final(items)@) == stamped_tags(tag_views(old(items)@), dict_id),
{
    let mut j: usize = 0;
    while j < items.len()
        invariant
            items@.len() == old(items)@.len(),
            forall|k: int|
                0 <= k < j ==> items@[k]@ == (TagV { dict_id, ..old(items)@[k]@ }),
            forall|k: int| j <= k < items@.len() ==> items@[k] == old(items)@[k],
        decreases items@.len() - j,
    {
        items[j].set_dict_id(dict_id);
        j += 1;
    }
    proof {
        assert(tag_views(items@) =~~= stamped_tags(tag_views(old(items)@), dict_id));
    }
}

fn stamp_terms(items: &mut Vec<Term>, dict_id: u8)
    ensures
        term_views(final(items)@) == stamped_terms(term_views(old(items)@), dict_id),
{
    let mut j: usize = 0;
    while j < items.len()
        invariant
            items@.len() == old(items)@.len(),
            forall|k: int|
                0 <= k < j ==> items@[k]@ == (TermV { dict_id, ..old(items)@[k]@ }),
            forall|k: int| j <= k < items@.len() ==> items@[k] == old(items)@[k],
        decreases items@.len() - j,
    {
        items[j].set_dict_id(dict_id);
        j += 1;
    }
    proof {
        assert(term_views(items@) =~~= stamped_terms(term_views(old(items)@), dict_id));
    }
}

fn stamp_kanji(items: &mut Vec<Kanji>, dict_id: u8)
    ensures
        kanji_views(final(items)@) == stamped_kanji(kanji_views(old(items)@), dict_id),
{
    let mut j: usize = 0;
    while j < items.len()
        invariant
            items@.len() == old(items)@.len(),
            forall|k: int|
                0 <= k < j ==> items@[k]@ == (KanjiV { dict_id, ..old(items)@[k]@ }),
            forall|k: int| j <= k < items@.len() ==> items@[k] == old(items)@[k],
        decreases items@.len() - j,
    {
        items[j].set_dict_id(dict_id);
        j += 1;
    }
    proof {
        assert(kanji_views(items@) =~~= stamped_kanji(kanji_views(old(items)@), dict_id));
    }
}

fn chunk_tags(items: Vec<Tag>, steps: &mut Vec<InsertionStep>)
    ensures
        step_views(final(steps)@) == step_views(old(steps)@) + spec_chunks(
            tag_views(items@),
        ).map_values(|c: Seq<TagV>| InsertionStepV::Tags(c)),
{
    let ghost f = |c: Seq<TagV>| InsertionStepV::Tags(c);
    let ghost whole = step_views(old(steps)@) + spec_chunks(tag_views(items@)).map_values(f);
    let mut remaining = items;
    while remaining.len() > 0
        invariant
            whole == step_views(steps@) + spec_chunks(tag_views(remaining@)).map_values(f),
            f == (|c: Seq<TagV>| InsertionStepV::Tags(c)),
        decreases remaining@.len(),
    {
        let ghost rv = tag_views(remaining@);
        let ghost pre_steps = step_views(steps@);
        if remaining.len() > TRANSACTION_SIZE {
            let rest = remaining.split_off(TRANSACTION_SIZE);
            proof {
                assert(tag_views(remaining@) =~~= rv.take(TRANSACTION_SIZE as int));
                assert(tag_views(rest@) =~~= rv.skip(TRANSACTION_SIZE as int));
                assert(spec_chunks(rv) == seq![rv.take(TRANSACTION_SIZE as int)] + spec_chunks(
                    rv.skip(TRANSACTION_SIZE as int),
                ));
            }
            steps.push(InsertionStep::Tags(remaining));
            proof {
                assert(step_views(steps@) =~~= pre_steps.push(
                    InsertionStepV::Tags(rv.take(TRANSACTION_SIZE as int)),
                ));
                assert(spec_chunks(rv).map_values(f) =~~= seq![
                    InsertionStepV::Tags(rv.take(TRANSACTION_SIZE as int)),
                ] + spec_chunks(rv.skip(TRANSACTION_SIZE as int)).map_values(f));
                assert(pre_steps + spec_chunks(rv).map_values(f) =~~= step_views(steps@)
                    + spec_chunks(rv.skip(TRANSACTION_SIZE as int)).map_values(f));
            }
            remaining = rest;
            proof {
                assert(whole == step_views(steps@) + spec_chunks(
                    tag_views(remaining@),
                ).map_values(f));
            }
        } else {
            proof {
                assert(spec_chunks(rv) == seq![rv]);
            }
            steps.push(InsertionStep::Tags(remaining));
            remaining = Vec::new();
            proof {
                assert(step_views(steps@) =~~= pre_steps.push(InsertionStepV::Tags(rv)));
                assert(spec_chunks(rv).map_values(f) =~~= seq![InsertionStepV::Tags(rv)]);
                assert(pre_steps + spec_chunks(rv).map_values(f) =~~= step_views(steps@));
                assert(tag_views(remaining@) =~~= Seq::<TagV>::empty());
                assert(spec_chunks(tag_views(remaining@)).map_values(f) =~~= Seq::<
                    InsertionStepV,
                >::empty());
                assert(whole == step_views(steps@) + spec_chunks(
                    tag_views(remaining@),
                ).map_values(f));
            }
        }
    }
    proof {
        assert(spec_chunks(tag_views(remaining@)).map_values(f) =~~= Seq::<
            InsertionStepV,
        >::empty());
        assert(step_views(steps@) =~~= whole);
    }
}

fn chunk_terms(items: Vec<Term>, steps: &mut Vec<InsertionStep>)
    ensures
        step_views(final(steps)@) == step_views(old(steps)@) + spec_chunks(
            term_views(items@),
        ).map_values(|c: Seq<TermV>| InsertionStepV::Terms(c)),
{
    let ghost f = |c: Seq<TermV>| InsertionStepV::Terms(c);
    let ghost whole = step_views(old(steps)@) + spec_chunks(term_views(items@)).map_values(f);
    let mut remaining = items;
    while remaining.len() > 0
        invariant
            whole == step_views(steps@) + spec_chunks(term_views(remaining@)).map_values(f),
            f == (|c: Seq<TermV>| InsertionStepV::Terms(c)),
        decreases remaining@.len(),
    {
        let ghost rv = term_views(remaining@);
        let ghost pre_steps = step_views(steps@);
        if remaining.len() > TRANSACTION_SIZE {
            let rest = remaining.split_off(TRANSACTION_SIZE);
            proof {
                assert(term_views(remaining@) =~~= rv.take(TRANSACTION_SIZE as int));
                assert(term_views(rest@) =~~= rv.skip(TRANSACTION_SIZE as int));
                assert(spec_chunks(rv) == seq![rv.take(TRANSACTION_SIZE as int)] + spec_chunks(
                    rv.skip(TRANSACTION_SIZE as int),
                ));
            }
            steps.push(InsertionStep::Terms(remaining));
            proof {
                assert(step_views(steps@) =~~= pre_steps.push(
                    InsertionStepV::Terms(rv.take(TRANSACTION_SIZE as int)),
                ));
                assert(spec_chunks(rv).map_values(f) =~~= seq![
                    InsertionStepV::Terms(rv.take(TRANSACTION_SIZE as int)),
                ] + spec_chunks(rv.skip(TRANSACTION_SIZE as int)).map_values(f));
                assert(pre_steps + spec_chunks(rv).map_values(f) =~~= step_views(steps@)
                    + spec_chunks(rv.skip(TRANSACTION_SIZE as int)).map_values(f));
            }
            remaining = rest;
            proof {
                assert(whole == step_views(steps@) + spec_chunks(
                    term_views(remaining@),
                ).map_values(f));
            }
        } else {
            proof {
                assert(spec_chunks(rv) == seq![rv]);
            }
            steps.push(InsertionStep::Terms(remaining));
            remaining = Vec::new();
            proof {
                assert(step_views(steps@) =~~= pre_steps.push(InsertionStepV::Terms(rv)));
                assert(spec_chunks(rv).map_values(f) =~~= seq![InsertionStepV::Terms(rv)]);
                assert(pre_steps + spec_chunks(rv).map_values(f) =~~= step_views(steps@));
                assert(term_views(remaining@) =~~= Seq::<TermV>::empty());
                assert(spec_chunks(term_views(remaining@)).map_values(f) =~~= Seq::<
                    InsertionStepV,
                >::empty());
                assert(whole == step_views(steps@) + spec_chunks(
                    term_views(remaining@),
                ).map_values(f));
            }
        }
    }
    proof {
        assert(spec_chunks(term_views(remaining@)).map_values(f) =~~= Seq::<
            InsertionStepV,
        >::empty());
        assert(step_views(steps@) =~~= whole);
    }
}

fn chunk_kanji(items: Vec<Kanji>, steps: &mut Vec<InsertionStep>)
    ensures
        step_views(final(steps)@) == step_views(old(steps)@) + spec_chunks(
            kanji_views(items@),
        ).map_values(|c: Seq<KanjiV>| InsertionStepV::Kanji(c)),
{
    let ghost f = |c: Seq<KanjiV>| InsertionStepV::Kanji(c);
    let ghost whole = step_views(old(steps)@) + spec_chunks(kanji_views(items@)).map_values(f);
    let mut remaining = items;
    while remaining.len() > 0
        invariant
            whole == step_views(steps@) + spec_chunks(kanji_views(remaining@)).map_values(f),
            f == (|c: Seq<KanjiV>| InsertionStepV::Kanji(c)),
        decreases remaining@.len(),
    {
        let ghost rv = kanji_views(remaining@);
        let ghost pre_steps = step_views(steps@);
        if remaining.len() > TRANSACTION_SIZE {
            let rest = remaining.split_off(TRANSACTION_SIZE);
            proof {
                assert(kanji_views(remaining@) =~~= rv.take(TRANSACTION_SIZE as int));
                assert(kanji_views(rest@) =~~= rv.skip(TRANSACTION_SIZE as int));
                assert(spec_chunks(rv) == seq![rv.take(TRANSACTION_SIZE as int)] + spec_chunks(
                    rv.skip(TRANSACTION_SIZE as int),
                ));
            }
            steps.push(InsertionStep::Kanji(remaining));
            proof {
                assert(step_views(steps@) =~~= pre_steps.push(
                    InsertionStepV::Kanji(rv.take(TRANSACTION_SIZE as int)),
                ));
                assert(spec_chunks(rv).map_values(f) =~~= seq![
                    InsertionStepV::Kanji(rv.take(TRANSACTION_SIZE as int)),
                ] + spec_chunks(rv.skip(TRANSACTION_SIZE as int)).map_values(f));
                assert(pre_steps + spec_chunks(rv).map_values(f) =~~= step_views(steps@)
                    + spec_chunks(rv.skip(TRANSACTION_SIZE as int)).map_values(f));
            }
            remaining = rest;
            proof {
                assert(whole == step_views(steps@) + spec_chunks(
                    kanji_views(remaining@),
                ).map_values(f));
            }
        } else {
            proof {
                assert(spec_chunks(rv) == seq![rv]);
            }
            steps.push(InsertionStep::Kanji(remaining));
            remaining = Vec::new();
            proof {
                assert(step_views(steps@) =~~= pre_steps.push(InsertionStepV::Kanji(rv)));
                assert(spec_chunks(rv).map_values(f) =~~= seq![InsertionStepV::Kanji(rv)]);
                assert(pre_steps + spec_chunks(rv).map_values(f) =~~= step_views(steps@));
                assert(kanji_views(remaining@) =~~= Seq::<KanjiV>::empty());
                assert(spec_chunks(kanji_views(remaining@)).map_values(f) =~~= Seq::<
                    InsertionStepV,
                >::empty());
                assert(whole == step_views(steps@) + spec_chunks(
                    kanji_views(remaining@),
                ).map_values(f));
            }
        }
    }
    proof {
        assert(spec_chunks(kanji_views(remaining@)).map_values(f) =~~= Seq::<
            InsertionStepV,
        >::empty());
        assert(step_views(steps@) =~~= whole);
    }
}

/// The chunked insertion plan for one dictionary. If a dictionary of the
/// same title is already present, re-ingestion is a silent no-op: no steps
/// and a total of zero. Otherwise every record is stamped with `dict_id` and
/// chunked, tags first, then terms, then kanji, and the records that all
/// steps insert add up to `total_count`, the number of records of the
/// dictionary.
pub fn plan_dict_insertion(dict: Dict, dict_id: u8, already_present: bool) -> (r:
    DictInsertionSteps)
    requires
        dict.tags@.len() + dict.terms@.len() + dict.kanji@.len() <= usize::MAX,
    ensures
        already_present ==> r.total_count == 0 && r.steps@.len() == 0,
        !already_present ==> r.total_count == dict.tags@.len() + dict.terms@.len()
            + dict.kanji@.len() && step_views(r.steps@) == spec_plan(
            stamped_tags(tag_views(dict.tags@), dict_id),
            stamped_terms(term_views(dict.terms@), dict_id),
            stamped_kanji(kanji_views(dict.kanji@), dict_id),
        ),
        spec_total(step_views(r.steps@)) == r.total_count,
{
    if already_present {
        let r = DictInsertionSteps { total_count: 0, steps: Vec::new() };
        proof {
            assert(step_views(r.steps@) =~~= Seq::<InsertionStepV>::empty());
        }
        return r;
    }
    let Dict { index: _, mut terms, mut kanji, mut tags } = dict;
    let total_count = tags.len() + terms.len() + kanji.len();
    stamp_tags(&mut tags, dict_id);
    stamp_terms(&mut terms, dict_id);
    stamp_kanji(&mut kanji, dict_id);
    let mut steps: Vec<InsertionStep> = Vec::new();
    proof {
        assert(step_views(steps@) =~~= Seq::<InsertionStepV>::empty());
    }
    chunk_tags(tags, &mut steps);
    chunk_terms(terms, &mut steps);
    chunk_kanji(kanji, &mut steps);
    proof {
        assert(step_views(steps@) =~~= spec_plan(
            stamped_tags(tag_views(dict.tags@), dict_id),
            stamped_terms(term_views(dict.terms@), dict_id),
            stamped_kanji(kanji_views(dict.kanji@), dict_id),
        ));
        lemma_plan_total(
            stamped_tags(tag_views(dict.tags@), dict_id),
            stamped_terms(term_views(dict.terms@), dict_id),
            stamped_kanji(kanji_views(dict.kanji@), dict_id),
        );
    }
    DictInsertionSteps { total_count, steps }
}

proof fn lemma_total_concat(a: Seq<InsertionStepV>, b: Seq<InsertionStepV>)
    ensures
        spec_total(a + b) == spec_total(a) + spec_total(b),
    decreases b.len(),
{
    if b.len() == 0 {
        assert(a + b =~= a);
    } else {
        lemma_total_concat(a, b.drop_last());
        assert((a + b).drop_last() =~= a + b.drop_last());
        assert((a + b).last() == b.last());
    }
}

proof fn lemma_total_tag_chunks(s: Seq<TagV>)
    ensures
        spec_total(spec_chunks(s).map_values(|c: Seq<TagV>| InsertionStepV::Tags(c))) == s.len(),
    decreases s.len(),
{
    let f = |c: Seq<TagV>| InsertionStepV::Tags(c);
    if s.len() == 0 {
    } else if s.len() <= TRANSACTION_SIZE {
        assert(spec_chunks(s).map_values(f) =~= seq![InsertionStepV::Tags(s)]);
        assert(seq![InsertionStepV::Tags(s)].drop_last() =~= Seq::<InsertionStepV>::empty());
        assert(spec_total(Seq::<InsertionStepV>::empty()) == 0);
        assert(spec_total(seq![InsertionStepV::Tags(s)]) == s.len());
    } else {
        lemma_total_tag_chunks(s.skip(TRANSACTION_SIZE as int));
        let head = seq![s.take(TRANSACTION_SIZE as int)];
        let tail = spec_chunks(s.skip(TRANSACTION_SIZE as int));
        assert(spec_chunks(s).map_values(f) =~= head.map_values(f) + tail.map_values(f));
        lemma_total_concat(head.map_values(f), tail.map_values(f));
        assert(head.map_values(f) =~= seq![f(head[0])]);
        assert(seq![f(head[0])].drop_last() =~= Seq::<InsertionStepV>::empty());
        assert(spec_total(Seq::<InsertionStepV>::empty()) == 0);
        assert(spec_total(head.map_values(f)) == TRANSACTION_SIZE);
    }
}

proof fn lemma_total_term_chunks(s: Seq<TermV>)
    ensures
        spec_total(spec_chunks(s).map_values(|c: Seq<TermV>| InsertionStepV::Terms(c))) == s.len(),
    decreases s.len(),
{
    let f = |c: Seq<TermV>| InsertionStepV::Terms(c);
    if s.len() == 0 {
    } else if s.len() <= TRANSACTION_SIZE {
        assert(spec_chunks(s).map_values(f) =~= seq![InsertionStepV::Terms(s)]);
        assert(seq![InsertionStepV::Terms(s)].drop_last() =~= Seq::<InsertionStepV>::empty());
        assert(spec_total(Seq::<InsertionStepV>::empty()) == 0);
        assert(spec_total(seq![InsertionStepV::Terms(s)]) == s.len());
    } else {
        lemma_total_term_chunks(s.skip(TRANSACTION_SIZE as int));
        let head = seq![s.take(TRANSACTION_SIZE as int)];
        let tail = spec_chunks(s.skip(TRANSACTION_SIZE as int));
        assert(spec_chunks(s).map_values(f) =~= head.map_values(f) + tail.map_values(f));
        lemma_total_concat(head.map_values(f), tail.map_values(f));
        assert(head.map_values(f) =~= seq![f(head[0])]);
        assert(seq![f(head[0])].drop_last() =~= Seq::<InsertionStepV>::empty());
        assert(spec_total(Seq::<InsertionStepV>::empty()) == 0);
        assert(spec_total(head.map_values(f)) == TRANSACTION_SIZE);
    }
}

proof fn lemma_total_kanji_chunks(s: Seq<KanjiV>)
    ensures
        spec_total(spec_chunks(s).map_values(|c: Seq<KanjiV>| InsertionStepV::Kanji(c))) == s.len(),
    decreases s.len(),
{
    let f = |c: Seq<KanjiV>| InsertionStepV::Kanji(c);
    if s.len() == 0 {
    } else if s.len() <= TRANSACTION_SIZE {
        assert(spec_chunks(s).map_values(f) =~= seq![InsertionStepV::Kanji(s)]);
        assert(seq![InsertionStepV::Kanji(s)].drop_last() =~= Seq::<InsertionStepV>::empty());
        assert(spec_total(Seq::<InsertionStepV>::empty()) == 0);
        assert(spec_total(seq![InsertionStepV::Kanji(s)]) == s.len());
    } else {
        lemma_total_kanji_chunks(s.skip(TRANSACTION_SIZE as int));
        let head = seq![s.take(TRANSACTION_SIZE as int)];
        let tail = spec_chunks(s.skip(TRANSACTION_SIZE as int));
        assert(spec_chunks(s).map_values(f) =~= head.map_values(f) + tail.map_values(f));
        lemma_total_concat(head.map_values(f), tail.map_values(f));
        assert(head.map_values(f) =~= seq![f(head[0])]);
        assert(seq![f(head[0])].drop_last() =~= Seq::<InsertionStepV>::empty());
        assert(spec_total(Seq::<InsertionStepV>::empty()) == 0);
        assert(spec_total(head.map_values(f)) == TRANSACTION_SIZE);
    }
}

/// The records of all planned steps add up to the number of records of the
/// dictionary: driving every step to completion inserts exactly the whole
/// dictionary.
pub proof fn lemma_plan_total(tags: Seq<TagV>, terms: Seq<TermV>, kanji: Seq<KanjiV>)
    ensures
        spec_total(spec_plan(tags, terms, kanji)) == tags.len() + terms.len() + kanji.len(),
{
    let a = spec_chunks(tags).map_values(|c: Seq<TagV>| InsertionStepV::Tags(c));
    let b = spec_chunks(terms).map_values(|c: Seq<TermV>| InsertionStepV::Terms(c));
    let c = spec_chunks(kanji).map_values(|c: Seq<KanjiV>| InsertionStepV::Kanji(c));
    lemma_total_tag_chunks(tags);
    lemma_total_term_chunks(terms);
    lemma_total_kanji_chunks(kanji);
    lemma_total_concat(a, b);
    lemma_total_concat(a + b, c);
}

/// An object as the store keys it: the auto-incremented primary key.
pub struct IdObject {
    pub id: u32,
}

/// Whether some pair in the list carries the given primary key.
pub open spec fn spec_has_id(s: Seq<(u32, TermV)>, id: u32) -> bool {
    exists|j: int| 0 <= j < s.len() && (#[trigger] s[j]).0 == id
}

/// The terms of the list with duplicate primary keys dropped, first
/// occurrence kept, in order.
pub open spec fn spec_dedup_by_id(s: Seq<(u32, TermV)>) -> Seq<TermV>
    decreases s.len(),
{
    if s.len() == 0 {
        Seq::empty()
    } else {
        spec_dedup_by_id(s.drop_last()) + (if spec_has_id(s.drop_last(), s.last().0) {
            Seq::empty()
        } else {
            seq![s.last().1]
        })
    }
}

/// The values of a list of keyed terms.
pub open spec fn pair_views(s: Seq<(IdObject, Term)>) -> Seq<(u32, TermV)> {
    s.map_values(|p: (IdObject, Term)| (p.0.id, p.1@))
}

fn contains_u32(v: &Vec<u32>, x: u32) -> (r: bool)
    ensures
        r == v@.contains(x),
{
    let mut i: usize = 0;
    while i < v.len()
        invariant
            i <= v.len(),
            forall|t: int| 0 <= t < i ==> v@[t] != x,
        decreases v.len() - i,
    {
        if v[i] == x {
            return true;
        }
        i += 1;
    }
    false
}

/// The union of index lookups, de-duplicated by primary key: of all records
/// returned under the same key only the first survives, and order is kept.
pub fn dedup_terms_by_id(results: Vec<(IdObject, Term)>) -> (r: Vec<Term>)
    ensures
        term_views(r@) == spec_dedup_by_id(pair_views(results@)),
{
    let ghost orig = pair_views(results@);
    let mut input = results;
    let mut seen: Vec<u32> = Vec::new();
    let mut out: Vec<Term> = Vec::new();
    let ghost mut done: Seq<(u32, TermV)> = Seq::empty();
    while input.len() > 0
        invariant
            orig == done + pair_views(input@),
            forall|id: u32| seen@.contains(id) <==> spec_has_id(done, id),
            term_views(out@) == spec_dedup_by_id(done),
        decreases input@.len(),
    {
        let ghost prev = pair_views(input@);
        let (key, term) = input.remove(0);
        proof {
            assert(prev[0] == (key.id, term@));
            assert(prev.remove(0) =~= pair_views(input@));
            assert(orig =~= (done.push((key.id, term@))) + pair_views(input@));
        }
        let is_dup = contains_u32(&seen, key.id);
        let ghost pushed = done.push((key.id, term@));
        proof {
            assert(pushed.drop_last() =~= done);
            assert(is_dup == spec_has_id(done, key.id));
            assert forall|id: u32| spec_has_id(pushed, id) implies (spec_has_id(done, id) || id
                == key.id) by {
                let j = choose|j: int| 0 <= j < pushed.len() && (#[trigger] pushed[j]).0 == id;
                if j < done.len() {
                    assert(done[j].0 == id);
                }
            }
            assert(spec_has_id(pushed, key.id)) by {
                assert(pushed[pushed.len() - 1].0 == key.id);
            }
            assert forall|id: u32| spec_has_id(done, id) implies spec_has_id(pushed, id) by {
                let j = choose|j: int| 0 <= j < done.len() && (#[trigger] done[j]).0 == id;
                assert(pushed[j].0 == id);
            }
        }
        if !is_dup {
            let ghost pre_seen = seen@;
            let ghost pre_done = done;
            seen.push(key.id);
            out.push(term);
            proof {
                done = pushed;
                assert(term_views(out@) =~~= spec_dedup_by_id(done));
                assert forall|id: u32| seen@.contains(id) implies spec_has_id(done, id) by {
                    let j = choose|j: int| 0 <= j < seen@.len() && seen@[j] == id;
                    if j < pre_seen.len() {
                        assert(pre_seen[j] == id);
                        assert(pre_seen.contains(id));
                    }
                }
                assert forall|id: u32| spec_has_id(done, id) implies seen@.contains(id) by {
                    if spec_has_id(pre_done, id) {
                        assert(pre_seen.contains(id));
                        let j = choose|j: int| 0 <= j < pre_seen.len() && pre_seen[j] == id;
                        assert(seen@[j] == id);
                    } else {
                        assert(id == key.id);
                        assert(seen@[seen@.len() - 1] == id);
                    }
                }
            }
        } else {
            proof {
                done = pushed;
                assert(term_views(out@) =~~= spec_dedup_by_id(done));
            }
        }
    }
    proof {
        assert(pair_views(input@) =~= Seq::<(u32, TermV)>::empty());
        assert(done =~= orig);
    }
    out
}

} // verus!
