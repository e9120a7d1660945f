use yomi_dict::{
    dedup_terms_by_id, plan_dict_insertion, schema, Dict, Format, IdObject, Index, InsertionStep,
    Kanji, KanjiTuple, Rules, Score, Tag, TagTuple, Term, TermTuple,
};

fn index(title: &str) -> Index {
    Index {
        title: title.to_string(),
        revision: "1".to_string(),
        sequenced: None,
        format: Format::V3,
        author: None,
        url: None,
        description: None,
        attribution: None,
        frequency_mode: None,
    }
}

fn term(expression: &str) -> Term {
    Term::from(TermTuple(
        expression.to_string(),
        String::new(),
        None,
        Rules { mask: 0x01 },
        Score(0),
        vec!["gloss".to_string()],
        0,
        String::new(),
    ))
}

fn tag(name: &str) -> Tag {
    Tag::from(TagTuple(
        name.to_string(),
        "cat".to_string(),
        Score(0),
        String::new(),
        Score(0),
    ))
}

fn kanji(character: &str) -> Kanji {
    Kanji::from(KanjiTuple(
        character.to_string(),
        String::new(),
        String::new(),
        String::new(),
        vec![],
        vec![],
    ))
}

fn small_dict(title: &str) -> Dict {
    Dict {
        index: index(title),
        terms: vec![term("a"), term("b"), term("c")],
        kanji: vec![kanji("字")],
        tags: vec![tag("t1"), tag("t2")],
    }
}

#[test]
fn duplicate_dictionary_is_a_silent_noop() {
    let plan = plan_dict_insertion(small_dict("dup"), 1, true);
    assert_eq!(plan.total_count, 0);
    assert!(plan.steps.is_empty());
}

#[test]
fn stepwise_counts_add_up_to_total() {
    let mut terms = Vec::new();
    for i in 0..2500 {
        terms.push(term(&format!("t{i}")));
    }
    let dict = Dict {
        index: index("big"),
        terms,
        kanji: vec![kanji("字")],
        tags: vec![tag("t1"), tag("t2")],
    };
    let plan = plan_dict_insertion(dict, 1, false);
    assert_eq!(plan.total_count, 2500 + 1 + 2);
    assert!(plan.steps.len() >= 3);
    let mut sum = 0;
    for step in &plan.steps {
        let n = step.count();
        assert!(n >= 1 && n <= 1000);
        sum += n;
    }
    assert_eq!(sum, plan.total_count);
}

#[test]
fn steps_chunk_in_collection_order() {
    let mut terms = Vec::new();
    for i in 0..1500 {
        terms.push(term(&format!("t{i}")));
    }
    let dict = Dict {
        index: index("chunked"),
        terms,
        kanji: vec![kanji("字")],
        tags: vec![tag("t1")],
    };
    let plan = plan_dict_insertion(dict, 4, false);
    // one tag chunk, two term chunks (1000 + 500), one kanji chunk
    assert_eq!(plan.steps.len(), 4);
    assert!(matches!(&plan.steps[0], InsertionStep::Tags(v) if v.len() == 1));
    assert!(matches!(&plan.steps[1], InsertionStep::Terms(v) if v.len() == 1000));
    assert!(matches!(&plan.steps[2], InsertionStep::Terms(v) if v.len() == 500));
    assert!(matches!(&plan.steps[3], InsertionStep::Kanji(v) if v.len() == 1));
}

#[test]
fn records_are_stamped_with_dict_id() {
    let plan = plan_dict_insertion(small_dict("stamped"), 5, false);
    for step in &plan.steps {
        match step {
            InsertionStep::Tags(v) => {
                for t in v {
                    assert_eq!(t.dict_id, 5);
                }
            }
            InsertionStep::Terms(v) => {
                for t in v {
                    assert_eq!(t.dict_id, 5);
                }
            }
            InsertionStep::Kanji(v) => {
                for k in v {
                    assert_eq!(k.dict_id, 5);
                }
            }
        }
    }
}

#[test]
fn dedup_keeps_first_record_per_key() {
    let rows = vec![
        (IdObject { id: 1 }, term("first")),
        (IdObject { id: 2 }, term("second")),
        (IdObject { id: 1 }, term("shadowed")),
        (IdObject { id: 3 }, term("third")),
        (IdObject { id: 2 }, term("also shadowed")),
    ];
    let unique = dedup_terms_by_id(rows);
    let expressions: Vec<&str> = unique.iter().map(|t| t.expression.as_str()).collect();
    assert_eq!(expressions, vec!["first", "second", "third"]);
}

#[test]
fn schema_has_four_indexed_collections() {
    let s = schema();
    assert_eq!(s.len(), 4);
    assert_eq!(s[0].name, "dictionaries");
    assert_eq!(s[0].indices, vec!["title".to_string()]);
    assert_eq!(s[1].name, "tags");
    assert!(s[1].indices.is_empty());
    assert_eq!(s[2].name, "terms");
    assert_eq!(s[2].indices, vec!["expression".to_string(), "reading".to_string()]);
    assert_eq!(s[3].name, "kanji");
    assert!(s[3].indices.is_empty());
    for c in &s {
        assert_eq!(c.key, "id");
        assert!(c.auto_increment);
    }
}

#[test]
fn empty_dictionary_plans_no_steps() {
    let dict = Dict { index: index("empty"), terms: vec![], kanji: vec![], tags: vec![] };
    let plan = plan_dict_insertion(dict, 1, false);
    assert_eq!(plan.total_count, 0);
    assert!(plan.steps.is_empty());
}
