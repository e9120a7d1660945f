use yomi_dict::{from_string, inflection_reasons, mutate, strip_sound_marks, Deinflectable, Deinflection, Format, Kanji, KanjiTuple, Rule, Rules, Score, Tag, TagTuple, Term, TermTuple};

#[test]
fn rule_tokens_parse() {
    assert_eq!(Rule::try_from("v1").unwrap(), Rule::V1);
    assert_eq!(Rule::try_from("v5").unwrap(), Rule::V5);
    assert_eq!(Rule::try_from("vs").unwrap(), Rule::Vs);
    assert_eq!(Rule::try_from("vk").unwrap(), Rule::Vk);
    assert_eq!(Rule::try_from("vz").unwrap(), Rule::Vz);
    assert_eq!(Rule::try_from("adj-i").unwrap(), Rule::AdjI);
    assert_eq!(Rule::try_from("iru").unwrap(), Rule::Iru);
    assert_eq!(Rule::try_from("v7"), Err("v7".to_string()));
    assert_eq!(Rule::try_from(""), Err(String::new()));
}

#[test]
fn rule_set_operations() {
    let empty = Rules::empty();
    assert!(empty.is_empty());
    assert!(!empty.contains(Rule::V1));

    let set = Rules::empty().with(Rule::V1).with(Rule::AdjI);
    assert!(!set.is_empty());
    assert!(set.contains(Rule::V1));
    assert!(set.contains(Rule::AdjI));
    assert!(!set.contains(Rule::V5));

    let other = Rules::empty().with(Rule::AdjI);
    assert!(set.intersects(&other));
    assert!(!set.intersects(&Rules::empty().with(Rule::Vk)));
}

#[test]
fn rules_string_parses_space_separated_tokens() {
    assert_eq!(from_string("v1").unwrap(), Rules { mask: 0x01 });
    assert_eq!(from_string("v1 v5").unwrap(), Rules { mask: 0x03 });
    assert_eq!(from_string("").unwrap(), Rules { mask: 0 });
    assert_eq!(from_string("   ").unwrap(), Rules { mask: 0 });
    assert_eq!(from_string("  adj-i   iru ").unwrap(), Rules { mask: 0x60 });
    assert_eq!(from_string("v1 nope v5"), Err("nope".to_string()));
    // tokens that are wholly whitespace are skipped, and tokens are trimmed
    assert_eq!(from_string("v1 \t").unwrap(), Rules { mask: 0x01 });
    assert_eq!(from_string("\u{3000} v5\t \n").unwrap(), Rules { mask: 0x02 });
    assert_eq!(from_string("v1\t v5"), Ok(Rules { mask: 0x03 }));
    assert_eq!(from_string(" \tnope "), Err("nope".to_string()));
}

#[test]
fn sound_marks_are_stripped() {
    assert_eq!(strip_sound_marks("abc"), "abc");
    assert_eq!(strip_sound_marks("\u{ff9e}"), "");
    assert_eq!(strip_sound_marks("a\u{ff9e}b\u{ff9f}c"), "abc");
    assert_eq!(strip_sound_marks("\u{ff76}\u{ff9e}"), "\u{ff76}");
}

#[test]
fn format_generations() {
    assert_eq!(Format::try_from(2).unwrap(), Format::V2);
    assert_eq!(Format::try_from(3).unwrap(), Format::V3);
    assert_eq!(Format::try_from(1), Err(1));
    assert_eq!(Format::try_from(4), Err(4));
}

#[test]
fn term_from_tuple_defaults_empty_reading() {
    let t = TermTuple(
        "食べる".to_string(),
        String::new(),
        Some("tag".to_string()),
        Rules { mask: 0x01 },
        Score(42),
        vec!["to eat".to_string()],
        7,
        "common".to_string(),
    );
    let term = Term::from(t);
    assert_eq!(term.expression, "食べる");
    assert_eq!(term.reading, "食べる");
    assert_eq!(term.definition_tags, Some("tag".to_string()));
    assert_eq!(term.score, Score(42));
    assert_eq!(term.glossary, vec!["to eat".to_string()]);
    assert_eq!(term.sequence, 7);
    assert_eq!(term.term_tags, "common");
    assert_eq!(term.dict_id, 0);

    let t = TermTuple(
        "食べる".to_string(),
        "たべる".to_string(),
        None,
        Rules { mask: 0x01 },
        Score(0),
        vec![],
        0,
        String::new(),
    );
    assert_eq!(Term::from(t).reading, "たべる");
}

#[test]
fn tag_from_tuple() {
    let t = TagTuple(
        "name".to_string(),
        "category".to_string(),
        Score(3),
        "notes".to_string(),
        Score(-1),
    );
    let mut tag = Tag::from(t);
    assert_eq!(tag.name, "name");
    assert_eq!(tag.category, "category");
    assert_eq!(tag.order, Score(3));
    assert_eq!(tag.notes, "notes");
    assert_eq!(tag.score, Score(-1));
    assert_eq!(tag.dict_id, 0);
    tag.set_dict_id(9);
    assert_eq!(tag.dict_id, 9);
}

#[test]
fn kanji_from_tuple() {
    let t = KanjiTuple(
        "字".to_string(),
        "ジ".to_string(),
        "あざ".to_string(),
        "jouyou".to_string(),
        vec!["character".to_string()],
        vec![("grade".to_string(), "1".to_string())],
    );
    let mut kanji = Kanji::from(t);
    assert_eq!(kanji.character, "字");
    assert_eq!(kanji.onyomi, "ジ");
    assert_eq!(kanji.kunyomi, "あざ");
    assert_eq!(kanji.tags, "jouyou");
    assert_eq!(kanji.meanings, vec!["character".to_string()]);
    assert_eq!(kanji.stats, vec![("grade".to_string(), "1".to_string())]);
    assert_eq!(kanji.dict_id, 0);
    kanji.set_dict_id(3);
    assert_eq!(kanji.dict_id, 3);
}

#[test]
fn mutate_gives_three_forms() {
    let m = mutate("kika");
    assert_eq!(m.len(), 3);
    assert_eq!(m[0], "kika");
    assert_eq!(m[1], "きか");
    assert_eq!(m[2], "キカ");

    let m = mutate("キカ");
    assert_eq!(m[0], "キカ");
    assert_eq!(m[1], "きか");
    assert_eq!(m[2], "キカ");
}

#[test]
fn rules_from_a_list_of_tags() {
    let r = Rules::from(&vec![Rule::V1, Rule::Vs]);
    assert!(r.contains(Rule::V1));
    assert!(r.contains(Rule::Vs));
    assert!(!r.contains(Rule::V5));
    assert!(Rules::from(&vec![]).is_empty());
}

#[test]
fn deinflection_parts() {
    let d = Deinflection::new(
        "たべる".to_string(),
        Rules::empty().with(Rule::V1),
        "たべた".to_string(),
        vec!["past".to_string()],
    );
    assert_eq!(d.term, "たべる");
    assert_eq!(d.source, "たべた");
    assert_eq!(d.reasons, vec!["past".to_string()]);
    assert!(d.rules.contains(Rule::V1));
}

#[test]
fn deinflectable_methods_forward() {
    let reasons = inflection_reasons();
    let via_trait = "たべた".word_deinflections(&reasons);
    assert!(via_trait.iter().any(|d| d.term == "たべる"));
    let via_trait = "たべた".string_deinflections(&reasons);
    assert!(via_trait.iter().any(|d| d.term == "たべる"));
}
