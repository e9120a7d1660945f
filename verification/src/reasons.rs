//! The embedded table of grammatical reasons: the rewrite rules that drive
//! deinflection, one entry per reason, each with its ordered variants. The
//! spec-level table [`spec_standard_reasons`] states the whole value, and
//! [`inflection_reasons`] is proved to return exactly it.

use vstd::prelude::*;

use crate::deinflect::{ReasonEntry, ReasonEntryV, ReasonInfo, ReasonInfoV, Reasons, Rules};

verus! {

broadcast use vstd::seq::Seq::lemma_push_map_commute;

/// One rewrite variant built from its parts.
fn variant(kana_in: &str, kana_out: &str, rules_in: u8, rules_out: u8) -> (r: ReasonInfo)
    ensures
        r@ == (ReasonInfoV { kana_in: kana_in@, kana_out: kana_out@, rules_in, rules_out }),
{
    ReasonInfo {
        kana_in: kana_in.to_owned(),
        kana_out: kana_out.to_owned(),
        rules_in: Rules { mask: rules_in },
        rules_out: Rules { mask: rules_out },
    }
}

/// The variants of the reason named "-ba".
pub open spec fn spec_entry_ba() -> ReasonEntryV {
    ReasonEntryV {
        name: "-ba"@,
        variants: seq![
            ReasonInfoV { kana_in: "ければ"@, kana_out: "い"@, rules_in: 0, rules_out: 0x20 },
            ReasonInfoV { kana_in: "えば"@, kana_out: "う"@, rules_in: 0, rules_out: 0x02 },
            ReasonInfoV { kana_in: "けば"@, kana_out: "く"@, rules_in: 0, rules_out: 0x02 },
            ReasonInfoV { kana_in: "げば"@, kana_out: "ぐ"@, rules_in: 0, rules_out: 0x02 },
            ReasonInfoV { kana_in: "せば"@, kana_out: "す"@, rules_in: 0, rules_out: 0x02 },
            ReasonInfoV { kana_in: "てば"@, kana_out: "つ"@, rules_in: 0, rules_out: 0x02 },
            ReasonInfoV { kana_in: "ねば"@, kana_out: "ぬ"@, rules_in: 0, rules_out: 0x02 },
            ReasonInfoV { kana_in: "べば"@, kana_out: "ぶ"@, rules_in: 0, rules_out: 0x02 },
            ReasonInfoV { kana_in: "めば"@, kana_out: "む"@, rules_in: 0, rules_out: 0x02 },
            ReasonInfoV { kana_in: "れば"@, kana_out: "る"@, rules_in: 0, rules_out: 0x1f },
        ],
    }
}

fn entry_ba() -> (r: ReasonEntry)
    ensures
        r@ == spec_entry_ba(),
{
    let mut v: Vec<ReasonInfo> = Vec::new();
    v.push(variant("ければ", "い", 0, 0x20));
    v.push(variant("えば", "う", 0, 0x02));
    v.push(variant("けば", "く", 0, 0x02));
    v.push(variant("げば", "ぐ", 0, 0x02));
    v.push(variant("せば", "す", 0, 0x02));
    v.push(variant("てば", "つ", 0, 0x02));
    v.push(variant("ねば", "ぬ", 0, 0x02));
    v.push(variant("べば", "ぶ", 0, 0x02));
    v.push(variant("めば", "む", 0, 0x02));
    v.push(variant("れば", "る", 0, 0x1f));
    let r = ReasonEntry { name: "-ba".to_owned(), variants: v };
    proof {
        assert(r@ =~~= spec_entry_ba());
    }
    r
}

/// The variants of the reason named "-chau".
pub open spec fn spec_entry_chau() -> ReasonEntryV {
    ReasonEntryV {
        name: "-chau"@,
        variants: seq![
            ReasonInfoV { kana_in: "ちゃう"@, kana_out: "る"@, rules_in: 0x02, rules_out: 0x01 },
            ReasonInfoV { kana_in: "いちゃう"@, kana_out: "く"@, rules_in: 0x02, rules_out: 0x02 },
            ReasonInfoV { kana_in: "いじゃう"@, kana_out: "ぐ"@, rules_in: 0x02, rules_out: 0x02 },
            ReasonInfoV { kana_in: "しちゃう"@, kana_out: "す"@, rules_in: 0x02, rules_out: 0x02 },
            ReasonInfoV { kana_in: "っちゃう"@, kana_out: "う"@, rules_in: 0x02, rules_out: 0x02 },
            ReasonInfoV { kana_in: "っちゃう"@, kana_out: "く"@, rules_in: 0x02, rules_out: 0x02 },
            ReasonInfoV { kana_in: "っちゃう"@, kana_out: "つ"@, rules_in: 0x02, rules_out: 0x02 },
            ReasonInfoV { kana_in: "っちゃう"@, kana_out: "る"@, rules_in: 0x02, rules_out: 0x02 },
            ReasonInfoV { kana_in: "んじゃう"@, kana_out: "ぬ"@, rules_in: 0x02, rules_out: 0x02 },
            ReasonInfoV { kana_in: "んじゃう"@, kana_out: "ぶ"@, rules_in: 0x02, rules_out: 0x02 },
            ReasonInfoV { kana_in: "んじゃう"@, kana_out: "む"@, rules_in: 0x02, rules_out: 0x02 },
            ReasonInfoV { kana_in: "しちゃう"@, kana_out: "する"@, rules_in: 0x02, rules_out: 0x04 },
            ReasonInfoV { kana_in: "為ちゃう"@, kana_out: "為る"@, rules_in: 0x02, rules_out: 0x04 },
            ReasonInfoV { kana_in: "じちゃう"@, kana_out: "ずる"@, rules_in: 0x02, rules_out: 0x10 },
            ReasonInfoV { kana_in: "来ちゃう"@, kana_out: "来る"@, rules_in: 0x02, rules_out: 0x08 },
            ReasonInfoV { kana_in: "來ちゃう"@, kana_out: "來る"@, rules_in: 0x02, rules_out: 0x08 },
            ReasonInfoV { kana_in: "きちゃう"@, kana_out: "くる"@, rules_in: 0x02, rules_out: 0x08 },
        ],
    }
}

fn entry_chau() -> (r: ReasonEntry)
    ensures
        r@ == spec_entry_chau(),
{
    let mut v: Vec<ReasonInfo> = Vec::new();
    v.push(variant("ちゃう", "る", 0x02, 0x01));
    v.push(variant("いちゃう", "く", 0x02, 0x02));
    v.push(variant("いじゃう", "ぐ", 0x02, 0x02));
    v.push(variant("しちゃう", "す", 0x02, 0x02));
    v.push(variant("っちゃう", "う", 0x02, 0x02));
    v.push(variant("っちゃう", "く", 0x02, 0x02));
    v.push(variant("っちゃう", "つ", 0x02, 0x02));
    v.push(variant("っちゃう", "る", 0x02, 0x02));
    v.push(variant("んじゃう", "ぬ", 0x02, 0x02));
    v.push(variant("んじゃう", "ぶ", 0x02, 0x02));
    v.push(variant("んじゃう", "む", 0x02, 0x02));
    v.push(variant("しちゃう", "する", 0x02, 0x04));
    v.push(variant("為ちゃう", "為る", 0x02, 0x04));
    v.push(variant("じちゃう", "ずる", 0x02, 0x10));
    v.push(variant("来ちゃう", "来る", 0x02, 0x08));
    v.push(variant("來ちゃう", "來る", 0x02, 0x08));
    v.push(variant("きちゃう", "くる", 0x02, 0x08));
    let r = ReasonEntry { name: "-chau".to_owned(), variants: v };
    proof {
        assert(r@ =~~= spec_entry_chau());
    }
    r
}

/// The variants of the reason named "-chimau".
pub open spec fn spec_entry_chimau() -> ReasonEntryV {
    ReasonEntryV {
        name: "-chimau"@,
        variants: seq![
            ReasonInfoV { kana_in: "ちまう"@, kana_out: "る"@, rules_in: 0x02, rules_out: 0x01 },
            ReasonInfoV { kana_in: "いちまう"@, kana_out: "く"@, rules_in: 0x02, rules_out: 0x02 },
            ReasonInfoV { kana_in: "いじまう"@, kana_out: "ぐ"@, rules_in: 0x02, rules_out: 0x02 },
            ReasonInfoV { kana_in: "しちまう"@, kana_out: "す"@, rules_in: 0x02, rules_out: 0x02 },
            ReasonInfoV { kana_in: "っちまう"@, kana_out: "う"@, rules_in: 0x02, rules_out: 0x02 },
            ReasonInfoV { kana_in: "っちまう"@, kana_out: "く"@, rules_in: 0x02, rules_out: 0x02 },
            ReasonInfoV { kana_in: "っちまう"@, kana_out: "つ"@, rules_in: 0x02, rules_out: 0x02 },
            ReasonInfoV { kana_in: "っちまう"@, kana_out: "る"@, rules_in: 0x02, rules_out: 0x02 },
            ReasonInfoV { kana_in: "んじまう"@, kana_out: "ぬ"@, rules_in: 0x02, rules_out: 0x02 },
            ReasonInfoV { kana_in: "んじまう"@, kana_out: "ぶ"@, rules_in: 0x02, rules_out: 0x02 },
            ReasonInfoV { kana_in: "んじまう"@, kana_out: "む"@, rules_in: 0x02, rules_out: 0x02 },
            ReasonInfoV { kana_in: "しちまう"@, kana_out: "する"@, rules_in: 0x02, rules_out: 0x04 },
            ReasonInfoV { kana_in: "為ちまう"@, kana_out: "為る"@, rules_in: 0x02, rules_out: 0x04 },
            ReasonInfoV { kana_in: "じちまう"@, kana_out: "ずる"@, rules_in: 0x02, rules_out: 0x10 },
            ReasonInfoV { kana_in: "来ちまう"@, kana_out: "来る"@, rules_in: 0x02, rules_out: 0x08 },
            ReasonInfoV { kana_in: "來ちまう"@, kana_out: "來る"@, rules_in: 0x02, rules_out: 0x08 },
            ReasonInfoV { kana_in: "きちまう"@, kana_out: "くる"@, rules_in: 0x02, rules_out: 0x08 },
        ],
    }
}

fn entry_chimau() -> (r: ReasonEntry)
    ensures
        r@ == spec_entry_chimau(),
{
    let mut v: Vec<ReasonInfo> = Vec::new();
    v.push(variant("ちまう", "る", 0x02, 0x01));
    v.push(variant("いちまう", "く", 0x02, 0x02));
    v.push(variant("いじまう", "ぐ", 0x02, 0x02));
    v.push(variant("しちまう", "す", 0x02, 0x02));
    v.push(variant("っちまう", "う", 0x02, 0x02));
    v.push(variant("っちまう", "く", 0x02, 0x02));
    v.push(variant("っちまう", "つ", 0x02, 0x02));
    v.push(variant("っちまう", "る", 0x02, 0x02));
    v.push(variant("んじまう", "ぬ", 0x02, 0x02));
    v.push(variant("んじまう", "ぶ", 0x02, 0x02));
    v.push(variant("んじまう", "む", 0x02, 0x02));
    v.push(variant("しちまう", "する", 0x02, 0x04));
    v.push(variant("為ちまう", "為る", 0x02, 0x04));
    v.push(variant("じちまう", "ずる", 0x02, 0x10));
    v.push(variant("来ちまう", "来る", 0x02, 0x08));
    v.push(variant("來ちまう", "來る", 0x02, 0x08));
    v.push(variant("きちまう", "くる", 0x02, 0x08));
    let r = ReasonEntry { name: "-chimau".to_owned(), variants: v };
    proof {
        assert(r@ =~~= spec_entry_chimau());
    }
    r
}

/// The variants of the reason named "-shimau".
pub open spec fn spec_entry_shimau() -> ReasonEntryV {
    ReasonEntryV {
        name: "-shimau"@,
        variants: seq![
            ReasonInfoV { kana_in: "てしまう"@, kana_out: "て"@, rules_in: 0x02, rules_out: 0x40 },
            ReasonInfoV { kana_in: "でしまう"@, kana_out: "で"@, rules_in: 0x02, rules_out: 0x40 },
        ],
    }
}

fn entry_shimau() -> (r: ReasonEntry)
    ensures
        r@ == spec_entry_shimau(),
{
    let mut v: Vec<ReasonInfo> = Vec::new();
    v.push(variant("てしまう", "て", 0x02, 0x40));
    v.push(variant("でしまう", "で", 0x02, 0x40));
    let r = ReasonEntry { name: "-shimau".to_owned(), variants: v };
    proof {
        assert(r@ =~~= spec_entry_shimau());
    }
    r
}

/// The variants of the reason named "-nasai".
pub open spec fn spec_entry_nasai() -> ReasonEntryV {
    ReasonEntryV {
        name: "-nasai"@,
        variants: seq![
            ReasonInfoV { kana_in: "なさい"@, kana_out: "る"@, rules_in: 0, rules_out: 0x01 },
            ReasonInfoV { kana_in: "いなさい"@, kana_out: "う"@, rules_in: 0, rules_out: 0x02 },
            ReasonInfoV { kana_in: "きなさい"@, kana_out: "く"@, rules_in: 0, rules_out: 0x02 },
            ReasonInfoV { kana_in: "ぎなさい"@, kana_out: "ぐ"@, rules_in: 0, rules_out: 0x02 },
            ReasonInfoV { kana_in: "しなさい"@, kana_out: "す"@, rules_in: 0, rules_out: 0x02 },
            ReasonInfoV { kana_in: "ちなさい"@, kana_out: "つ"@, rules_in: 0, rules_out: 0x02 },
            ReasonInfoV { kana_in: "になさい"@, kana_out: "ぬ"@, rules_in: 0, rules_out: 0x02 },
            ReasonInfoV { kana_in: "びなさい"@, kana_out: "ぶ"@, rules_in: 0, rules_out: 0x02 },
            ReasonInfoV { kana_in: "みなさい"@, kana_out: "む"@, rules_in: 0, rules_out: 0x02 },
            ReasonInfoV { kana_in: "りなさい"@, kana_out: "る"@, rules_in: 0, rules_out: 0x02 },
            ReasonInfoV { kana_in: "じなさい"@, kana_out: "ずる"@, rules_in: 0, rules_out: 0x10 },
            ReasonInfoV { kana_in: "しなさい"@, kana_out: "する"@, rules_in: 0, rules_out: 0x04 },
            ReasonInfoV { kana_in: "為なさい"@, kana_out: "為る"@, rules_in: 0, rules_out: 0x04 },
            ReasonInfoV { kana_in: "きなさい"@, kana_out: "くる"@, rules_in: 0, rules_out: 0x08 },
            ReasonInfoV { kana_in: "来なさい"@, kana_out: "来る"@, rules_in: 0, rules_out: 0x08 },
            ReasonInfoV { kana_in: "來なさい"@, kana_out: "來る"@, rules_in: 0, rules_out: 0x08 },
        ],
    }
}

fn entry_nasai() -> (r: ReasonEntry)
    ensures
        r@ == spec_entry_nasai(),
{
    let mut v: Vec<ReasonInfo> = Vec::new();
    v.push(variant("なさい", "る", 0, 0x01));
    v.push(variant("いなさい", "う", 0, 0x02));
    v.push(variant("きなさい", "く", 0, 0x02));
    v.push(variant("ぎなさい", "ぐ", 0, 0x02));
    v.push(variant("しなさい", "す", 0, 0x02));
    v.push(variant("ちなさい", "つ", 0, 0x02));
    v.push(variant("になさい", "ぬ", 0, 0x02));
    v.push(variant("びなさい", "ぶ", 0, 0x02));
    v.push(variant("みなさい", "む", 0, 0x02));
    v.push(variant("りなさい", "る", 0, 0x02));
    v.push(variant("じなさい", "ずる", 0, 0x10));
    v.push(variant("しなさい", "する", 0, 0x04));
    v.push(variant("為なさい", "為る", 0, 0x04));
    v.push(variant("きなさい", "くる", 0, 0x08));
    v.push(variant("来なさい", "来る", 0, 0x08));
    v.push(variant("來なさい", "來る", 0, 0x08));
    let r = ReasonEntry { name: "-nasai".to_owned(), variants: v };
    proof {
        assert(r@ =~~= spec_entry_nasai());
    }
    r
}

/// The variants of the reason named "-sou".
pub open spec fn spec_entry_sou() -> ReasonEntryV {
    ReasonEntryV {
        name: "-sou"@,
        variants: seq![
            ReasonInfoV { kana_in: "そう"@, kana_out: "い"@, rules_in: 0, rules_out: 0x20 },
            ReasonInfoV { kana_in: "そう"@, kana_out: "る"@, rules_in: 0, rules_out: 0x01 },
            ReasonInfoV { kana_in: "いそう"@, kana_out: "う"@, rules_in: 0, rules_out: 0x02 },
            ReasonInfoV { kana_in: "きそう"@, kana_out: "く"@, rules_in: 0, rules_out: 0x02 },
            ReasonInfoV { kana_in: "ぎそう"@, kana_out: "ぐ"@, rules_in: 0, rules_out: 0x02 },
            ReasonInfoV { kana_in: "しそう"@, kana_out: "す"@, rules_in: 0, rules_out: 0x02 },
            ReasonInfoV { kana_in: "ちそう"@, kana_out: "つ"@, rules_in: 0, rules_out: 0x02 },
            ReasonInfoV { kana_in: "にそう"@, kana_out: "ぬ"@, rules_in: 0, rules_out: 0x02 },
            ReasonInfoV { kana_in: "びそう"@, kana_out: "ぶ"@, rules_in: 0, rules_out: 0x02 },
            ReasonInfoV { kana_in: "みそう"@, kana_out: "む"@, rules_in: 0, rules_out: 0x02 },
            ReasonInfoV { kana_in: "りそう"@, kana_out: "る"@, rules_in: 0, rules_out: 0x02 },
            ReasonInfoV { kana_in: "じそう"@, kana_out: "ずる"@, rules_in: 0, rules_out: 0x10 },
            ReasonInfoV { kana_in: "しそう"@, kana_out: "する"@, rules_in: 0, rules_out: 0x04 },
            ReasonInfoV { kana_in: "為そう"@, kana_out: "為る"@, rules_in: 0, rules_out: 0x04 },
            ReasonInfoV { kana_in: "きそう"@, kana_out: "くる"@, rules_in: 0, rules_out: 0x08 },
            ReasonInfoV { kana_in: "来そう"@, kana_out: "来る"@, rules_in: 0, rules_out: 0x08 },
            ReasonInfoV { kana_in: "來そう"@, kana_out: "來る"@, rules_in: 0, rules_out: 0x08 },
        ],
    }
}

fn entry_sou() -> (r: ReasonEntry)
    ensures
        r@ == spec_entry_sou(),
{
    let mut v: Vec<ReasonInfo> = Vec::new();
    v.push(variant("そう", "い", 0, 0x20));
    v.push(variant("そう", "る", 0, 0x01));
    v.push(variant("いそう", "う", 0, 0x02));
    v.push(variant("きそう", "く", 0, 0x02));
    v.push(variant("ぎそう", "ぐ", 0, 0x02));
    v.push(variant("しそう", "す", 0, 0x02));
    v.push(variant("ちそう", "つ", 0, 0x02));
    v.push(variant("にそう", "ぬ", 0, 0x02));
    v.push(variant("びそう", "ぶ", 0, 0x02));
    v.push(variant("みそう", "む", 0, 0x02));
    v.push(variant("りそう", "る", 0, 0x02));
    v.push(variant("じそう", "ずる", 0, 0x10));
    v.push(variant("しそう", "する", 0, 0x04));
    v.push(variant("為そう", "為る", 0, 0x04));
    v.push(variant("きそう", "くる", 0, 0x08));
    v.push(variant("来そう", "来る", 0, 0x08));
    v.push(variant("來そう", "來る", 0, 0x08));
    let r = ReasonEntry { name: "-sou".to_owned(), variants: v };
    proof {
        assert(r@ =~~= spec_entry_sou());
    }
    r
}

/// The variants of the reason named "-sugiru".
pub open spec fn spec_entry_sugiru() -> ReasonEntryV {
    ReasonEntryV {
        name: "-sugiru"@,
        variants: seq![
            ReasonInfoV { kana_in: "すぎる"@, kana_out: "い"@, rules_in: 0, rules_out: 0x20 },
            ReasonInfoV { kana_in: "すぎる"@, kana_out: "る"@, rules_in: 0, rules_out: 0x01 },
            ReasonInfoV { kana_in: "いすぎる"@, kana_out: "う"@, rules_in: 0, rules_out: 0x02 },
            ReasonInfoV { kana_in: "きすぎる"@, kana_out: "く"@, rules_in: 0, rules_out: 0x02 },
            ReasonInfoV { kana_in: "ぎすぎる"@, kana_out: "ぐ"@, rules_in: 0, rules_out: 0x02 },
            ReasonInfoV { kana_in: "しすぎる"@, kana_out: "す"@, rules_in: 0, rules_out: 0x02 },
            ReasonInfoV { kana_in: "ちすぎる"@, kana_out: "つ"@, rules_in: 0, rules_out: 0x02 },
            ReasonInfoV { kana_in: "にすぎる"@, kana_out: "ぬ"@, rules_in: 0, rules_out: 0x02 },
            ReasonInfoV { kana_in: "びすぎる"@, kana_out: "ぶ"@, rules_in: 0, rules_out: 0x02 },
            ReasonInfoV { kana_in: "みすぎる"@, kana_out: "む"@, rules_in: 0, rules_out: 0x02 },
            ReasonInfoV { kana_in: "りすぎる"@, kana_out: "る"@, rules_in: 0, rules_out: 0x02 },
            ReasonInfoV { kana_in: "じすぎる"@, kana_out: "ずる"@, rules_in: 0, rules_out: 0x10 },
            ReasonInfoV { kana_in: "しすぎる"@, kana_out: "する"@, rules_in: 0, rules_out: 0x04 },
            ReasonInfoV { kana_in: "為すぎる"@, kana_out: "為る"@, rules_in: 0, rules_out: 0x04 },
            ReasonInfoV { kana_in: "きすぎる"@, kana_out: "くる"@, rules_in: 0, rules_out: 0x08 },
            ReasonInfoV { kana_in: "来すぎる"@, kana_out: "来る"@, rules_in: 0, rules_out: 0x08 },
            ReasonInfoV { kana_in: "來すぎる"@, kana_out: "來る"@, rules_in: 0, rules_out: 0x08 },
        ],
    }
}

fn entry_sugiru() -> (r: ReasonEntry)
    ensures
        r@ == spec_entry_sugiru(),
{
    let mut v: Vec<ReasonInfo> = Vec::new();
    v.push(variant("すぎる", "い", 0, 0x20));
    v.push(variant("すぎる", "る", 0, 0x01));
    v.push(variant("いすぎる", "う", 0, 0x02));
    v.push(variant("きすぎる", "く", 0, 0x02));
    v.push(variant("ぎすぎる", "ぐ", 0, 0x02));
    v.push(variant("しすぎる", "す", 0, 0x02));
    v.push(variant("ちすぎる", "つ", 0, 0x02));
    v.push(variant("にすぎる", "ぬ", 0, 0x02));
    v.push(variant("びすぎる", "ぶ", 0, 0x02));
    v.push(variant("みすぎる", "む", 0, 0x02));
    v.push(variant("りすぎる", "る", 0, 0x02));
    v.push(variant("じすぎる", "ずる", 0, 0x10));
    v.push(variant("しすぎる", "する", 0, 0x04));
    v.push(variant("為すぎる", "為る", 0, 0x04));
    v.push(variant("きすぎる", "くる", 0, 0x08));
    v.push(variant("来すぎる", "来る", 0, 0x08));
    v.push(variant("來すぎる", "來る", 0, 0x08));
    let r = ReasonEntry { name: "-sugiru".to_owned(), variants: v };
    proof {
        assert(r@ =~~= spec_entry_sugiru());
    }
    r
}

/// The variants of the reason named "-tai".
pub open spec fn spec_entry_tai() -> ReasonEntryV {
    ReasonEntryV {
        name: "-tai"@,
        variants: seq![
            ReasonInfoV { kana_in: "たい"@, kana_out: "る"@, rules_in: 0x20, rules_out: 0x01 },
            ReasonInfoV { kana_in: "いたい"@, kana_out: "う"@, rules_in: 0x20, rules_out: 0x02 },
            ReasonInfoV { kana_in: "きたい"@, kana_out: "く"@, rules_in: 0x20, rules_out: 0x02 },
            ReasonInfoV { kana_in: "ぎたい"@, kana_out: "ぐ"@, rules_in: 0x20, rules_out: 0x02 },
            ReasonInfoV { kana_in: "したい"@, kana_out: "す"@, rules_in: 0x20, rules_out: 0x02 },
            ReasonInfoV { kana_in: "ちたい"@, kana_out: "つ"@, rules_in: 0x20, rules_out: 0x02 },
            ReasonInfoV { kana_in: "にたい"@, kana_out: "ぬ"@, rules_in: 0x20, rules_out: 0x02 },
            ReasonInfoV { kana_in: "びたい"@, kana_out: "ぶ"@, rules_in: 0x20, rules_out: 0x02 },
            ReasonInfoV { kana_in: "みたい"@, kana_out: "む"@, rules_in: 0x20, rules_out: 0x02 },
            ReasonInfoV { kana_in: "りたい"@, kana_out: "る"@, rules_in: 0x20, rules_out: 0x02 },
            ReasonInfoV { kana_in: "じたい"@, kana_out: "ずる"@, rules_in: 0x20, rules_out: 0x10 },
            ReasonInfoV { kana_in: "したい"@, kana_out: "する"@, rules_in: 0x20, rules_out: 0x04 },
            ReasonInfoV { kana_in: "為たい"@, kana_out: "為る"@, rules_in: 0x20, rules_out: 0x04 },
            ReasonInfoV { kana_in: "きたい"@, kana_out: "くる"@, rules_in: 0x20, rules_out: 0x08 },
            ReasonInfoV { kana_in: "来たい"@, kana_out: "来る"@, rules_in: 0x20, rules_out: 0x08 },
            ReasonInfoV { kana_in: "來たい"@, kana_out: "來る"@, rules_in: 0x20, rules_out: 0x08 },
        ],
    }
}

fn entry_tai() -> (r: ReasonEntry)
    ensures
        r@ == spec_entry_tai(),
{
    let mut v: Vec<ReasonInfo> = Vec::new();
    v.push(variant("たい", "る", 0x20, 0x01));
    v.push(variant("いたい", "う", 0x20, 0x02));
    v.push(variant("きたい", "く", 0x20, 0x02));
    v.push(variant("ぎたい", "ぐ", 0x20, 0x02));
    v.push(variant("したい", "す", 0x20, 0x02));
    v.push(variant("ちたい", "つ", 0x20, 0x02));
    v.push(variant("にたい", "ぬ", 0x20, 0x02));
    v.push(variant("びたい", "ぶ", 0x20, 0x02));
    v.push(variant("みたい", "む", 0x20, 0x02));
    v.push(variant("りたい", "る", 0x20, 0x02));
    v.push(variant("じたい", "ずる", 0x20, 0x10));
    v.push(variant("したい", "する", 0x20, 0x04));
    v.push(variant("為たい", "為る", 0x20, 0x04));
    v.push(variant("きたい", "くる", 0x20, 0x08));
    v.push(variant("来たい", "来る", 0x20, 0x08));
    v.push(variant("來たい", "來る", 0x20, 0x08));
    let r = ReasonEntry { name: "-tai".to_owned(), variants: v };
    proof {
        assert(r@ =~~= spec_entry_tai());
    }
    r
}

/// The variants of the reason named "-tara".
pub open spec fn spec_entry_tara() -> ReasonEntryV {
    ReasonEntryV {
        name: "-tara"@,
        variants: seq![
            ReasonInfoV { kana_in: "かったら"@, kana_out: "い"@, rules_in: 0, rules_out: 0x20 },
            ReasonInfoV { kana_in: "たら"@, kana_out: "る"@, rules_in: 0, rules_out: 0x01 },
            ReasonInfoV { kana_in: "いたら"@, kana_out: "く"@, rules_in: 0, rules_out: 0x02 },
            ReasonInfoV { kana_in: "いだら"@, kana_out: "ぐ"@, rules_in: 0, rules_out: 0x02 },
            ReasonInfoV { kana_in: "したら"@, kana_out: "す"@, rules_in: 0, rules_out: 0x02 },
            ReasonInfoV { kana_in: "ったら"@, kana_out: "う"@, rules_in: 0, rules_out: 0x02 },
            ReasonInfoV { kana_in: "ったら"@, kana_out: "つ"@, rules_in: 0, rules_out: 0x02 },
            ReasonInfoV { kana_in: "ったら"@, kana_out: "る"@, rules_in: 0, rules_out: 0x02 },
            ReasonInfoV { kana_in: "んだら"@, kana_out: "ぬ"@, rules_in: 0, rules_out: 0x02 },
            ReasonInfoV { kana_in: "んだら"@, kana_out: "ぶ"@, rules_in: 0, rules_out: 0x02 },
            ReasonInfoV { kana_in: "んだら"@, kana_out: "む"@, rules_in: 0, rules_out: 0x02 },
            ReasonInfoV { kana_in: "じたら"@, kana_out: "ずる"@, rules_in: 0, rules_out: 0x10 },
            ReasonInfoV { kana_in: "したら"@, kana_out: "する"@, rules_in: 0, rules_out: 0x04 },
            ReasonInfoV { kana_in: "為たら"@, kana_out: "為る"@, rules_in: 0, rules_out: 0x04 },
            ReasonInfoV { kana_in: "きたら"@, kana_out: "くる"@, rules_in: 0, rules_out: 0x08 },
            ReasonInfoV { kana_in: "来たら"@, kana_out: "来る"@, rules_in: 0, rules_out: 0x08 },
            ReasonInfoV { kana_in: "來たら"@, kana_out: "來る"@, rules_in: 0, rules_out: 0x08 },
            ReasonInfoV { kana_in: "いったら"@, kana_out: "いく"@, rules_in: 0, rules_out: 0x02 },
            ReasonInfoV { kana_in: "おうたら"@, kana_out: "おう"@, rules_in: 0, rules_out: 0x02 },
            ReasonInfoV { kana_in: "こうたら"@, kana_out: "こう"@, rules_in: 0, rules_out: 0x02 },
            ReasonInfoV { kana_in: "そうたら"@, kana_out: "そう"@, rules_in: 0, rules_out: 0x02 },
            ReasonInfoV { kana_in: "とうたら"@, kana_out: "とう"@, rules_in: 0, rules_out: 0x02 },
            ReasonInfoV { kana_in: "行ったら"@, kana_out: "行く"@, rules_in: 0, rules_out: 0x02 },
            ReasonInfoV { kana_in: "逝ったら"@, kana_out: "逝く"@, rules_in: 0, rules_out: 0x02 },
            ReasonInfoV { kana_in: "往ったら"@, kana_out: "往く"@, rules_in: 0, rules_out: 0x02 },
            ReasonInfoV { kana_in: "請うたら"@, kana_out: "請う"@, rules_in: 0, rules_out: 0x02 },
            ReasonInfoV { kana_in: "乞うたら"@, kana_out: "乞う"@, rules_in: 0, rules_out: 0x02 },
            ReasonInfoV { kana_in: "恋うたら"@, kana_out: "恋う"@, rules_in: 0, rules_out: 0x02 },
            ReasonInfoV { kana_in: "問うたら"@, kana_out: "問う"@, rules_in: 0, rules_out: 0x02 },
            ReasonInfoV { kana_in: "負うたら"@, kana_out: "負う"@, rules_in: 0, rules_out: 0x02 },
            ReasonInfoV { kana_in: "沿うたら"@, kana_out: "沿う"@, rules_in: 0, rules_out: 0x02 },
            ReasonInfoV { kana_in: "添うたら"@, kana_out: "添う"@, rules_in: 0, rules_out: 0x02 },
            ReasonInfoV { kana_in: "副うたら"@, kana_out: "副う"@, rules_in: 0, rules_out: 0x02 },
            ReasonInfoV { kana_in: "厭うたら"@, kana_out: "厭う"@, rules_in: 0, rules_out: 0x02 },
            ReasonInfoV { kana_in: "もうたら"@, kana_out: "まう"@, rules_in: 0, rules_out: 0x02 },
        ],
    }
}

fn entry_tara() -> (r: ReasonEntry)
    ensures
        r@ == spec_entry_tara(),
{
    let mut v: Vec<ReasonInfo> = Vec::new();
    v.push(variant("かったら", "い", 0, 0x20));
    v.push(variant("たら", "る", 0, 0x01));
    v.push(variant("いたら", "く", 0, 0x02));
    v.push(variant("いだら", "ぐ", 0, 0x02));
    v.push(variant("したら", "す", 0, 0x02));
    v.push(variant("ったら", "う", 0, 0x02));
    v.push(variant("ったら", "つ", 0, 0x02));
    v.push(variant("ったら", "る", 0, 0x02));
    v.push(variant("んだら", "ぬ", 0, 0x02));
    v.push(variant("んだら", "ぶ", 0, 0x02));
    v.push(variant("んだら", "む", 0, 0x02));
    v.push(variant("じたら", "ずる", 0, 0x10));
    v.push(variant("したら", "する", 0, 0x04));
    v.push(variant("為たら", "為る", 0, 0x04));
    v.push(variant("きたら", "くる", 0, 0x08));
    v.push(variant("来たら", "来る", 0, 0x08));
    v.push(variant("來たら", "來る", 0, 0x08));
    v.push(variant("いったら", "いく", 0, 0x02));
    v.push(variant("おうたら", "おう", 0, 0x02));
    v.push(variant("こうたら", "こう", 0, 0x02));
    v.push(variant("そうたら", "そう", 0, 0x02));
    v.push(variant("とうたら", "とう", 0, 0x02));
    v.push(variant("行ったら", "行く", 0, 0x02));
    v.push(variant("逝ったら", "逝く", 0, 0x02));
    v.push(variant("往ったら", "往く", 0, 0x02));
    v.push(variant("請うたら", "請う", 0, 0x02));
    v.push(variant("乞うたら", "乞う", 0, 0x02));
    v.push(variant("恋うたら", "恋う", 0, 0x02));
    v.push(variant("問うたら", "問う", 0, 0x02));
    v.push(variant("負うたら", "負う", 0, 0x02));
    v.push(variant("沿うたら", "沿う", 0, 0x02));
    v.push(variant("添うたら", "添う", 0, 0x02));
    v.push(variant("副うたら", "副う", 0, 0x02));
    v.push(variant("厭うたら", "厭う", 0, 0x02));
    v.push(variant("もうたら", "まう", 0, 0x02));
    let r = ReasonEntry { name: "-tara".to_owned(), variants: v };
    proof {
        assert(r@ =~~= spec_entry_tara());
    }
    r
}

/// The variants of the reason named "-tari".
pub open spec fn spec_entry_tari() -> ReasonEntryV {
    ReasonEntryV {
        name: "-tari"@,
        variants: seq![
            ReasonInfoV { kana_in: "かったり"@, kana_out: "い"@, rules_in: 0, rules_out: 0x20 },
            ReasonInfoV { kana_in: "たり"@, kana_out: "る"@, rules_in: 0, rules_out: 0x01 },
            ReasonInfoV { kana_in: "いたり"@, kana_out: "く"@, rules_in: 0, rules_out: 0x02 },
            ReasonInfoV { kana_in: "いだり"@, kana_out: "ぐ"@, rules_in: 0, rules_out: 0x02 },
            ReasonInfoV { kana_in: "したり"@, kana_out: "す"@, rules_in: 0, rules_out: 0x02 },
            ReasonInfoV { kana_in: "ったり"@, kana_out: "う"@, rules_in: 0, rules_out: 0x02 },
            ReasonInfoV { kana_in: "ったり"@, kana_out: "つ"@, rules_in: 0, rules_out: 0x02 },
            ReasonInfoV { kana_in: "ったり"@, kana_out: "る"@, rules_in: 0, rules_out: 0x02 },
            ReasonInfoV { kana_in: "んだり"@, kana_out: "ぬ"@, rules_in: 0, rules_out: 0x02 },
            ReasonInfoV { kana_in: "んだり"@, kana_out: "ぶ"@, rules_in: 0, rules_out: 0x02 },
            ReasonInfoV { kana_in: "んだり"@, kana_out: "む"@, rules_in: 0, rules_out: 0x02 },
            ReasonInfoV { kana_in: "じたり"@, kana_out: "ずる"@, rules_in: 0, rules_out: 0x10 },
            ReasonInfoV { kana_in: "したり"@, kana_out: "する"@, rules_in: 0, rules_out: 0x04 },
            ReasonInfoV { kana_in: "為たり"@, kana_out: "為る"@, rules_in: 0, rules_out: 0x04 },
            ReasonInfoV { kana_in: "きたり"@, kana_out: "くる"@, rules_in: 0, rules_out: 0x08 },
            ReasonInfoV { kana_in: "来たり"@, kana_out: "来る"@, rules_in: 0, rules_out: 0x08 },
            ReasonInfoV { kana_in: "來たり"@, kana_out: "來る"@, rules_in: 0, rules_out: 0x08 },
            ReasonInfoV { kana_in: "いったり"@, kana_out: "いく"@, rules_in: 0, rules_out: 0x02 },
            ReasonInfoV { kana_in: "おうたり"@, kana_out: "おう"@, rules_in: 0, rules_out: 0x02 },
            ReasonInfoV { kana_in: "こうたり"@, kana_out: "こう"@, rules_in: 0, rules_out: 0x02 },
            ReasonInfoV { kana_in: "そうたり"@, kana_out: "そう"@, rules_in: 0, rules_out: 0x02 },
            ReasonInfoV { kana_in: "とうたり"@, kana_out: "とう"@, rules_in: 0, rules_out: 0x02 },
            ReasonInfoV { kana_in: "行ったり"@, kana_out: "行く"@, rules_in: 0, rules_out: 0x02 },
            ReasonInfoV { kana_in: "逝ったり"@, kana_out: "逝く"@, rules_in: 0, rules_out: 0x02 },
            ReasonInfoV { kana_in: "往ったり"@, kana_out: "往く"@, rules_in: 0, rules_out: 0x02 },
            ReasonInfoV { kana_in: "請うたり"@, kana_out: "請う"@, rules_in: 0, rules_out: 0x02 },
            ReasonInfoV { kana_in: "乞うたり"@, kana_out: "乞う"@, rules_in: 0, rules_out: 0x02 },
            ReasonInfoV { kana_in: "恋うたり"@, kana_out: "恋う"@, rules_in: 0, rules_out: 0x02 },
            ReasonInfoV { kana_in: "問うたり"@, kana_out: "問う"@, rules_in: 0, rules_out: 0x02 },
            ReasonInfoV { kana_in: "負うたり"@, kana_out: "負う"@, rules_in: 0, rules_out: 0x02 },
            ReasonInfoV { kana_in: "沿うたり"@, kana_out: "沿う"@, rules_in: 0, rules_out: 0x02 },
            ReasonInfoV { kana_in: "添うたり"@, kana_out: "添う"@, rules_in: 0, rules_out: 0x02 },
            ReasonInfoV { kana_in: "副うたり"@, kana_out: "副う"@, rules_in: 0, rules_out: 0x02 },
            ReasonInfoV { kana_in: "厭うたり"@, kana_out: "厭う"@, rules_in: 0, rules_out: 0x02 },
            ReasonInfoV { kana_in: "もうたり"@, kana_out: "まう"@, rules_in: 0, rules_out: 0x02 },
        ],
    }
}

fn entry_tari() -> (r: ReasonEntry)
    ensures
        r@ == spec_entry_tari(),
{
    let mut v: Vec<ReasonInfo> = Vec::new();
    v.push(variant("かったり", "い", 0, 0x20));
    v.push(variant("たり", "る", 0, 0x01));
    v.push(variant("いたり", "く", 0, 0x02));
    v.push(variant("いだり", "ぐ", 0, 0x02));
    v.push(variant("したり", "す", 0, 0x02));
    v.push(variant("ったり", "う", 0, 0x02));
    v.push(variant("ったり", "つ", 0, 0x02));
    v.push(variant("ったり", "る", 0, 0x02));
    v.push(variant("んだり", "ぬ", 0, 0x02));
    v.push(variant("んだり", "ぶ", 0, 0x02));
    v.push(variant("んだり", "む", 0, 0x02));
    v.push(variant("じたり", "ずる", 0, 0x10));
    v.push(variant("したり", "する", 0, 0x04));
    v.push(variant("為たり", "為る", 0, 0x04));
    v.push(variant("きたり", "くる", 0, 0x08));
    v.push(variant("来たり", "来る", 0, 0x08));
    v.push(variant("來たり", "來る", 0, 0x08));
    v.push(variant("いったり", "いく", 0, 0x02));
    v.push(variant("おうたり", "おう", 0, 0x02));
    v.push(variant("こうたり", "こう", 0, 0x02));
    v.push(variant("そうたり", "そう", 0, 0x02));
    v.push(variant("とうたり", "とう", 0, 0x02));
    v.push(variant("行ったり", "行く", 0, 0x02));
    v.push(variant("逝ったり", "逝く", 0, 0x02));
    v.push(variant("往ったり", "往く", 0, 0x02));
    v.push(variant("請うたり", "請う", 0, 0x02));
    v.push(variant("乞うたり", "乞う", 0, 0x02));
    v.push(variant("恋うたり", "恋う", 0, 0x02));
    v.push(variant("問うたり", "問う", 0, 0x02));
    v.push(variant("負うたり", "負う", 0, 0x02));
    v.push(variant("沿うたり", "沿う", 0, 0x02));
    v.push(variant("添うたり", "添う", 0, 0x02));
    v.push(variant("副うたり", "副う", 0, 0x02));
    v.push(variant("厭うたり", "厭う", 0, 0x02));
    v.push(variant("もうたり", "まう", 0, 0x02));
    let r = ReasonEntry { name: "-tari".to_owned(), variants: v };
    proof {
        assert(r@ =~~= spec_entry_tari());
    }
    r
}

/// The variants of the reason named "-te".
pub open spec fn spec_entry_te() -> ReasonEntryV {
    ReasonEntryV {
        name: "-te"@,
        variants: seq![
            ReasonInfoV { kana_in: "くて"@, kana_out: "い"@, rules_in: 0x40, rules_out: 0x20 },
            ReasonInfoV { kana_in: "て"@, kana_out: "る"@, rules_in: 0x40, rules_out: 0x01 },
            ReasonInfoV { kana_in: "いて"@, kana_out: "く"@, rules_in: 0x40, rules_out: 0x02 },
            ReasonInfoV { kana_in: "いで"@, kana_out: "ぐ"@, rules_in: 0x40, rules_out: 0x02 },
            ReasonInfoV { kana_in: "して"@, kana_out: "す"@, rules_in: 0x40, rules_out: 0x02 },
            ReasonInfoV { kana_in: "って"@, kana_out: "う"@, rules_in: 0x40, rules_out: 0x02 },
            ReasonInfoV { kana_in: "って"@, kana_out: "つ"@, rules_in: 0x40, rules_out: 0x02 },
            ReasonInfoV { kana_in: "って"@, kana_out: "る"@, rules_in: 0x40, rules_out: 0x02 },
            ReasonInfoV { kana_in: "んで"@, kana_out: "ぬ"@, rules_in: 0x40, rules_out: 0x02 },
            ReasonInfoV { kana_in: "んで"@, kana_out: "ぶ"@, rules_in: 0x40, rules_out: 0x02 },
            ReasonInfoV { kana_in: "んで"@, kana_out: "む"@, rules_in: 0x40, rules_out: 0x02 },
            ReasonInfoV { kana_in: "じて"@, kana_out: "ずる"@, rules_in: 0x40, rules_out: 0x10 },
            ReasonInfoV { kana_in: "して"@, kana_out: "する"@, rules_in: 0x40, rules_out: 0x04 },
            ReasonInfoV { kana_in: "為て"@, kana_out: "為る"@, rules_in: 0x40, rules_out: 0x04 },
            ReasonInfoV { kana_in: "きて"@, kana_out: "くる"@, rules_in: 0x40, rules_out: 0x08 },
            ReasonInfoV { kana_in: "来て"@, kana_out: "来る"@, rules_in: 0x40, rules_out: 0x08 },
            ReasonInfoV { kana_in: "來て"@, kana_out: "來る"@, rules_in: 0x40, rules_out: 0x08 },
            ReasonInfoV { kana_in: "いって"@, kana_out: "いく"@, rules_in: 0x40, rules_out: 0x02 },
            ReasonInfoV { kana_in: "おうて"@, kana_out: "おう"@, rules_in: 0x40, rules_out: 0x02 },
            ReasonInfoV { kana_in: "こうて"@, kana_out: "こう"@, rules_in: 0x40, rules_out: 0x02 },
            ReasonInfoV { kana_in: "そうて"@, kana_out: "そう"@, rules_in: 0x40, rules_out: 0x02 },
            ReasonInfoV { kana_in: "とうて"@, kana_out: "とう"@, rules_in: 0x40, rules_out: 0x02 },
            ReasonInfoV { kana_in: "行って"@, kana_out: "行く"@, rules_in: 0x40, rules_out: 0x02 },
            ReasonInfoV { kana_in: "逝って"@, kana_out: "逝く"@, rules_in: 0x40, rules_out: 0x02 },
            ReasonInfoV { kana_in: "往って"@, kana_out: "往く"@, rules_in: 0x40, rules_out: 0x02 },
            ReasonInfoV { kana_in: "請うて"@, kana_out: "請う"@, rules_in: 0x40, rules_out: 0x02 },
            ReasonInfoV { kana_in: "乞うて"@, kana_out: "乞う"@, rules_in: 0x40, rules_out: 0x02 },
            ReasonInfoV { kana_in: "恋うて"@, kana_out: "恋う"@, rules_in: 0x40, rules_out: 0x02 },
            ReasonInfoV { kana_in: "問うて"@, kana_out: "問う"@, rules_in: 0x40, rules_out: 0x02 },
            ReasonInfoV { kana_in: "負うて"@, kana_out: "負う"@, rules_in: 0x40, rules_out: 0x02 },
            ReasonInfoV { kana_in: "沿うて"@, kana_out: "沿う"@, rules_in: 0x40, rules_out: 0x02 },
            ReasonInfoV { kana_in: "添うて"@, kana_out: "添う"@, rules_in: 0x40, rules_out: 0x02 },
            ReasonInfoV { kana_in: "副うて"@, kana_out: "副う"@, rules_in: 0x40, rules_out: 0x02 },
            ReasonInfoV { kana_in: "厭うて"@, kana_out: "厭う"@, rules_in: 0x40, rules_out: 0x02 },
            ReasonInfoV { kana_in: "もうて"@, kana_out: "まう"@, rules_in: 0x40, rules_out: 0x02 },
        ],
    }
}

fn entry_te() -> (r: ReasonEntry)
    ensures
        r@ == spec_entry_te(),
{
    let mut v: Vec<ReasonInfo> = Vec::new();
    v.push(variant("くて", "い", 0x40, 0x20));
    v.push(variant("て", "る", 0x40, 0x01));
    v.push(variant("いて", "く", 0x40, 0x02));
    v.push(variant("いで", "ぐ", 0x40, 0x02));
    v.push(variant("して", "す", 0x40, 0x02));
    v.push(variant("って", "う", 0x40, 0x02));
    v.push(variant("って", "つ", 0x40, 0x02));
    v.push(variant("って", "る", 0x40, 0x02));
    v.push(variant("んで", "ぬ", 0x40, 0x02));
    v.push(variant("んで", "ぶ", 0x40, 0x02));
    v.push(variant("んで", "む", 0x40, 0x02));
    v.push(variant("じて", "ずる", 0x40, 0x10));
    v.push(variant("して", "する", 0x40, 0x04));
    v.push(variant("為て", "為る", 0x40, 0x04));
    v.push(variant("きて", "くる", 0x40, 0x08));
    v.push(variant("来て", "来る", 0x40, 0x08));
    v.push(variant("來て", "來る", 0x40, 0x08));
    v.push(variant("いって", "いく", 0x40, 0x02));
    v.push(variant("おうて", "おう", 0x40, 0x02));
    v.push(variant("こうて", "こう", 0x40, 0x02));
    v.push(variant("そうて", "そう", 0x40, 0x02));
    v.push(variant("とうて", "とう", 0x40, 0x02));
    v.push(variant("行って", "行く", 0x40, 0x02));
    v.push(variant("逝って", "逝く", 0x40, 0x02));
    v.push(variant("往って", "往く", 0x40, 0x02));
    v.push(variant("請うて", "請う", 0x40, 0x02));
    v.push(variant("乞うて", "乞う", 0x40, 0x02));
    v.push(variant("恋うて", "恋う", 0x40, 0x02));
    v.push(variant("問うて", "問う", 0x40, 0x02));
    v.push(variant("負うて", "負う", 0x40, 0x02));
    v.push(variant("沿うて", "沿う", 0x40, 0x02));
    v.push(variant("添うて", "添う", 0x40, 0x02));
    v.push(variant("副うて", "副う", 0x40, 0x02));
    v.push(variant("厭うて", "厭う", 0x40, 0x02));
    v.push(variant("もうて", "まう", 0x40, 0x02));
    let r = ReasonEntry { name: "-te".to_owned(), variants: v };
    proof {
        assert(r@ =~~= spec_entry_te());
    }
    r
}

/// The variants of the reason named "-toku".
pub open spec fn spec_entry_toku() -> ReasonEntryV {
    ReasonEntryV {
        name: "-toku"@,
        variants: seq![
            ReasonInfoV { kana_in: "とく"@, kana_out: "る"@, rules_in: 0x02, rules_out: 0x01 },
            ReasonInfoV { kana_in: "いとく"@, kana_out: "く"@, rules_in: 0x02, rules_out: 0x02 },
            ReasonInfoV { kana_in: "いどく"@, kana_out: "ぐ"@, rules_in: 0x02, rules_out: 0x02 },
            ReasonInfoV { kana_in: "しとく"@, kana_out: "す"@, rules_in: 0x02, rules_out: 0x02 },
            ReasonInfoV { kana_in: "っとく"@, kana_out: "う"@, rules_in: 0x02, rules_out: 0x02 },
            ReasonInfoV { kana_in: "っとく"@, kana_out: "つ"@, rules_in: 0x02, rules_out: 0x02 },
            ReasonInfoV { kana_in: "っとく"@, kana_out: "る"@, rules_in: 0x02, rules_out: 0x02 },
            ReasonInfoV { kana_in: "んどく"@, kana_out: "ぬ"@, rules_in: 0x02, rules_out: 0x02 },
            ReasonInfoV { kana_in: "んどく"@, kana_out: "ぶ"@, rules_in: 0x02, rules_out: 0x02 },
            ReasonInfoV { kana_in: "んどく"@, kana_out: "む"@, rules_in: 0x02, rules_out: 0x02 },
            ReasonInfoV { kana_in: "じとく"@, kana_out: "ずる"@, rules_in: 0x02, rules_out: 0x10 },
            ReasonInfoV { kana_in: "しとく"@, kana_out: "する"@, rules_in: 0x02, rules_out: 0x04 },
            ReasonInfoV { kana_in: "為とく"@, kana_out: "為る"@, rules_in: 0x02, rules_out: 0x04 },
            ReasonInfoV { kana_in: "きとく"@, kana_out: "くる"@, rules_in: 0x02, rules_out: 0x08 },
            ReasonInfoV { kana_in: "来とく"@, kana_out: "来る"@, rules_in: 0x02, rules_out: 0x08 },
            ReasonInfoV { kana_in: "來とく"@, kana_out: "來る"@, rules_in: 0x02, rules_out: 0x08 },
        ],
    }
}

fn entry_toku() -> (r: ReasonEntry)
    ensures
        r@ == spec_entry_toku(),
{
    let mut v: Vec<ReasonInfo> = Vec::new();
    v.push(variant("とく", "る", 0x02, 0x01));
    v.push(variant("いとく", "く", 0x02, 0x02));
    v.push(variant("いどく", "ぐ", 0x02, 0x02));
    v.push(variant("しとく", "す", 0x02, 0x02));
    v.push(variant("っとく", "う", 0x02, 0x02));
    v.push(variant("っとく", "つ", 0x02, 0x02));
    v.push(variant("っとく", "る", 0x02, 0x02));
    v.push(variant("んどく", "ぬ", 0x02, 0x02));
    v.push(variant("んどく", "ぶ", 0x02, 0x02));
    v.push(variant("んどく", "む", 0x02, 0x02));
    v.push(variant("じとく", "ずる", 0x02, 0x10));
    v.push(variant("しとく", "する", 0x02, 0x04));
    v.push(variant("為とく", "為る", 0x02, 0x04));
    v.push(variant("きとく", "くる", 0x02, 0x08));
    v.push(variant("来とく", "来る", 0x02, 0x08));
    v.push(variant("來とく", "來る", 0x02, 0x08));
    let r = ReasonEntry { name: "-toku".to_owned(), variants: v };
    proof {
        assert(r@ =~~= spec_entry_toku());
    }
    r
}

/// The variants of the reason named "-zu".
pub open spec fn spec_entry_zu() -> ReasonEntryV {
    ReasonEntryV {
        name: "-zu"@,
        variants: seq![
            ReasonInfoV { kana_in: "ず"@, kana_out: "る"@, rules_in: 0, rules_out: 0x01 },
            ReasonInfoV { kana_in: "かず"@, kana_out: "く"@, rules_in: 0, rules_out: 0x02 },
            ReasonInfoV { kana_in: "がず"@, kana_out: "ぐ"@, rules_in: 0, rules_out: 0x02 },
            ReasonInfoV { kana_in: "さず"@, kana_out: "す"@, rules_in: 0, rules_out: 0x02 },
            ReasonInfoV { kana_in: "たず"@, kana_out: "つ"@, rules_in: 0, rules_out: 0x02 },
            ReasonInfoV { kana_in: "なず"@, kana_out: "ぬ"@, rules_in: 0, rules_out: 0x02 },
            ReasonInfoV { kana_in: "ばず"@, kana_out: "ぶ"@, rules_in: 0, rules_out: 0x02 },
            ReasonInfoV { kana_in: "まず"@, kana_out: "む"@, rules_in: 0, rules_out: 0x02 },
            ReasonInfoV { kana_in: "らず"@, kana_out: "る"@, rules_in: 0, rules_out: 0x02 },
            ReasonInfoV { kana_in: "わず"@, kana_out: "う"@, rules_in: 0, rules_out: 0x02 },
            ReasonInfoV { kana_in: "ぜず"@, kana_out: "ずる"@, rules_in: 0, rules_out: 0x10 },
            ReasonInfoV { kana_in: "せず"@, kana_out: "する"@, rules_in: 0, rules_out: 0x04 },
            ReasonInfoV { kana_in: "為ず"@, kana_out: "為る"@, rules_in: 0, rules_out: 0x04 },
            ReasonInfoV { kana_in: "こず"@, kana_out: "くる"@, rules_in: 0, rules_out: 0x08 },
            ReasonInfoV { kana_in: "来ず"@, kana_out: "来る"@, rules_in: 0, rules_out: 0x08 },
            ReasonInfoV { kana_in: "來ず"@, kana_out: "來る"@, rules_in: 0, rules_out: 0x08 },
        ],
    }
}

fn entry_zu() -> (r: ReasonEntry)
    ensures
        r@ == spec_entry_zu(),
{
    let mut v: Vec<ReasonInfo> = Vec::new();
    v.push(variant("ず", "る", 0, 0x01));
    v.push(variant("かず", "く", 0, 0x02));
    v.push(variant("がず", "ぐ", 0, 0x02));
    v.push(variant("さず", "す", 0, 0x02));
    v.push(variant("たず", "つ", 0, 0x02));
    v.push(variant("なず", "ぬ", 0, 0x02));
    v.push(variant("ばず", "ぶ", 0, 0x02));
    v.push(variant("まず", "む", 0, 0x02));
    v.push(variant("らず", "る", 0, 0x02));
    v.push(variant("わず", "う", 0, 0x02));
    v.push(variant("ぜず", "ずる", 0, 0x10));
    v.push(variant("せず", "する", 0, 0x04));
    v.push(variant("為ず", "為る", 0, 0x04));
    v.push(variant("こず", "くる", 0, 0x08));
    v.push(variant("来ず", "来る", 0, 0x08));
    v.push(variant("來ず", "來る", 0, 0x08));
    let r = ReasonEntry { name: "-zu".to_owned(), variants: v };
    proof {
        assert(r@ =~~= spec_entry_zu());
    }
    r
}

/// The variants of the reason named "-nu".
pub open spec fn spec_entry_nu() -> ReasonEntryV {
    ReasonEntryV {
        name: "-nu"@,
        variants: seq![
            ReasonInfoV { kana_in: "ぬ"@, kana_out: "る"@, rules_in: 0, rules_out: 0x01 },
            ReasonInfoV { kana_in: "かぬ"@, kana_out: "く"@, rules_in: 0, rules_out: 0x02 },
            ReasonInfoV { kana_in: "がぬ"@, kana_out: "ぐ"@, rules_in: 0, rules_out: 0x02 },
            ReasonInfoV { kana_in: "さぬ"@, kana_out: "す"@, rules_in: 0, rules_out: 0x02 },
            ReasonInfoV { kana_in: "たぬ"@, kana_out: "つ"@, rules_in: 0, rules_out: 0x02 },
            ReasonInfoV { kana_in: "なぬ"@, kana_out: "ぬ"@, rules_in: 0, rules_out: 0x02 },
            ReasonInfoV { kana_in: "ばぬ"@, kana_out: "ぶ"@, rules_in: 0, rules_out: 0x02 },
            ReasonInfoV { kana_in: "まぬ"@, kana_out: "む"@, rules_in: 0, rules_out: 0x02 },
            ReasonInfoV { kana_in: "らぬ"@, kana_out: "る"@, rules_in: 0, rules_out: 0x02 },
            ReasonInfoV { kana_in: "わぬ"@, kana_out: "う"@, rules_in: 0, rules_out: 0x02 },
            ReasonInfoV { kana_in: "ぜぬ"@, kana_out: "ずる"@, rules_in: 0, rules_out: 0x10 },
            ReasonInfoV { kana_in: "せぬ"@, kana_out: "する"@, rules_in: 0, rules_out: 0x04 },
            ReasonInfoV { kana_in: "為ぬ"@, kana_out: "為る"@, rules_in: 0, rules_out: 0x04 },
            ReasonInfoV { kana_in: "こぬ"@, kana_out: "くる"@, rules_in: 0, rules_out: 0x08 },
            ReasonInfoV { kana_in: "来ぬ"@, kana_out: "来る"@, rules_in: 0, rules_out: 0x08 },
            ReasonInfoV { kana_in: "來ぬ"@, kana_out: "來る"@, rules_in: 0, rules_out: 0x08 },
        ],
    }
}

fn entry_nu() -> (r: ReasonEntry)
    ensures
        r@ == spec_entry_nu(),
{
    let mut v: Vec<ReasonInfo> = Vec::new();
    v.push(variant("ぬ", "る", 0, 0x01));
    v.push(variant("かぬ", "く", 0, 0x02));
    v.push(variant("がぬ", "ぐ", 0, 0x02));
    v.push(variant("さぬ", "す", 0, 0x02));
    v.push(variant("たぬ", "つ", 0, 0x02));
    v.push(variant("なぬ", "ぬ", 0, 0x02));
    v.push(variant("ばぬ", "ぶ", 0, 0x02));
    v.push(variant("まぬ", "む", 0, 0x02));
    v.push(variant("らぬ", "る", 0, 0x02));
    v.push(variant("わぬ", "う", 0, 0x02));
    v.push(variant("ぜぬ", "ずる", 0, 0x10));
    v.push(variant("せぬ", "する", 0, 0x04));
    v.push(variant("為ぬ", "為る", 0, 0x04));
    v.push(variant("こぬ", "くる", 0, 0x08));
    v.push(variant("来ぬ", "来る", 0, 0x08));
    v.push(variant("來ぬ", "來る", 0, 0x08));
    let r = ReasonEntry { name: "-nu".to_owned(), variants: v };
    proof {
        assert(r@ =~~= spec_entry_nu());
    }
    r
}

/// The variants of the reason named "adv".
pub open spec fn spec_entry_adv() -> ReasonEntryV {
    ReasonEntryV {
        name: "adv"@,
        variants: seq![
            ReasonInfoV { kana_in: "く"@, kana_out: "い"@, rules_in: 0, rules_out: 0x20 },
        ],
    }
}

fn entry_adv() -> (r: ReasonEntry)
    ensures
        r@ == spec_entry_adv(),
{
    let mut v: Vec<ReasonInfo> = Vec::new();
    v.push(variant("く", "い", 0, 0x20));
    let r = ReasonEntry { name: "adv".to_owned(), variants: v };
    proof {
        assert(r@ =~~= spec_entry_adv());
    }
    r
}

/// The variants of the reason named "causative".
pub open spec fn spec_entry_causative() -> ReasonEntryV {
    ReasonEntryV {
        name: "causative"@,
        variants: seq![
            ReasonInfoV { kana_in: "させる"@, kana_out: "る"@, rules_in: 0x01, rules_out: 0x01 },
            ReasonInfoV { kana_in: "かせる"@, kana_out: "く"@, rules_in: 0x01, rules_out: 0x02 },
            ReasonInfoV { kana_in: "がせる"@, kana_out: "ぐ"@, rules_in: 0x01, rules_out: 0x02 },
            ReasonInfoV { kana_in: "させる"@, kana_out: "す"@, rules_in: 0x01, rules_out: 0x02 },
            ReasonInfoV { kana_in: "たせる"@, kana_out: "つ"@, rules_in: 0x01, rules_out: 0x02 },
            ReasonInfoV { kana_in: "なせる"@, kana_out: "ぬ"@, rules_in: 0x01, rules_out: 0x02 },
            ReasonInfoV { kana_in: "ばせる"@, kana_out: "ぶ"@, rules_in: 0x01, rules_out: 0x02 },
            ReasonInfoV { kana_in: "ませる"@, kana_out: "む"@, rules_in: 0x01, rules_out: 0x02 },
            ReasonInfoV { kana_in: "らせる"@, kana_out: "る"@, rules_in: 0x01, rules_out: 0x02 },
            ReasonInfoV { kana_in: "わせる"@, kana_out: "う"@, rules_in: 0x01, rules_out: 0x02 },
            ReasonInfoV { kana_in: "じさせる"@, kana_out: "ずる"@, rules_in: 0x01, rules_out: 0x10 },
            ReasonInfoV { kana_in: "ぜさせる"@, kana_out: "ずる"@, rules_in: 0x01, rules_out: 0x10 },
            ReasonInfoV { kana_in: "させる"@, kana_out: "する"@, rules_in: 0x01, rules_out: 0x04 },
            ReasonInfoV { kana_in: "せさせる"@, kana_out: "する"@, rules_in: 0x01, rules_out: 0x04 },
            ReasonInfoV { kana_in: "為せる"@, kana_out: "為る"@, rules_in: 0x01, rules_out: 0x04 },
            ReasonInfoV { kana_in: "為させる"@, kana_out: "為る"@, rules_in: 0x01, rules_out: 0x04 },
            ReasonInfoV { kana_in: "来させる"@, kana_out: "来る"@, rules_in: 0x01, rules_out: 0x08 },
            ReasonInfoV { kana_in: "來させる"@, kana_out: "來る"@, rules_in: 0x01, rules_out: 0x08 },
            ReasonInfoV { kana_in: "こさせる"@, kana_out: "くる"@, rules_in: 0x01, rules_out: 0x08 },
        ],
    }
}

fn entry_causative() -> (r: ReasonEntry)
    ensures
        r@ == spec_entry_causative(),
{
    let mut v: Vec<ReasonInfo> = Vec::new();
    v.push(variant("させる", "る", 0x01, 0x01));
    v.push(variant("かせる", "く", 0x01, 0x02));
    v.push(variant("がせる", "ぐ", 0x01, 0x02));
    v.push(variant("させる", "す", 0x01, 0x02));
    v.push(variant("たせる", "つ", 0x01, 0x02));
    v.push(variant("なせる", "ぬ", 0x01, 0x02));
    v.push(variant("ばせる", "ぶ", 0x01, 0x02));
    v.push(variant("ませる", "む", 0x01, 0x02));
    v.push(variant("らせる", "る", 0x01, 0x02));
    v.push(variant("わせる", "う", 0x01, 0x02));
    v.push(variant("じさせる", "ずる", 0x01, 0x10));
    v.push(variant("ぜさせる", "ずる", 0x01, 0x10));
    v.push(variant("させる", "する", 0x01, 0x04));
    v.push(variant("せさせる", "する", 0x01, 0x04));
    v.push(variant("為せる", "為る", 0x01, 0x04));
    v.push(variant("為させる", "為る", 0x01, 0x04));
    v.push(variant("来させる", "来る", 0x01, 0x08));
    v.push(variant("來させる", "來る", 0x01, 0x08));
    v.push(variant("こさせる", "くる", 0x01, 0x08));
    let r = ReasonEntry { name: "causative".to_owned(), variants: v };
    proof {
        assert(r@ =~~= spec_entry_causative());
    }
    r
}

/// The variants of the reason named "causative passive".
pub open spec fn spec_entry_causative_passive() -> ReasonEntryV {
    ReasonEntryV {
        name: "causative passive"@,
        variants: seq![
            ReasonInfoV { kana_in: "かされる"@, kana_out: "く"@, rules_in: 0x01, rules_out: 0x02 },
            ReasonInfoV { kana_in: "がされる"@, kana_out: "ぐ"@, rules_in: 0x01, rules_out: 0x02 },
            ReasonInfoV { kana_in: "たされる"@, kana_out: "つ"@, rules_in: 0x01, rules_out: 0x02 },
            ReasonInfoV { kana_in: "なされる"@, kana_out: "ぬ"@, rules_in: 0x01, rules_out: 0x02 },
            ReasonInfoV { kana_in: "ばされる"@, kana_out: "ぶ"@, rules_in: 0x01, rules_out: 0x02 },
            ReasonInfoV { kana_in: "まされる"@, kana_out: "む"@, rules_in: 0x01, rules_out: 0x02 },
            ReasonInfoV { kana_in: "らされる"@, kana_out: "る"@, rules_in: 0x01, rules_out: 0x02 },
            ReasonInfoV { kana_in: "わされる"@, kana_out: "う"@, rules_in: 0x01, rules_out: 0x02 },
        ],
    }
}

fn entry_causative_passive() -> (r: ReasonEntry)
    ensures
        r@ == spec_entry_causative_passive(),
{
    let mut v: Vec<ReasonInfo> = Vec::new();
    v.push(variant("かされる", "く", 0x01, 0x02));
    v.push(variant("がされる", "ぐ", 0x01, 0x02));
    v.push(variant("たされる", "つ", 0x01, 0x02));
    v.push(variant("なされる", "ぬ", 0x01, 0x02));
    v.push(variant("ばされる", "ぶ", 0x01, 0x02));
    v.push(variant("まされる", "む", 0x01, 0x02));
    v.push(variant("らされる", "る", 0x01, 0x02));
    v.push(variant("わされる", "う", 0x01, 0x02));
    let r = ReasonEntry { name: "causative passive".to_owned(), variants: v };
    proof {
        assert(r@ =~~= spec_entry_causative_passive());
    }
    r
}

/// The variants of the reason named "imperative".
pub open spec fn spec_entry_imperative() -> ReasonEntryV {
    ReasonEntryV {
        name: "imperative"@,
        variants: seq![
            ReasonInfoV { kana_in: "ろ"@, kana_out: "る"@, rules_in: 0, rules_out: 0x01 },
            ReasonInfoV { kana_in: "よ"@, kana_out: "る"@, rules_in: 0, rules_out: 0x01 },
            ReasonInfoV { kana_in: "え"@, kana_out: "う"@, rules_in: 0, rules_out: 0x02 },
            ReasonInfoV { kana_in: "け"@, kana_out: "く"@, rules_in: 0, rules_out: 0x02 },
            ReasonInfoV { kana_in: "げ"@, kana_out: "ぐ"@, rules_in: 0, rules_out: 0x02 },
            ReasonInfoV { kana_in: "せ"@, kana_out: "す"@, rules_in: 0, rules_out: 0x02 },
            ReasonInfoV { kana_in: "て"@, kana_out: "つ"@, rules_in: 0, rules_out: 0x02 },
            ReasonInfoV { kana_in: "ね"@, kana_out: "ぬ"@, rules_in: 0, rules_out: 0x02 },
            ReasonInfoV { kana_in: "べ"@, kana_out: "ぶ"@, rules_in: 0, rules_out: 0x02 },
            ReasonInfoV { kana_in: "め"@, kana_out: "む"@, rules_in: 0, rules_out: 0x02 },
            ReasonInfoV { kana_in: "れ"@, kana_out: "る"@, rules_in: 0, rules_out: 0x02 },
            ReasonInfoV { kana_in: "じろ"@, kana_out: "ずる"@, rules_in: 0, rules_out: 0x10 },
            ReasonInfoV { kana_in: "ぜよ"@, kana_out: "ずる"@, rules_in: 0, rules_out: 0x10 },
            ReasonInfoV { kana_in: "しろ"@, kana_out: "する"@, rules_in: 0, rules_out: 0x04 },
            ReasonInfoV { kana_in: "せよ"@, kana_out: "する"@, rules_in: 0, rules_out: 0x04 },
            ReasonInfoV { kana_in: "為ろ"@, kana_out: "為る"@, rules_in: 0, rules_out: 0x04 },
            ReasonInfoV { kana_in: "為よ"@, kana_out: "為る"@, rules_in: 0, rules_out: 0x04 },
            ReasonInfoV { kana_in: "こい"@, kana_out: "くる"@, rules_in: 0, rules_out: 0x08 },
            ReasonInfoV { kana_in: "来い"@, kana_out: "来る"@, rules_in: 0, rules_out: 0x08 },
            ReasonInfoV { kana_in: "來い"@, kana_out: "來る"@, rules_in: 0, rules_out: 0x08 },
        ],
    }
}

fn entry_imperative() -> (r: ReasonEntry)
    ensures
        r@ == spec_entry_imperative(),
{
    let mut v: Vec<ReasonInfo> = Vec::new();
    v.push(variant("ろ", "る", 0, 0x01));
    v.push(variant("よ", "る", 0, 0x01));
    v.push(variant("え", "う", 0, 0x02));
    v.push(variant("け", "く", 0, 0x02));
    v.push(variant("げ", "ぐ", 0, 0x02));
    v.push(variant("せ", "す", 0, 0x02));
    v.push(variant("て", "つ", 0, 0x02));
    v.push(variant("ね", "ぬ", 0, 0x02));
    v.push(variant("べ", "ぶ", 0, 0x02));
    v.push(variant("め", "む", 0, 0x02));
    v.push(variant("れ", "る", 0, 0x02));
    v.push(variant("じろ", "ずる", 0, 0x10));
    v.push(variant("ぜよ", "ずる", 0, 0x10));
    v.push(variant("しろ", "する", 0, 0x04));
    v.push(variant("せよ", "する", 0, 0x04));
    v.push(variant("為ろ", "為る", 0, 0x04));
    v.push(variant("為よ", "為る", 0, 0x04));
    v.push(variant("こい", "くる", 0, 0x08));
    v.push(variant("来い", "来る", 0, 0x08));
    v.push(variant("來い", "來る", 0, 0x08));
    let r = ReasonEntry { name: "imperative".to_owned(), variants: v };
    proof {
        assert(r@ =~~= spec_entry_imperative());
    }
    r
}

/// The variants of the reason named "imperative negative".
pub open spec fn spec_entry_imperative_negative() -> ReasonEntryV {
    ReasonEntryV {
        name: "imperative negative"@,
        variants: seq![
            ReasonInfoV { kana_in: "な"@, kana_out: ""@, rules_in: 0, rules_out: 0x1f },
        ],
    }
}

fn entry_imperative_negative() -> (r: ReasonEntry)
    ensures
        r@ == spec_entry_imperative_negative(),
{
    let mut v: Vec<ReasonInfo> = Vec::new();
    v.push(variant("な", "", 0, 0x1f));
    let r = ReasonEntry { name: "imperative negative".to_owned(), variants: v };
    proof {
        assert(r@ =~~= spec_entry_imperative_negative());
    }
    r
}

/// The variants of the reason named "masu stem".
pub open spec fn spec_entry_masu_stem() -> ReasonEntryV {
    ReasonEntryV {
        name: "masu stem"@,
        variants: seq![
            ReasonInfoV { kana_in: "え"@, kana_out: "える"@, rules_in: 0, rules_out: 0x01 },
            ReasonInfoV { kana_in: "き"@, kana_out: "きる"@, rules_in: 0, rules_out: 0x01 },
            ReasonInfoV { kana_in: "ぎ"@, kana_out: "ぎる"@, rules_in: 0, rules_out: 0x01 },
            ReasonInfoV { kana_in: "け"@, kana_out: "ける"@, rules_in: 0, rules_out: 0x01 },
            ReasonInfoV { kana_in: "げ"@, kana_out: "げる"@, rules_in: 0, rules_out: 0x01 },
            ReasonInfoV { kana_in: "じ"@, kana_out: "じる"@, rules_in: 0, rules_out: 0x01 },
            ReasonInfoV { kana_in: "せ"@, kana_out: "せる"@, rules_in: 0, rules_out: 0x01 },
            ReasonInfoV { kana_in: "ぜ"@, kana_out: "ぜる"@, rules_in: 0, rules_out: 0x01 },
            ReasonInfoV { kana_in: "ち"@, kana_out: "ちる"@, rules_in: 0, rules_out: 0x01 },
            ReasonInfoV { kana_in: "で"@, kana_out: "でる"@, rules_in: 0, rules_out: 0x01 },
            ReasonInfoV { kana_in: "に"@, kana_out: "にる"@, rules_in: 0, rules_out: 0x01 },
            ReasonInfoV { kana_in: "ね"@, kana_out: "ねる"@, rules_in: 0, rules_out: 0x01 },
            ReasonInfoV { kana_in: "ひ"@, kana_out: "ひる"@, rules_in: 0, rules_out: 0x01 },
            ReasonInfoV { kana_in: "び"@, kana_out: "びる"@, rules_in: 0, rules_out: 0x01 },
            ReasonInfoV { kana_in: "へ"@, kana_out: "へる"@, rules_in: 0, rules_out: 0x01 },
            ReasonInfoV { kana_in: "べ"@, kana_out: "べる"@, rules_in: 0, rules_out: 0x01 },
            ReasonInfoV { kana_in: "み"@, kana_out: "みる"@, rules_in: 0, rules_out: 0x01 },
            ReasonInfoV { kana_in: "め"@, kana_out: "める"@, rules_in: 0, rules_out: 0x01 },
            ReasonInfoV { kana_in: "り"@, kana_out: "りる"@, rules_in: 0, rules_out: 0x01 },
            ReasonInfoV { kana_in: "れ"@, kana_out: "れる"@, rules_in: 0, rules_out: 0x01 },
            ReasonInfoV { kana_in: "來"@, kana_out: "來る"@, rules_in: 0, rules_out: 0x08 },
            ReasonInfoV { kana_in: "い"@, kana_out: "う"@, rules_in: 0, rules_out: 0x02 },
            ReasonInfoV { kana_in: "き"@, kana_out: "く"@, rules_in: 0, rules_out: 0x02 },
            ReasonInfoV { kana_in: "ぎ"@, kana_out: "ぐ"@, rules_in: 0, rules_out: 0x02 },
            ReasonInfoV { kana_in: "し"@, kana_out: "す"@, rules_in: 0, rules_out: 0x02 },
            ReasonInfoV { kana_in: "ち"@, kana_out: "つ"@, rules_in: 0, rules_out: 0x02 },
            ReasonInfoV { kana_in: "に"@, kana_out: "ぬ"@, rules_in: 0, rules_out: 0x02 },
            ReasonInfoV { kana_in: "び"@, kana_out: "ぶ"@, rules_in: 0, rules_out: 0x02 },
            ReasonInfoV { kana_in: "み"@, kana_out: "む"@, rules_in: 0, rules_out: 0x02 },
            ReasonInfoV { kana_in: "り"@, kana_out: "る"@, rules_in: 0, rules_out: 0x02 },
            ReasonInfoV { kana_in: "き"@, kana_out: "くる"@, rules_in: 0, rules_out: 0x08 },
            ReasonInfoV { kana_in: "来"@, kana_out: "来る"@, rules_in: 0, rules_out: 0x08 },
        ],
    }
}

fn entry_masu_stem() -> (r: ReasonEntry)
    ensures
        r@ == spec_entry_masu_stem(),
{
    let mut v: Vec<ReasonInfo> = Vec::new();
    v.push(variant("え", "える", 0, 0x01));
    v.push(variant("き", "きる", 0, 0x01));
    v.push(variant("ぎ", "ぎる", 0, 0x01));
    v.push(variant("け", "ける", 0, 0x01));
    v.push(variant("げ", "げる", 0, 0x01));
    v.push(variant("じ", "じる", 0, 0x01));
    v.push(variant("せ", "せる", 0, 0x01));
    v.push(variant("ぜ", "ぜる", 0, 0x01));
    v.push(variant("ち", "ちる", 0, 0x01));
    v.push(variant("で", "でる", 0, 0x01));
    v.push(variant("に", "にる", 0, 0x01));
    v.push(variant("ね", "ねる", 0, 0x01));
    v.push(variant("ひ", "ひる", 0, 0x01));
    v.push(variant("び", "びる", 0, 0x01));
    v.push(variant("へ", "へる", 0, 0x01));
    v.push(variant("べ", "べる", 0, 0x01));
    v.push(variant("み", "みる", 0, 0x01));
    v.push(variant("め", "める", 0, 0x01));
    v.push(variant("り", "りる", 0, 0x01));
    v.push(variant("れ", "れる", 0, 0x01));
    v.push(variant("來", "來る", 0, 0x08));
    v.push(variant("い", "う", 0, 0x02));
    v.push(variant("き", "く", 0, 0x02));
    v.push(variant("ぎ", "ぐ", 0, 0x02));
    v.push(variant("し", "す", 0, 0x02));
    v.push(variant("ち", "つ", 0, 0x02));
    v.push(variant("に", "ぬ", 0, 0x02));
    v.push(variant("び", "ぶ", 0, 0x02));
    v.push(variant("み", "む", 0, 0x02));
    v.push(variant("り", "る", 0, 0x02));
    v.push(variant("き", "くる", 0, 0x08));
    v.push(variant("来", "来る", 0, 0x08));
    let r = ReasonEntry { name: "masu stem".to_owned(), variants: v };
    proof {
        assert(r@ =~~= spec_entry_masu_stem());
    }
    r
}

/// The variants of the reason named "negative".
pub open spec fn spec_entry_negative() -> ReasonEntryV {
    ReasonEntryV {
        name: "negative"@,
        variants: seq![
            ReasonInfoV { kana_in: "くない"@, kana_out: "い"@, rules_in: 0x20, rules_out: 0x20 },
            ReasonInfoV { kana_in: "ない"@, kana_out: "る"@, rules_in: 0x20, rules_out: 0x01 },
            ReasonInfoV { kana_in: "かない"@, kana_out: "く"@, rules_in: 0x20, rules_out: 0x02 },
            ReasonInfoV { kana_in: "がない"@, kana_out: "ぐ"@, rules_in: 0x20, rules_out: 0x02 },
            ReasonInfoV { kana_in: "さない"@, kana_out: "す"@, rules_in: 0x20, rules_out: 0x02 },
            ReasonInfoV { kana_in: "たない"@, kana_out: "つ"@, rules_in: 0x20, rules_out: 0x02 },
            ReasonInfoV { kana_in: "なない"@, kana_out: "ぬ"@, rules_in: 0x20, rules_out: 0x02 },
            ReasonInfoV { kana_in: "ばない"@, kana_out: "ぶ"@, rules_in: 0x20, rules_out: 0x02 },
            ReasonInfoV { kana_in: "まない"@, kana_out: "む"@, rules_in: 0x20, rules_out: 0x02 },
            ReasonInfoV { kana_in: "らない"@, kana_out: "る"@, rules_in: 0x20, rules_out: 0x02 },
            ReasonInfoV { kana_in: "わない"@, kana_out: "う"@, rules_in: 0x20, rules_out: 0x02 },
            ReasonInfoV { kana_in: "じない"@, kana_out: "ずる"@, rules_in: 0x20, rules_out: 0x10 },
            ReasonInfoV { kana_in: "しない"@, kana_out: "する"@, rules_in: 0x20, rules_out: 0x04 },
            ReasonInfoV { kana_in: "為ない"@, kana_out: "為る"@, rules_in: 0x20, rules_out: 0x04 },
            ReasonInfoV { kana_in: "こない"@, kana_out: "くる"@, rules_in: 0x20, rules_out: 0x08 },
            ReasonInfoV { kana_in: "来ない"@, kana_out: "来る"@, rules_in: 0x20, rules_out: 0x08 },
            ReasonInfoV { kana_in: "來ない"@, kana_out: "來る"@, rules_in: 0x20, rules_out: 0x08 },
        ],
    }
}

fn entry_negative() -> (r: ReasonEntry)
    ensures
        r@ == spec_entry_negative(),
{
    let mut v: Vec<ReasonInfo> = Vec::new();
    v.push(variant("くない", "い", 0x20, 0x20));
    v.push(variant("ない", "る", 0x20, 0x01));
    v.push(variant("かない", "く", 0x20, 0x02));
    v.push(variant("がない", "ぐ", 0x20, 0x02));
    v.push(variant("さない", "す", 0x20, 0x02));
    v.push(variant("たない", "つ", 0x20, 0x02));
    v.push(variant("なない", "ぬ", 0x20, 0x02));
    v.push(variant("ばない", "ぶ", 0x20, 0x02));
    v.push(variant("まない", "む", 0x20, 0x02));
    v.push(variant("らない", "る", 0x20, 0x02));
    v.push(variant("わない", "う", 0x20, 0x02));
    v.push(variant("じない", "ずる", 0x20, 0x10));
    v.push(variant("しない", "する", 0x20, 0x04));
    v.push(variant("為ない", "為る", 0x20, 0x04));
    v.push(variant("こない", "くる", 0x20, 0x08));
    v.push(variant("来ない", "来る", 0x20, 0x08));
    v.push(variant("來ない", "來る", 0x20, 0x08));
    let r = ReasonEntry { name: "negative".to_owned(), variants: v };
    proof {
        assert(r@ =~~= spec_entry_negative());
    }
    r
}

/// The variants of the reason named "noun".
pub open spec fn spec_entry_noun() -> ReasonEntryV {
    ReasonEntryV {
        name: "noun"@,
        variants: seq![
            ReasonInfoV { kana_in: "さ"@, kana_out: "い"@, rules_in: 0, rules_out: 0x20 },
        ],
    }
}

fn entry_noun() -> (r: ReasonEntry)
    ensures
        r@ == spec_entry_noun(),
{
    let mut v: Vec<ReasonInfo> = Vec::new();
    v.push(variant("さ", "い", 0, 0x20));
    let r = ReasonEntry { name: "noun".to_owned(), variants: v };
    proof {
        assert(r@ =~~= spec_entry_noun());
    }
    r
}

/// The variants of the reason named "passive".
pub open spec fn spec_entry_passive() -> ReasonEntryV {
    ReasonEntryV {
        name: "passive"@,
        variants: seq![
            ReasonInfoV { kana_in: "かれる"@, kana_out: "く"@, rules_in: 0x01, rules_out: 0x02 },
            ReasonInfoV { kana_in: "がれる"@, kana_out: "ぐ"@, rules_in: 0x01, rules_out: 0x02 },
            ReasonInfoV { kana_in: "される"@, kana_out: "す"@, rules_in: 0x01, rules_out: 0x02 },
            ReasonInfoV { kana_in: "たれる"@, kana_out: "つ"@, rules_in: 0x01, rules_out: 0x02 },
            ReasonInfoV { kana_in: "なれる"@, kana_out: "ぬ"@, rules_in: 0x01, rules_out: 0x02 },
            ReasonInfoV { kana_in: "ばれる"@, kana_out: "ぶ"@, rules_in: 0x01, rules_out: 0x02 },
            ReasonInfoV { kana_in: "まれる"@, kana_out: "む"@, rules_in: 0x01, rules_out: 0x02 },
            ReasonInfoV { kana_in: "われる"@, kana_out: "う"@, rules_in: 0x01, rules_out: 0x02 },
            ReasonInfoV { kana_in: "られる"@, kana_out: "る"@, rules_in: 0x01, rules_out: 0x02 },
            ReasonInfoV { kana_in: "じされる"@, kana_out: "ずる"@, rules_in: 0x01, rules_out: 0x10 },
            ReasonInfoV { kana_in: "ぜされる"@, kana_out: "ずる"@, rules_in: 0x01, rules_out: 0x10 },
            ReasonInfoV { kana_in: "される"@, kana_out: "する"@, rules_in: 0x01, rules_out: 0x04 },
            ReasonInfoV { kana_in: "為れる"@, kana_out: "為る"@, rules_in: 0x01, rules_out: 0x04 },
            ReasonInfoV { kana_in: "来られる"@, kana_out: "来る"@, rules_in: 0x01, rules_out: 0x08 },
            ReasonInfoV { kana_in: "こられる"@, kana_out: "くる"@, rules_in: 0x01, rules_out: 0x08 },
        ],
    }
}

fn entry_passive() -> (r: ReasonEntry)
    ensures
        r@ == spec_entry_passive(),
{
    let mut v: Vec<ReasonInfo> = Vec::new();
    v.push(variant("かれる", "く", 0x01, 0x02));
    v.push(variant("がれる", "ぐ", 0x01, 0x02));
    v.push(variant("される", "す", 0x01, 0x02));
    v.push(variant("たれる", "つ", 0x01, 0x02));
    v.push(variant("なれる", "ぬ", 0x01, 0x02));
    v.push(variant("ばれる", "ぶ", 0x01, 0x02));
    v.push(variant("まれる", "む", 0x01, 0x02));
    v.push(variant("われる", "う", 0x01, 0x02));
    v.push(variant("られる", "る", 0x01, 0x02));
    v.push(variant("じされる", "ずる", 0x01, 0x10));
    v.push(variant("ぜされる", "ずる", 0x01, 0x10));
    v.push(variant("される", "する", 0x01, 0x04));
    v.push(variant("為れる", "為る", 0x01, 0x04));
    v.push(variant("来られる", "来る", 0x01, 0x08));
    v.push(variant("こられる", "くる", 0x01, 0x08));
    let r = ReasonEntry { name: "passive".to_owned(), variants: v };
    proof {
        assert(r@ =~~= spec_entry_passive());
    }
    r
}

/// The variants of the reason named "past".
pub open spec fn spec_entry_past() -> ReasonEntryV {
    ReasonEntryV {
        name: "past"@,
        variants: seq![
            ReasonInfoV { kana_in: "かった"@, kana_out: "い"@, rules_in: 0, rules_out: 0x20 },
            ReasonInfoV { kana_in: "た"@, kana_out: "る"@, rules_in: 0, rules_out: 0x01 },
            ReasonInfoV { kana_in: "いた"@, kana_out: "く"@, rules_in: 0, rules_out: 0x02 },
            ReasonInfoV { kana_in: "いだ"@, kana_out: "ぐ"@, rules_in: 0, rules_out: 0x02 },
            ReasonInfoV { kana_in: "した"@, kana_out: "す"@, rules_in: 0, rules_out: 0x02 },
            ReasonInfoV { kana_in: "った"@, kana_out: "う"@, rules_in: 0, rules_out: 0x02 },
            ReasonInfoV { kana_in: "った"@, kana_out: "つ"@, rules_in: 0, rules_out: 0x02 },
            ReasonInfoV { kana_in: "った"@, kana_out: "る"@, rules_in: 0, rules_out: 0x02 },
            ReasonInfoV { kana_in: "んだ"@, kana_out: "ぬ"@, rules_in: 0, rules_out: 0x02 },
            ReasonInfoV { kana_in: "んだ"@, kana_out: "ぶ"@, rules_in: 0, rules_out: 0x02 },
            ReasonInfoV { kana_in: "んだ"@, kana_out: "む"@, rules_in: 0, rules_out: 0x02 },
            ReasonInfoV { kana_in: "じた"@, kana_out: "ずる"@, rules_in: 0, rules_out: 0x10 },
            ReasonInfoV { kana_in: "した"@, kana_out: "する"@, rules_in: 0, rules_out: 0x04 },
            ReasonInfoV { kana_in: "為た"@, kana_out: "為る"@, rules_in: 0, rules_out: 0x04 },
            ReasonInfoV { kana_in: "きた"@, kana_out: "くる"@, rules_in: 0, rules_out: 0x08 },
            ReasonInfoV { kana_in: "来た"@, kana_out: "来る"@, rules_in: 0, rules_out: 0x08 },
            ReasonInfoV { kana_in: "來た"@, kana_out: "來る"@, rules_in: 0, rules_out: 0x08 },
            ReasonInfoV { kana_in: "いった"@, kana_out: "いく"@, rules_in: 0, rules_out: 0x02 },
            ReasonInfoV { kana_in: "おうた"@, kana_out: "おう"@, rules_in: 0, rules_out: 0x02 },
            ReasonInfoV { kana_in: "こうた"@, kana_out: "こう"@, rules_in: 0, rules_out: 0x02 },
            ReasonInfoV { kana_in: "そうた"@, kana_out: "そう"@, rules_in: 0, rules_out: 0x02 },
            ReasonInfoV { kana_in: "とうた"@, kana_out: "とう"@, rules_in: 0, rules_out: 0x02 },
            ReasonInfoV { kana_in: "行った"@, kana_out: "行く"@, rules_in: 0, rules_out: 0x02 },
            ReasonInfoV { kana_in: "逝った"@, kana_out: "逝く"@, rules_in: 0, rules_out: 0x02 },
            ReasonInfoV { kana_in: "往った"@, kana_out: "往く"@, rules_in: 0, rules_out: 0x02 },
            ReasonInfoV { kana_in: "請うた"@, kana_out: "請う"@, rules_in: 0, rules_out: 0x02 },
            ReasonInfoV { kana_in: "乞うた"@, kana_out: "乞う"@, rules_in: 0, rules_out: 0x02 },
            ReasonInfoV { kana_in: "恋うた"@, kana_out: "恋う"@, rules_in: 0, rules_out: 0x02 },
            ReasonInfoV { kana_in: "問うた"@, kana_out: "問う"@, rules_in: 0, rules_out: 0x02 },
            ReasonInfoV { kana_in: "負うた"@, kana_out: "負う"@, rules_in: 0, rules_out: 0x02 },
            ReasonInfoV { kana_in: "沿うた"@, kana_out: "沿う"@, rules_in: 0, rules_out: 0x02 },
            ReasonInfoV { kana_in: "添うた"@, kana_out: "添う"@, rules_in: 0, rules_out: 0x02 },
            ReasonInfoV { kana_in: "副うた"@, kana_out: "副う"@, rules_in: 0, rules_out: 0x02 },
            ReasonInfoV { kana_in: "厭うた"@, kana_out: "厭う"@, rules_in: 0, rules_out: 0x02 },
            ReasonInfoV { kana_in: "もうた"@, kana_out: "まう"@, rules_in: 0, rules_out: 0x02 },
        ],
    }
}

fn entry_past() -> (r: ReasonEntry)
    ensures
        r@ == spec_entry_past(),
{
    let mut v: Vec<ReasonInfo> = Vec::new();
    v.push(variant("かった", "い", 0, 0x20));
    v.push(variant("た", "る", 0, 0x01));
    v.push(variant("いた", "く", 0, 0x02));
    v.push(variant("いだ", "ぐ", 0, 0x02));
    v.push(variant("した", "す", 0, 0x02));
    v.push(variant("った", "う", 0, 0x02));
    v.push(variant("った", "つ", 0, 0x02));
    v.push(variant("った", "る", 0, 0x02));
    v.push(variant("んだ", "ぬ", 0, 0x02));
    v.push(variant("んだ", "ぶ", 0, 0x02));
    v.push(variant("んだ", "む", 0, 0x02));
    v.push(variant("じた", "ずる", 0, 0x10));
    v.push(variant("した", "する", 0, 0x04));
    v.push(variant("為た", "為る", 0, 0x04));
    v.push(variant("きた", "くる", 0, 0x08));
    v.push(variant("来た", "来る", 0, 0x08));
    v.push(variant("來た", "來る", 0, 0x08));
    v.push(variant("いった", "いく", 0, 0x02));
    v.push(variant("おうた", "おう", 0, 0x02));
    v.push(variant("こうた", "こう", 0, 0x02));
    v.push(variant("そうた", "そう", 0, 0x02));
    v.push(variant("とうた", "とう", 0, 0x02));
    v.push(variant("行った", "行く", 0, 0x02));
    v.push(variant("逝った", "逝く", 0, 0x02));
    v.push(variant("往った", "往く", 0, 0x02));
    v.push(variant("請うた", "請う", 0, 0x02));
    v.push(variant("乞うた", "乞う", 0, 0x02));
    v.push(variant("恋うた", "恋う", 0, 0x02));
    v.push(variant("問うた", "問う", 0, 0x02));
    v.push(variant("負うた", "負う", 0, 0x02));
    v.push(variant("沿うた", "沿う", 0, 0x02));
    v.push(variant("添うた", "添う", 0, 0x02));
    v.push(variant("副うた", "副う", 0, 0x02));
    v.push(variant("厭うた", "厭う", 0, 0x02));
    v.push(variant("もうた", "まう", 0, 0x02));
    let r = ReasonEntry { name: "past".to_owned(), variants: v };
    proof {
        assert(r@ =~~= spec_entry_past());
    }
    r
}

/// The variants of the reason named "polite".
pub open spec fn spec_entry_polite() -> ReasonEntryV {
    ReasonEntryV {
        name: "polite"@,
        variants: seq![
            ReasonInfoV { kana_in: "ます"@, kana_out: "る"@, rules_in: 0, rules_out: 0x01 },
            ReasonInfoV { kana_in: "います"@, kana_out: "う"@, rules_in: 0, rules_out: 0x02 },
            ReasonInfoV { kana_in: "きます"@, kana_out: "く"@, rules_in: 0, rules_out: 0x02 },
            ReasonInfoV { kana_in: "ぎます"@, kana_out: "ぐ"@, rules_in: 0, rules_out: 0x02 },
            ReasonInfoV { kana_in: "します"@, kana_out: "す"@, rules_in: 0, rules_out: 0x02 },
            ReasonInfoV { kana_in: "ちます"@, kana_out: "つ"@, rules_in: 0, rules_out: 0x02 },
            ReasonInfoV { kana_in: "にます"@, kana_out: "ぬ"@, rules_in: 0, rules_out: 0x02 },
            ReasonInfoV { kana_in: "びます"@, kana_out: "ぶ"@, rules_in: 0, rules_out: 0x02 },
            ReasonInfoV { kana_in: "みます"@, kana_out: "む"@, rules_in: 0, rules_out: 0x02 },
            ReasonInfoV { kana_in: "ります"@, kana_out: "る"@, rules_in: 0, rules_out: 0x02 },
            ReasonInfoV { kana_in: "じます"@, kana_out: "ずる"@, rules_in: 0, rules_out: 0x10 },
            ReasonInfoV { kana_in: "します"@, kana_out: "する"@, rules_in: 0, rules_out: 0x04 },
            ReasonInfoV { kana_in: "為ます"@, kana_out: "為る"@, rules_in: 0, rules_out: 0x04 },
            ReasonInfoV { kana_in: "きます"@, kana_out: "くる"@, rules_in: 0, rules_out: 0x08 },
            ReasonInfoV { kana_in: "来ます"@, kana_out: "来る"@, rules_in: 0, rules_out: 0x08 },
            ReasonInfoV { kana_in: "來ます"@, kana_out: "來る"@, rules_in: 0, rules_out: 0x08 },
            ReasonInfoV { kana_in: "くあります"@, kana_out: "い"@, rules_in: 0, rules_out: 0x20 },
        ],
    }
}

fn entry_polite() -> (r: ReasonEntry)
    ensures
        r@ == spec_entry_polite(),
{
    let mut v: Vec<ReasonInfo> = Vec::new();
    v.push(variant("ます", "る", 0, 0x01));
    v.push(variant("います", "う", 0, 0x02));
    v.push(variant("きます", "く", 0, 0x02));
    v.push(variant("ぎます", "ぐ", 0, 0x02));
    v.push(variant("します", "す", 0, 0x02));
    v.push(variant("ちます", "つ", 0, 0x02));
    v.push(variant("にます", "ぬ", 0, 0x02));
    v.push(variant("びます", "ぶ", 0, 0x02));
    v.push(variant("みます", "む", 0, 0x02));
    v.push(variant("ります", "る", 0, 0x02));
    v.push(variant("じます", "ずる", 0, 0x10));
    v.push(variant("します", "する", 0, 0x04));
    v.push(variant("為ます", "為る", 0, 0x04));
    v.push(variant("きます", "くる", 0, 0x08));
    v.push(variant("来ます", "来る", 0, 0x08));
    v.push(variant("來ます", "來る", 0, 0x08));
    v.push(variant("くあります", "い", 0, 0x20));
    let r = ReasonEntry { name: "polite".to_owned(), variants: v };
    proof {
        assert(r@ =~~= spec_entry_polite());
    }
    r
}

/// The variants of the reason named "polite negative".
pub open spec fn spec_entry_polite_negative() -> ReasonEntryV {
    ReasonEntryV {
        name: "polite negative"@,
        variants: seq![
            ReasonInfoV { kana_in: "ません"@, kana_out: "る"@, rules_in: 0, rules_out: 0x01 },
            ReasonInfoV { kana_in: "いません"@, kana_out: "う"@, rules_in: 0, rules_out: 0x02 },
            ReasonInfoV { kana_in: "きません"@, kana_out: "く"@, rules_in: 0, rules_out: 0x02 },
            ReasonInfoV { kana_in: "ぎません"@, kana_out: "ぐ"@, rules_in: 0, rules_out: 0x02 },
            ReasonInfoV { kana_in: "しません"@, kana_out: "す"@, rules_in: 0, rules_out: 0x02 },
            ReasonInfoV { kana_in: "ちません"@, kana_out: "つ"@, rules_in: 0, rules_out: 0x02 },
            ReasonInfoV { kana_in: "にません"@, kana_out: "ぬ"@, rules_in: 0, rules_out: 0x02 },
            ReasonInfoV { kana_in: "びません"@, kana_out: "ぶ"@, rules_in: 0, rules_out: 0x02 },
            ReasonInfoV { kana_in: "みません"@, kana_out: "む"@, rules_in: 0, rules_out: 0x02 },
            ReasonInfoV { kana_in: "りません"@, kana_out: "る"@, rules_in: 0, rules_out: 0x02 },
            ReasonInfoV { kana_in: "じません"@, kana_out: "ずる"@, rules_in: 0, rules_out: 0x10 },
            ReasonInfoV { kana_in: "しません"@, kana_out: "する"@, rules_in: 0, rules_out: 0x04 },
            ReasonInfoV { kana_in: "為ません"@, kana_out: "為る"@, rules_in: 0, rules_out: 0x04 },
            ReasonInfoV { kana_in: "きません"@, kana_out: "くる"@, rules_in: 0, rules_out: 0x08 },
            ReasonInfoV { kana_in: "来ません"@, kana_out: "来る"@, rules_in: 0, rules_out: 0x08 },
            ReasonInfoV { kana_in: "來ません"@, kana_out: "來る"@, rules_in: 0, rules_out: 0x08 },
            ReasonInfoV { kana_in: "くありません"@, kana_out: "い"@, rules_in: 0, rules_out: 0x20 },
        ],
    }
}

fn entry_polite_negative() -> (r: ReasonEntry)
    ensures
        r@ == spec_entry_polite_negative(),
{
    let mut v: Vec<ReasonInfo> = Vec::new();
    v.push(variant("ません", "る", 0, 0x01));
    v.push(variant("いません", "う", 0, 0x02));
    v.push(variant("きません", "く", 0, 0x02));
    v.push(variant("ぎません", "ぐ", 0, 0x02));
    v.push(variant("しません", "す", 0, 0x02));
    v.push(variant("ちません", "つ", 0, 0x02));
    v.push(variant("にません", "ぬ", 0, 0x02));
    v.push(variant("びません", "ぶ", 0, 0x02));
    v.push(variant("みません", "む", 0, 0x02));
    v.push(variant("りません", "る", 0, 0x02));
    v.push(variant("じません", "ずる", 0, 0x10));
    v.push(variant("しません", "する", 0, 0x04));
    v.push(variant("為ません", "為る", 0, 0x04));
    v.push(variant("きません", "くる", 0, 0x08));
    v.push(variant("来ません", "来る", 0, 0x08));
    v.push(variant("來ません", "來る", 0, 0x08));
    v.push(variant("くありません", "い", 0, 0x20));
    let r = ReasonEntry { name: "polite negative".to_owned(), variants: v };
    proof {
        assert(r@ =~~= spec_entry_polite_negative());
    }
    r
}

/// The variants of the reason named "polite past".
pub open spec fn spec_entry_polite_past() -> ReasonEntryV {
    ReasonEntryV {
        name: "polite past"@,
        variants: seq![
            ReasonInfoV { kana_in: "ました"@, kana_out: "る"@, rules_in: 0, rules_out: 0x01 },
            ReasonInfoV { kana_in: "いました"@, kana_out: "う"@, rules_in: 0, rules_out: 0x02 },
            ReasonInfoV { kana_in: "きました"@, kana_out: "く"@, rules_in: 0, rules_out: 0x02 },
            ReasonInfoV { kana_in: "ぎました"@, kana_out: "ぐ"@, rules_in: 0, rules_out: 0x02 },
            ReasonInfoV { kana_in: "しました"@, kana_out: "す"@, rules_in: 0, rules_out: 0x02 },
            ReasonInfoV { kana_in: "ちました"@, kana_out: "つ"@, rules_in: 0, rules_out: 0x02 },
            ReasonInfoV { kana_in: "にました"@, kana_out: "ぬ"@, rules_in: 0, rules_out: 0x02 },
            ReasonInfoV { kana_in: "びました"@, kana_out: "ぶ"@, rules_in: 0, rules_out: 0x02 },
            ReasonInfoV { kana_in: "みました"@, kana_out: "む"@, rules_in: 0, rules_out: 0x02 },
            ReasonInfoV { kana_in: "りました"@, kana_out: "る"@, rules_in: 0, rules_out: 0x02 },
            ReasonInfoV { kana_in: "じました"@, kana_out: "ずる"@, rules_in: 0, rules_out: 0x10 },
            ReasonInfoV { kana_in: "しました"@, kana_out: "する"@, rules_in: 0, rules_out: 0x04 },
            ReasonInfoV { kana_in: "為ました"@, kana_out: "為る"@, rules_in: 0, rules_out: 0x04 },
            ReasonInfoV { kana_in: "きました"@, kana_out: "くる"@, rules_in: 0, rules_out: 0x08 },
            ReasonInfoV { kana_in: "来ました"@, kana_out: "来る"@, rules_in: 0, rules_out: 0x08 },
            ReasonInfoV { kana_in: "來ました"@, kana_out: "來る"@, rules_in: 0, rules_out: 0x08 },
        ],
    }
}

fn entry_polite_past() -> (r: ReasonEntry)
    ensures
        r@ == spec_entry_polite_past(),
{
    let mut v: Vec<ReasonInfo> = Vec::new();
    v.push(variant("ました", "る", 0, 0x01));
    v.push(variant("いました", "う", 0, 0x02));
    v.push(variant("きました", "く", 0, 0x02));
    v.push(variant("ぎました", "ぐ", 0, 0x02));
    v.push(variant("しました", "す", 0, 0x02));
    v.push(variant("ちました", "つ", 0, 0x02));
    v.push(variant("にました", "ぬ", 0, 0x02));
    v.push(variant("びました", "ぶ", 0, 0x02));
    v.push(variant("みました", "む", 0, 0x02));
    v.push(variant("りました", "る", 0, 0x02));
    v.push(variant("じました", "ずる", 0, 0x10));
    v.push(variant("しました", "する", 0, 0x04));
    v.push(variant("為ました", "為る", 0, 0x04));
    v.push(variant("きました", "くる", 0, 0x08));
    v.push(variant("来ました", "来る", 0, 0x08));
    v.push(variant("來ました", "來る", 0, 0x08));
    let r = ReasonEntry { name: "polite past".to_owned(), variants: v };
    proof {
        assert(r@ =~~= spec_entry_polite_past());
    }
    r
}

/// The variants of the reason named "polite past negative".
pub open spec fn spec_entry_polite_past_negative() -> ReasonEntryV {
    ReasonEntryV {
        name: "polite past negative"@,
        variants: seq![
            ReasonInfoV { kana_in: "ませんでした"@, kana_out: "る"@, rules_in: 0, rules_out: 0x01 },
            ReasonInfoV { kana_in: "いませんでした"@, kana_out: "う"@, rules_in: 0, rules_out: 0x02 },
            ReasonInfoV { kana_in: "きませんでした"@, kana_out: "く"@, rules_in: 0, rules_out: 0x02 },
            ReasonInfoV { kana_in: "ぎませんでした"@, kana_out: "ぐ"@, rules_in: 0, rules_out: 0x02 },
            ReasonInfoV { kana_in: "しませんでした"@, kana_out: "す"@, rules_in: 0, rules_out: 0x02 },
            ReasonInfoV { kana_in: "ちませんでした"@, kana_out: "つ"@, rules_in: 0, rules_out: 0x02 },
            ReasonInfoV { kana_in: "にませんでした"@, kana_out: "ぬ"@, rules_in: 0, rules_out: 0x02 },
            ReasonInfoV { kana_in: "びませんでした"@, kana_out: "ぶ"@, rules_in: 0, rules_out: 0x02 },
            ReasonInfoV { kana_in: "みませんでした"@, kana_out: "む"@, rules_in: 0, rules_out: 0x02 },
            ReasonInfoV { kana_in: "りませんでした"@, kana_out: "る"@, rules_in: 0, rules_out: 0x02 },
            ReasonInfoV { kana_in: "じませんでした"@, kana_out: "ずる"@, rules_in: 0, rules_out: 0x10 },
            ReasonInfoV { kana_in: "しませんでした"@, kana_out: "する"@, rules_in: 0, rules_out: 0x04 },
            ReasonInfoV { kana_in: "為ませんでした"@, kana_out: "為る"@, rules_in: 0, rules_out: 0x04 },
            ReasonInfoV { kana_in: "きませんでした"@, kana_out: "くる"@, rules_in: 0, rules_out: 0x08 },
            ReasonInfoV { kana_in: "来ませんでした"@, kana_out: "来る"@, rules_in: 0, rules_out: 0x08 },
            ReasonInfoV { kana_in: "來ませんでした"@, kana_out: "來る"@, rules_in: 0, rules_out: 0x08 },
            ReasonInfoV { kana_in: "くありませんでした"@, kana_out: "い"@, rules_in: 0, rules_out: 0x20 },
        ],
    }
}

fn entry_polite_past_negative() -> (r: ReasonEntry)
    ensures
        r@ == spec_entry_polite_past_negative(),
{
    let mut v: Vec<ReasonInfo> = Vec::new();
    v.push(variant("ませんでした", "る", 0, 0x01));
    v.push(variant("いませんでした", "う", 0, 0x02));
    v.push(variant("きませんでした", "く", 0, 0x02));
    v.push(variant("ぎませんでした", "ぐ", 0, 0x02));
    v.push(variant("しませんでした", "す", 0, 0x02));
    v.push(variant("ちませんでした", "つ", 0, 0x02));
    v.push(variant("にませんでした", "ぬ", 0, 0x02));
    v.push(variant("びませんでした", "ぶ", 0, 0x02));
    v.push(variant("みませんでした", "む", 0, 0x02));
    v.push(variant("りませんでした", "る", 0, 0x02));
    v.push(variant("じませんでした", "ずる", 0, 0x10));
    v.push(variant("しませんでした", "する", 0, 0x04));
    v.push(variant("為ませんでした", "為る", 0, 0x04));
    v.push(variant("きませんでした", "くる", 0, 0x08));
    v.push(variant("来ませんでした", "来る", 0, 0x08));
    v.push(variant("來ませんでした", "來る", 0, 0x08));
    v.push(variant("くありませんでした", "い", 0, 0x20));
    let r = ReasonEntry { name: "polite past negative".to_owned(), variants: v };
    proof {
        assert(r@ =~~= spec_entry_polite_past_negative());
    }
    r
}

/// The variants of the reason named "polite volitional".
pub open spec fn spec_entry_polite_volitional() -> ReasonEntryV {
    ReasonEntryV {
        name: "polite volitional"@,
        variants: seq![
            ReasonInfoV { kana_in: "ましょう"@, kana_out: "る"@, rules_in: 0, rules_out: 0x01 },
            ReasonInfoV { kana_in: "いましょう"@, kana_out: "う"@, rules_in: 0, rules_out: 0x02 },
            ReasonInfoV { kana_in: "きましょう"@, kana_out: "く"@, rules_in: 0, rules_out: 0x02 },
            ReasonInfoV { kana_in: "ぎましょう"@, kana_out: "ぐ"@, rules_in: 0, rules_out: 0x02 },
            ReasonInfoV { kana_in: "しましょう"@, kana_out: "す"@, rules_in: 0, rules_out: 0x02 },
            ReasonInfoV { kana_in: "ちましょう"@, kana_out: "つ"@, rules_in: 0, rules_out: 0x02 },
            ReasonInfoV { kana_in: "にましょう"@, kana_out: "ぬ"@, rules_in: 0, rules_out: 0x02 },
            ReasonInfoV { kana_in: "びましょう"@, kana_out: "ぶ"@, rules_in: 0, rules_out: 0x02 },
            ReasonInfoV { kana_in: "みましょう"@, kana_out: "む"@, rules_in: 0, rules_out: 0x02 },
            ReasonInfoV { kana_in: "りましょう"@, kana_out: "る"@, rules_in: 0, rules_out: 0x02 },
            ReasonInfoV { kana_in: "じましょう"@, kana_out: "ずる"@, rules_in: 0, rules_out: 0x10 },
            ReasonInfoV { kana_in: "しましょう"@, kana_out: "する"@, rules_in: 0, rules_out: 0x04 },
            ReasonInfoV { kana_in: "為ましょう"@, kana_out: "為る"@, rules_in: 0, rules_out: 0x04 },
            ReasonInfoV { kana_in: "きましょう"@, kana_out: "くる"@, rules_in: 0, rules_out: 0x08 },
            ReasonInfoV { kana_in: "来ましょう"@, kana_out: "来る"@, rules_in: 0, rules_out: 0x08 },
            ReasonInfoV { kana_in: "來ましょう"@, kana_out: "來る"@, rules_in: 0, rules_out: 0x08 },
        ],
    }
}

fn entry_polite_volitional() -> (r: ReasonEntry)
    ensures
        r@ == spec_entry_polite_volitional(),
{
    let mut v: Vec<ReasonInfo> = Vec::new();
    v.push(variant("ましょう", "る", 0, 0x01));
    v.push(variant("いましょう", "う", 0, 0x02));
    v.push(variant("きましょう", "く", 0, 0x02));
    v.push(variant("ぎましょう", "ぐ", 0, 0x02));
    v.push(variant("しましょう", "す", 0, 0x02));
    v.push(variant("ちましょう", "つ", 0, 0x02));
    v.push(variant("にましょう", "ぬ", 0, 0x02));
    v.push(variant("びましょう", "ぶ", 0, 0x02));
    v.push(variant("みましょう", "む", 0, 0x02));
    v.push(variant("りましょう", "る", 0, 0x02));
    v.push(variant("じましょう", "ずる", 0, 0x10));
    v.push(variant("しましょう", "する", 0, 0x04));
    v.push(variant("為ましょう", "為る", 0, 0x04));
    v.push(variant("きましょう", "くる", 0, 0x08));
    v.push(variant("来ましょう", "来る", 0, 0x08));
    v.push(variant("來ましょう", "來る", 0, 0x08));
    let r = ReasonEntry { name: "polite volitional".to_owned(), variants: v };
    proof {
        assert(r@ =~~= spec_entry_polite_volitional());
    }
    r
}

/// The variants of the reason named "potential".
pub open spec fn spec_entry_potential() -> ReasonEntryV {
    ReasonEntryV {
        name: "potential"@,
        variants: seq![
            ReasonInfoV { kana_in: "える"@, kana_out: "う"@, rules_in: 0x01, rules_out: 0x02 },
            ReasonInfoV { kana_in: "ける"@, kana_out: "く"@, rules_in: 0x01, rules_out: 0x02 },
            ReasonInfoV { kana_in: "げる"@, kana_out: "ぐ"@, rules_in: 0x01, rules_out: 0x02 },
            ReasonInfoV { kana_in: "せる"@, kana_out: "す"@, rules_in: 0x01, rules_out: 0x02 },
            ReasonInfoV { kana_in: "てる"@, kana_out: "つ"@, rules_in: 0x01, rules_out: 0x02 },
            ReasonInfoV { kana_in: "ねる"@, kana_out: "ぬ"@, rules_in: 0x01, rules_out: 0x02 },
            ReasonInfoV { kana_in: "べる"@, kana_out: "ぶ"@, rules_in: 0x01, rules_out: 0x02 },
            ReasonInfoV { kana_in: "める"@, kana_out: "む"@, rules_in: 0x01, rules_out: 0x02 },
            ReasonInfoV { kana_in: "れる"@, kana_out: "る"@, rules_in: 0x01, rules_out: 0x03 },
            ReasonInfoV { kana_in: "できる"@, kana_out: "する"@, rules_in: 0x01, rules_out: 0x04 },
            ReasonInfoV { kana_in: "出来る"@, kana_out: "する"@, rules_in: 0x01, rules_out: 0x04 },
            ReasonInfoV { kana_in: "これる"@, kana_out: "くる"@, rules_in: 0x01, rules_out: 0x08 },
            ReasonInfoV { kana_in: "来れる"@, kana_out: "来る"@, rules_in: 0x01, rules_out: 0x08 },
        ],
    }
}

fn entry_potential() -> (r: ReasonEntry)
    ensures
        r@ == spec_entry_potential(),
{
    let mut v: Vec<ReasonInfo> = Vec::new();
    v.push(variant("える", "う", 0x01, 0x02));
    v.push(variant("ける", "く", 0x01, 0x02));
    v.push(variant("げる", "ぐ", 0x01, 0x02));
    v.push(variant("せる", "す", 0x01, 0x02));
    v.push(variant("てる", "つ", 0x01, 0x02));
    v.push(variant("ねる", "ぬ", 0x01, 0x02));
    v.push(variant("べる", "ぶ", 0x01, 0x02));
    v.push(variant("める", "む", 0x01, 0x02));
    v.push(variant("れる", "る", 0x01, 0x03));
    v.push(variant("できる", "する", 0x01, 0x04));
    v.push(variant("出来る", "する", 0x01, 0x04));
    v.push(variant("これる", "くる", 0x01, 0x08));
    v.push(variant("来れる", "来る", 0x01, 0x08));
    let r = ReasonEntry { name: "potential".to_owned(), variants: v };
    proof {
        assert(r@ =~~= spec_entry_potential());
    }
    r
}

/// The variants of the reason named "potential or passive".
pub open spec fn spec_entry_potential_or_passive() -> ReasonEntryV {
    ReasonEntryV {
        name: "potential or passive"@,
        variants: seq![
            ReasonInfoV { kana_in: "られる"@, kana_out: "る"@, rules_in: 0x01, rules_out: 0x01 },
            ReasonInfoV { kana_in: "ざれる"@, kana_out: "ずる"@, rules_in: 0x01, rules_out: 0x10 },
            ReasonInfoV { kana_in: "ぜられる"@, kana_out: "ずる"@, rules_in: 0x01, rules_out: 0x10 },
            ReasonInfoV { kana_in: "せられる"@, kana_out: "する"@, rules_in: 0x01, rules_out: 0x04 },
            ReasonInfoV { kana_in: "為られる"@, kana_out: "為る"@, rules_in: 0x01, rules_out: 0x04 },
            ReasonInfoV { kana_in: "こられる"@, kana_out: "くる"@, rules_in: 0x01, rules_out: 0x08 },
            ReasonInfoV { kana_in: "来られる"@, kana_out: "来る"@, rules_in: 0x01, rules_out: 0x08 },
            ReasonInfoV { kana_in: "來られる"@, kana_out: "來る"@, rules_in: 0x01, rules_out: 0x08 },
        ],
    }
}

fn entry_potential_or_passive() -> (r: ReasonEntry)
    ensures
        r@ == spec_entry_potential_or_passive(),
{
    let mut v: Vec<ReasonInfo> = Vec::new();
    v.push(variant("られる", "る", 0x01, 0x01));
    v.push(variant("ざれる", "ずる", 0x01, 0x10));
    v.push(variant("ぜられる", "ずる", 0x01, 0x10));
    v.push(variant("せられる", "する", 0x01, 0x04));
    v.push(variant("為られる", "為る", 0x01, 0x04));
    v.push(variant("こられる", "くる", 0x01, 0x08));
    v.push(variant("来られる", "来る", 0x01, 0x08));
    v.push(variant("來られる", "來る", 0x01, 0x08));
    let r = ReasonEntry { name: "potential or passive".to_owned(), variants: v };
    proof {
        assert(r@ =~~= spec_entry_potential_or_passive());
    }
    r
}

/// The variants of the reason named "volitional".
pub open spec fn spec_entry_volitional() -> ReasonEntryV {
    ReasonEntryV {
        name: "volitional"@,
        variants: seq![
            ReasonInfoV { kana_in: "よう"@, kana_out: "る"@, rules_in: 0, rules_out: 0x01 },
            ReasonInfoV { kana_in: "おう"@, kana_out: "う"@, rules_in: 0, rules_out: 0x02 },
            ReasonInfoV { kana_in: "こう"@, kana_out: "く"@, rules_in: 0, rules_out: 0x02 },
            ReasonInfoV { kana_in: "ごう"@, kana_out: "ぐ"@, rules_in: 0, rules_out: 0x02 },
            ReasonInfoV { kana_in: "そう"@, kana_out: "す"@, rules_in: 0, rules_out: 0x02 },
            ReasonInfoV { kana_in: "とう"@, kana_out: "つ"@, rules_in: 0, rules_out: 0x02 },
            ReasonInfoV { kana_in: "のう"@, kana_out: "ぬ"@, rules_in: 0, rules_out: 0x02 },
            ReasonInfoV { kana_in: "ぼう"@, kana_out: "ぶ"@, rules_in: 0, rules_out: 0x02 },
            ReasonInfoV { kana_in: "もう"@, kana_out: "む"@, rules_in: 0, rules_out: 0x02 },
            ReasonInfoV { kana_in: "ろう"@, kana_out: "る"@, rules_in: 0, rules_out: 0x02 },
            ReasonInfoV { kana_in: "じよう"@, kana_out: "ずる"@, rules_in: 0, rules_out: 0x10 },
            ReasonInfoV { kana_in: "しよう"@, kana_out: "する"@, rules_in: 0, rules_out: 0x04 },
            ReasonInfoV { kana_in: "為よう"@, kana_out: "為る"@, rules_in: 0, rules_out: 0x04 },
            ReasonInfoV { kana_in: "こよう"@, kana_out: "くる"@, rules_in: 0, rules_out: 0x08 },
            ReasonInfoV { kana_in: "来よう"@, kana_out: "来る"@, rules_in: 0, rules_out: 0x08 },
            ReasonInfoV { kana_in: "來よう"@, kana_out: "來る"@, rules_in: 0, rules_out: 0x08 },
        ],
    }
}

fn entry_volitional() -> (r: ReasonEntry)
    ensures
        r@ == spec_entry_volitional(),
{
    let mut v: Vec<ReasonInfo> = Vec::new();
    v.push(variant("よう", "る", 0, 0x01));
    v.push(variant("おう", "う", 0, 0x02));
    v.push(variant("こう", "く", 0, 0x02));
    v.push(variant("ごう", "ぐ", 0, 0x02));
    v.push(variant("そう", "す", 0, 0x02));
    v.push(variant("とう", "つ", 0, 0x02));
    v.push(variant("のう", "ぬ", 0, 0x02));
    v.push(variant("ぼう", "ぶ", 0, 0x02));
    v.push(variant("もう", "む", 0, 0x02));
    v.push(variant("ろう", "る", 0, 0x02));
    v.push(variant("じよう", "ずる", 0, 0x10));
    v.push(variant("しよう", "する", 0, 0x04));
    v.push(variant("為よう", "為る", 0, 0x04));
    v.push(variant("こよう", "くる", 0, 0x08));
    v.push(variant("来よう", "来る", 0, 0x08));
    v.push(variant("來よう", "來る", 0, 0x08));
    let r = ReasonEntry { name: "volitional".to_owned(), variants: v };
    proof {
        assert(r@ =~~= spec_entry_volitional());
    }
    r
}

/// The variants of the reason named "progressive or perfect".
pub open spec fn spec_entry_progressive_or_perfect() -> ReasonEntryV {
    ReasonEntryV {
        name: "progressive or perfect"@,
        variants: seq![
            ReasonInfoV { kana_in: "ている"@, kana_out: "て"@, rules_in: 0x01, rules_out: 0x40 },
            ReasonInfoV { kana_in: "ておる"@, kana_out: "て"@, rules_in: 0x02, rules_out: 0x40 },
            ReasonInfoV { kana_in: "てる"@, kana_out: "て"@, rules_in: 0x01, rules_out: 0x40 },
            ReasonInfoV { kana_in: "でいる"@, kana_out: "で"@, rules_in: 0x01, rules_out: 0x40 },
            ReasonInfoV { kana_in: "でおる"@, kana_out: "で"@, rules_in: 0x02, rules_out: 0x40 },
            ReasonInfoV { kana_in: "でる"@, kana_out: "で"@, rules_in: 0x01, rules_out: 0x40 },
            ReasonInfoV { kana_in: "とる"@, kana_out: "て"@, rules_in: 0x02, rules_out: 0x40 },
            ReasonInfoV { kana_in: "ないでいる"@, kana_out: "ない"@, rules_in: 0x01, rules_out: 0x20 },
        ],
    }
}

fn entry_progressive_or_perfect() -> (r: ReasonEntry)
    ensures
        r@ == spec_entry_progressive_or_perfect(),
{
    let mut v: Vec<ReasonInfo> = Vec::new();
    v.push(variant("ている", "て", 0x01, 0x40));
    v.push(variant("ておる", "て", 0x02, 0x40));
    v.push(variant("てる", "て", 0x01, 0x40));
    v.push(variant("でいる", "で", 0x01, 0x40));
    v.push(variant("でおる", "で", 0x02, 0x40));
    v.push(variant("でる", "で", 0x01, 0x40));
    v.push(variant("とる", "て", 0x02, 0x40));
    v.push(variant("ないでいる", "ない", 0x01, 0x20));
    let r = ReasonEntry { name: "progressive or perfect".to_owned(), variants: v };
    proof {
        assert(r@ =~~= spec_entry_progressive_or_perfect());
    }
    r
}

/// The variants of the reason named "-ki".
pub open spec fn spec_entry_ki() -> ReasonEntryV {
    ReasonEntryV {
        name: "-ki"@,
        variants: seq![
            ReasonInfoV { kana_in: "き"@, kana_out: "い"@, rules_in: 0, rules_out: 0x20 },
        ],
    }
}

fn entry_ki() -> (r: ReasonEntry)
    ensures
        r@ == spec_entry_ki(),
{
    let mut v: Vec<ReasonInfo> = Vec::new();
    v.push(variant("き", "い", 0, 0x20));
    let r = ReasonEntry { name: "-ki".to_owned(), variants: v };
    proof {
        assert(r@ =~~= spec_entry_ki());
    }
    r
}

/// The variants of the reason named "-ge".
pub open spec fn spec_entry_ge() -> ReasonEntryV {
    ReasonEntryV {
        name: "-ge"@,
        variants: seq![
            ReasonInfoV { kana_in: "しげ"@, kana_out: "しい"@, rules_in: 0, rules_out: 0x20 },
        ],
    }
}

fn entry_ge() -> (r: ReasonEntry)
    ensures
        r@ == spec_entry_ge(),
{
    let mut v: Vec<ReasonInfo> = Vec::new();
    v.push(variant("しげ", "しい", 0, 0x20));
    let r = ReasonEntry { name: "-ge".to_owned(), variants: v };
    proof {
        assert(r@ =~~= spec_entry_ge());
    }
    r
}

/// The variants of the reason named "-e".
pub open spec fn spec_entry_e() -> ReasonEntryV {
    ReasonEntryV {
        name: "-e"@,
        variants: seq![
            ReasonInfoV { kana_in: "ねえ"@, kana_out: "ない"@, rules_in: 0, rules_out: 0x20 },
            ReasonInfoV { kana_in: "めえ"@, kana_out: "むい"@, rules_in: 0, rules_out: 0x20 },
            ReasonInfoV { kana_in: "めえ"@, kana_out: "まい"@, rules_in: 0, rules_out: 0x20 },
            ReasonInfoV { kana_in: "みい"@, kana_out: "むい"@, rules_in: 0, rules_out: 0x20 },
            ReasonInfoV { kana_in: "ちぇえ"@, kana_out: "つい"@, rules_in: 0, rules_out: 0x20 },
            ReasonInfoV { kana_in: "ちぇえ"@, kana_out: "ちゃい"@, rules_in: 0, rules_out: 0x20 },
            ReasonInfoV { kana_in: "ちい"@, kana_out: "つい"@, rules_in: 0, rules_out: 0x20 },
            ReasonInfoV { kana_in: "せえ"@, kana_out: "すい"@, rules_in: 0, rules_out: 0x20 },
            ReasonInfoV { kana_in: "せえ"@, kana_out: "さい"@, rules_in: 0, rules_out: 0x20 },
            ReasonInfoV { kana_in: "ええ"@, kana_out: "いい"@, rules_in: 0, rules_out: 0x20 },
            ReasonInfoV { kana_in: "ええ"@, kana_out: "わい"@, rules_in: 0, rules_out: 0x20 },
            ReasonInfoV { kana_in: "ええ"@, kana_out: "よい"@, rules_in: 0, rules_out: 0x20 },
            ReasonInfoV { kana_in: "いぇえ"@, kana_out: "よい"@, rules_in: 0, rules_out: 0x20 },
            ReasonInfoV { kana_in: "うぇえ"@, kana_out: "わい"@, rules_in: 0, rules_out: 0x20 },
            ReasonInfoV { kana_in: "けえ"@, kana_out: "かい"@, rules_in: 0, rules_out: 0x20 },
            ReasonInfoV { kana_in: "げえ"@, kana_out: "ごい"@, rules_in: 0, rules_out: 0x20 },
            ReasonInfoV { kana_in: "げえ"@, kana_out: "がい"@, rules_in: 0, rules_out: 0x20 },
            ReasonInfoV { kana_in: "でえ"@, kana_out: "どい"@, rules_in: 0, rules_out: 0x20 },
            ReasonInfoV { kana_in: "べえ"@, kana_out: "ばい"@, rules_in: 0, rules_out: 0x20 },
            ReasonInfoV { kana_in: "てえ"@, kana_out: "たい"@, rules_in: 0, rules_out: 0x20 },
            ReasonInfoV { kana_in: "っぜえ"@, kana_out: "ずい"@, rules_in: 0, rules_out: 0x20 },
        ],
    }
}

fn entry_e() -> (r: ReasonEntry)
    ensures
        r@ == spec_entry_e(),
{
    let mut v: Vec<ReasonInfo> = Vec::new();
    v.push(variant("ねえ", "ない", 0, 0x20));
    v.push(variant("めえ", "むい", 0, 0x20));
    v.push(variant("めえ", "まい", 0, 0x20));
    v.push(variant("みい", "むい", 0, 0x20));
    v.push(variant("ちぇえ", "つい", 0, 0x20));
    v.push(variant("ちぇえ", "ちゃい", 0, 0x20));
    v.push(variant("ちい", "つい", 0, 0x20));
    v.push(variant("せえ", "すい", 0, 0x20));
    v.push(variant("せえ", "さい", 0, 0x20));
    v.push(variant("ええ", "いい", 0, 0x20));
    v.push(variant("ええ", "わい", 0, 0x20));
    v.push(variant("ええ", "よい", 0, 0x20));
    v.push(variant("いぇえ", "よい", 0, 0x20));
    v.push(variant("うぇえ", "わい", 0, 0x20));
    v.push(variant("けえ", "かい", 0, 0x20));
    v.push(variant("げえ", "ごい", 0, 0x20));
    v.push(variant("げえ", "がい", 0, 0x20));
    v.push(variant("でえ", "どい", 0, 0x20));
    v.push(variant("べえ", "ばい", 0, 0x20));
    v.push(variant("てえ", "たい", 0, 0x20));
    v.push(variant("っぜえ", "ずい", 0, 0x20));
    let r = ReasonEntry { name: "-e".to_owned(), variants: v };
    proof {
        assert(r@ =~~= spec_entry_e());
    }
    r
}

/// The standard table of inflection reasons, entry by entry, in order.
pub open spec fn spec_standard_reasons() -> Seq<ReasonEntryV> {
    seq![
        spec_entry_ba(),
        spec_entry_chau(),
        spec_entry_chimau(),
        spec_entry_shimau(),
        spec_entry_nasai(),
        spec_entry_sou(),
        spec_entry_sugiru(),
        spec_entry_tai(),
        spec_entry_tara(),
        spec_entry_tari(),
        spec_entry_te(),
        spec_entry_toku(),
        spec_entry_zu(),
        spec_entry_nu(),
        spec_entry_adv(),
        spec_entry_causative(),
        spec_entry_causative_passive(),
        spec_entry_imperative(),
        spec_entry_imperative_negative(),
        spec_entry_masu_stem(),
        spec_entry_negative(),
        spec_entry_noun(),
        spec_entry_passive(),
        spec_entry_past(),
        spec_entry_polite(),
        spec_entry_polite_negative(),
        spec_entry_polite_past(),
        spec_entry_polite_past_negative(),
        spec_entry_polite_volitional(),
        spec_entry_potential(),
        spec_entry_potential_or_passive(),
        spec_entry_volitional(),
        spec_entry_progressive_or_perfect(),
        spec_entry_ki(),
        spec_entry_ge(),
        spec_entry_e(),
    ]
}

/// The standard table of inflection reasons for Japanese: verb classes,
/// adjective endings, politeness forms, and colloquial contractions,
/// exactly as [`spec_standard_reasons`] states it.
#[must_use]
#[verifier::rlimit(100)]
pub fn inflection_reasons() -> (r: Reasons)
    ensures
        r@ == spec_standard_reasons(),
{
    let mut entries: Vec<ReasonEntry> = Vec::new();
    entries.push(entry_ba());
    entries.push(entry_chau());
    entries.push(entry_chimau());
    entries.push(entry_shimau());
    entries.push(entry_nasai());
    entries.push(entry_sou());
    entries.push(entry_sugiru());
    entries.push(entry_tai());
    entries.push(entry_tara());
    entries.push(entry_tari());
    entries.push(entry_te());
    entries.push(entry_toku());
    entries.push(entry_zu());
    entries.push(entry_nu());
    entries.push(entry_adv());
    entries.push(entry_causative());
    entries.push(entry_causative_passive());
    entries.push(entry_imperative());
    entries.push(entry_imperative_negative());
    entries.push(entry_masu_stem());
    entries.push(entry_negative());
    entries.push(entry_noun());
    entries.push(entry_passive());
    entries.push(entry_past());
    entries.push(entry_polite());
    entries.push(entry_polite_negative());
    entries.push(entry_polite_past());
    entries.push(entry_polite_past_negative());
    entries.push(entry_polite_volitional());
    entries.push(entry_potential());
    entries.push(entry_potential_or_passive());
    entries.push(entry_volitional());
    entries.push(entry_progressive_or_perfect());
    entries.push(entry_ki());
    entries.push(entry_ge());
    entries.push(entry_e());
    let r = Reasons::new(entries);
    proof {
        assert(r@ =~~= spec_standard_reasons());
    }
    r
}

} // verus!