//! The deinflection engine: grammatical rule tags, rule-set masks, and the
//! data-driven rewrite closure that produces base-form candidates for a word.

use vstd::prelude::*;

use crate::text::{hiragana_of, katakana_of, str_eq, text_convertible};

verus! {

/// A grammatical class tag. Each tag occupies one bit position in a
/// [`Rules`] mask.
#[derive(Copy, Clone, Debug, PartialEq, Eq, Structural)]
pub enum Rule {
    /// Ichidan verb
    V1,
    /// Godan verb
    V5,
    /// Suru verb
    Vs,
    /// Kuru verb
    Vk,
    /// Zuru verb
    Vz,
    /// I-adjective
    AdjI,
    /// Intermediate -iru ending for the progressive or perfect tense
    Iru,
}

/// The bit that stands for one rule tag inside a [`Rules`] mask.
pub open spec fn spec_rule_bit(r: Rule) -> u8 {
    match r {
        Rule::V1 => 0x01,
        Rule::V5 => 0x02,
        Rule::Vs => 0x04,
        Rule::Vk => 0x08,
        Rule::Vz => 0x10,
        Rule::AdjI => 0x20,
        Rule::Iru => 0x40,
    }
}

impl Rule {
    /// The bit position of this tag.
    pub fn bit(self) -> (b: u8)
        ensures
            b == spec_rule_bit(self),
    {
        match self {
            Rule::V1 => 0x01,
            Rule::V5 => 0x02,
            Rule::Vs => 0x04,
            Rule::Vk => 0x08,
            Rule::Vz => 0x10,
            Rule::AdjI => 0x20,
            Rule::Iru => 0x40,
        }
    }
}

/// The external token that names one rule tag.
pub open spec fn spec_rule_token(r: Rule) -> Seq<char> {
    match r {
        Rule::V1 => "v1"@,
        Rule::V5 => "v5"@,
        Rule::Vs => "vs"@,
        Rule::Vk => "vk"@,
        Rule::Vz => "vz"@,
        Rule::AdjI => "adj-i"@,
        Rule::Iru => "iru"@,
    }
}

proof fn lemma_rule_token_cases(rule: Rule, v: Seq<char>)
    requires
        v != "v1"@,
        v != "v5"@,
        v != "vs"@,
        v != "vk"@,
        v != "vz"@,
        v != "adj-i"@,
        v != "iru"@,
    ensures
        spec_rule_token(rule) != v,
{
}

impl Rule {
    /// Parses an external rule token. Every token other than the seven
    /// recognised ones is rejected, and the offending token is returned.
    pub fn try_from(value: &str) -> (r: Result<Rule, String>)
        ensures
            match r {
                Ok(rule) => spec_rule_token(rule) == value@,
                Err(e) => e@ == value@ && forall|rule: Rule| spec_rule_token(rule) != value@,
            },
    {
        if str_eq(value, "v1") {
            Ok(Rule::V1)
        } else if str_eq(value, "v5") {
            Ok(Rule::V5)
        } else if str_eq(value, "vs") {
            Ok(Rule::Vs)
        } else if str_eq(value, "vk") {
            Ok(Rule::Vk)
        } else if str_eq(value, "vz") {
            Ok(Rule::Vz)
        } else if str_eq(value, "adj-i") {
            Ok(Rule::AdjI)
        } else if str_eq(value, "iru") {
            Ok(Rule::Iru)
        } else {
            proof {
                assert forall|rule: Rule| spec_rule_token(rule) != value@ by {
                    lemma_rule_token_cases(rule, value@);
                }
            }
            Err(value.to_owned())
        }
    }
}

/// An unordered set of rule tags, stored as an 8-bit mask. The empty mask
/// means "no constraint": it applies to any part of speech.
#[derive(Copy, Clone, Debug, PartialEq, Eq, Structural)]
pub struct Rules {
    pub mask: u8,
}

impl Rules {
    /// The set with no tags.
    pub fn empty() -> (r: Rules)
        ensures
            r.mask == 0,
    {
        Rules { mask: 0 }
    }

    /// Whether no tag is set.
    pub fn is_empty(&self) -> (r: bool)
        ensures
            r == (self.mask == 0),
    {
        self.mask == 0
    }

    /// Whether the two sets share at least one tag.
    pub fn intersects(&self, other: &Rules) -> (r: bool)
        ensures
            r == (self.mask & other.mask != 0),
    {
        self.mask & other.mask != 0
    }

    /// Whether the given tag is in the set.
    pub fn contains(&self, rule: Rule) -> (r: bool)
        ensures
            r == (self.mask & spec_rule_bit(rule) != 0),
    {
        self.mask & rule.bit() != 0
    }

    /// The set extended by one tag.
    pub fn with(self, rule: Rule) -> (r: Rules)
        ensures
            r.mask == self.mask | spec_rule_bit(rule),
    {
        Rules { mask: self.mask | rule.bit() }
    }

    /// The set holding exactly the given tags.
    pub fn from(v: &Vec<Rule>) -> (r: Rules)
        ensures
            forall|rule: Rule| #[trigger]
                (r.mask & spec_rule_bit(rule)) != 0 <==> (exists|i: int|
                    0 <= i < v@.len() && v@[i] == rule),
    {
        let mut r = Rules { mask: 0 };
        proof {
            assert forall|rule: Rule| (0u8 & spec_rule_bit(rule)) == 0 by {
                let b = spec_rule_bit(rule);
                assert(0u8 & b == 0) by (bit_vector);
            }
        }
        let mut i: usize = 0;
        while i < v.len()
            invariant
                i <= v@.len(),
                forall|rule: Rule| #[trigger]
                    (r.mask & spec_rule_bit(rule)) != 0 <==> (exists|t: int|
                        0 <= t < i && v@[t] == rule),
            decreases v@.len() - i,
        {
            let ghost pre = r.mask;
            r = r.with(v[i]);
            proof {
                lemma_rule_bits(pre, v@[i as int]);
            }
            i += 1;
        }
        r
    }
}

/// Adding one tag's bit to a mask leaves exactly the bits of the old mask
/// and of that tag set, for every tag.
proof fn lemma_rule_bits(mask: u8, added: Rule)
    ensures
        forall|rule: Rule|
            ((mask | spec_rule_bit(added)) & spec_rule_bit(rule)) != 0 <==> ((mask & spec_rule_bit(
                rule,
            )) != 0 || rule == added),
{
    assert forall|rule: Rule|
        ((mask | spec_rule_bit(added)) & spec_rule_bit(rule)) != 0 <==> ((mask & spec_rule_bit(
            rule,
        )) != 0 || rule == added) by {
        let a = spec_rule_bit(added);
        let b = spec_rule_bit(rule);
        if rule == added {
            assert((mask | a) & a != 0) by (bit_vector)
                requires
                    a == 0x01 || a == 0x02 || a == 0x04 || a == 0x08 || a == 0x10 || a == 0x20
                        || a == 0x40,
            ;
        } else {
            assert(a != b);
            assert((mask | a) & b != 0 <==> mask & b != 0) by (bit_vector)
                requires
                    (a == 0x01 || a == 0x02 || a == 0x04 || a == 0x08 || a == 0x10 || a == 0x20
                        || a == 0x40) && (b == 0x01 || b == 0x02 || b == 0x04 || b == 0x08 || b
                        == 0x10 || b == 0x20 || b == 0x40) && a != b,
            ;
        }
    }
}

/// One rewrite variant of a grammatical reason: if a candidate's term ends
/// with `kana_in` and its rule set is unconstrained or intersects `rules_in`,
/// the ending may be replaced by `kana_out`, constraining the candidate to
/// `rules_out`.
pub struct ReasonInfo {
    pub kana_in: String,
    pub kana_out: String,
    pub rules_in: Rules,
    pub rules_out: Rules,
}

/// The mathematical value of a [`ReasonInfo`].
#[verifier::ext_equal]
pub ghost struct ReasonInfoV {
    pub kana_in: Seq<char>,
    pub kana_out: Seq<char>,
    pub rules_in: u8,
    pub rules_out: u8,
}

impl View for ReasonInfo {
    type V = ReasonInfoV;

    open spec fn view(&self) -> ReasonInfoV {
        ReasonInfoV {
            kana_in: self.kana_in@,
            kana_out: self.kana_out@,
            rules_in: self.rules_in.mask,
            rules_out: self.rules_out.mask,
        }
    }
}

/// A named reason together with its ordered rewrite variants.
pub struct ReasonEntry {
    pub name: String,
    pub variants: Vec<ReasonInfo>,
}

/// The mathematical value of a [`ReasonEntry`].
#[verifier::ext_equal]
pub ghost struct ReasonEntryV {
    pub name: Seq<char>,
    pub variants: Seq<ReasonInfoV>,
}

impl View for ReasonEntry {
    type V = ReasonEntryV;

    open spec fn view(&self) -> ReasonEntryV {
        ReasonEntryV {
            name: self.name@,
            variants: self.variants@.map_values(|v: ReasonInfo| v@),
        }
    }
}

/// The ordered table of grammatical reasons that drives deinflection.
pub struct Reasons {
    entries: Vec<ReasonEntry>,
}

impl View for Reasons {
    type V = Seq<ReasonEntryV>;

    closed spec fn view(&self) -> Seq<ReasonEntryV> {
        self.entries@.map_values(|e: ReasonEntry| e@)
    }
}

impl Reasons {
    /// A table made of the given entries, in order.
    pub fn new(entries: Vec<ReasonEntry>) -> (r: Reasons)
        ensures
            r@ == entries@.map_values(|e: ReasonEntry| e@),
    {
        Reasons { entries }
    }
}

/// A candidate base-form analysis: the candidate `term`, the rule classes it
/// is constrained to, the original input it derives from, and the names of
/// the reasons applied, most recent first.
pub struct Deinflection {
    pub term: String,
    pub rules: Rules,
    pub source: String,
    pub reasons: Vec<String>,
}

/// The mathematical value of a [`Deinflection`].
#[verifier::ext_equal]
pub ghost struct DeinflectionV {
    pub term: Seq<char>,
    pub rules: u8,
    pub source: Seq<char>,
    pub reasons: Seq<Seq<char>>,
}

impl View for Deinflection {
    type V = DeinflectionV;

    open spec fn view(&self) -> DeinflectionV {
        DeinflectionV {
            term: self.term@,
            rules: self.rules.mask,
            source: self.source@,
            reasons: self.reasons@.map_values(|s: String| s@),
        }
    }
}

broadcast use vstd::seq::Seq::lemma_push_map_commute;

/// The values of a list of deinflections.
pub open spec fn views(s: Seq<Deinflection>) -> Seq<DeinflectionV> {
    s.map_values(|d: Deinflection| d@)
}

/// The untransformed starting candidate for a word: the word itself, with no
/// rule constraint and no reasons applied.
pub open spec fn spec_seed(source: Seq<char>) -> DeinflectionV {
    DeinflectionV { term: source, rules: 0, source: source, reasons: Seq::empty() }
}

/// Whether one rewrite variant applies to a candidate: the candidate's rule
/// set is unconstrained or shares a class with `rules_in`, the term ends with
/// `kana_in`, and the rewritten term would be non-empty.
pub open spec fn spec_applicable(d: DeinflectionV, v: ReasonInfoV) -> bool {
    &&& d.rules == 0 || d.rules & v.rules_in != 0
    &&& v.kana_in.len() <= d.term.len()
    &&& d.term.subrange(d.term.len() - v.kana_in.len(), d.term.len() as int) == v.kana_in
    &&& d.term.len() - v.kana_in.len() + v.kana_out.len() > 0
}

/// The candidate produced by applying one rewrite variant: the ending is
/// replaced, the rule set becomes `rules_out`, the source is carried over,
/// and the reason name is prepended.
pub open spec fn spec_rewrite(d: DeinflectionV, name: Seq<char>, v: ReasonInfoV) -> DeinflectionV {
    DeinflectionV {
        term: d.term.subrange(0, d.term.len() - v.kana_in.len()) + v.kana_out,
        rules: v.rules_out,
        source: d.source,
        reasons: seq![name] + d.reasons,
    }
}

/// All candidates produced from `d` by the given variants of one reason, in
/// table order.
pub open spec fn variant_expansion(
    d: DeinflectionV,
    name: Seq<char>,
    variants: Seq<ReasonInfoV>,
) -> Seq<DeinflectionV>
    decreases variants.len(),
{
    if variants.len() == 0 {
        Seq::empty()
    } else {
        variant_expansion(d, name, variants.drop_last()) + (if spec_applicable(
            d,
            variants.last(),
        ) {
            seq![spec_rewrite(d, name, variants.last())]
        } else {
            Seq::empty()
        })
    }
}

/// All candidates produced from `d` by one pass over the whole reason table.
pub open spec fn expansion(d: DeinflectionV, entries: Seq<ReasonEntryV>) -> Seq<DeinflectionV>
    decreases entries.len(),
{
    if entries.len() == 0 {
        Seq::empty()
    } else {
        expansion(d, entries.drop_last()) + variant_expansion(
            d,
            entries.last().name,
            entries.last().variants,
        )
    }
}

/// The worklist closure: starting from the candidate list `s` with a cursor
/// at `i`, repeatedly append the expansion of the candidate under the cursor
/// and advance, until the cursor reaches the end of the list or the fuel runs
/// out.
pub open spec fn closure_from(
    s: Seq<DeinflectionV>,
    i: nat,
    fuel: nat,
    entries: Seq<ReasonEntryV>,
) -> Seq<DeinflectionV>
    decreases fuel,
{
    if i >= s.len() || fuel == 0 {
        s
    } else {
        closure_from(s + expansion(s[i as int], entries), i + 1, (fuel - 1) as nat, entries)
    }
}

/// The number of worklist elements a single closure may process. The rewrite
/// tables in use converge long before this bound.
pub const WORK_LIMIT: usize = 1048576;

/// The full set of deinflection candidates of one word: the closure of the
/// seed candidate under the reason table. Whenever the worklist converges
/// within [`WORK_LIMIT`] cursor steps — which the shipped table does — this
/// is exactly the least list closed under the table's rewrites; for a table
/// whose closure outgrows the bound (a cyclic table's closure is infinite,
/// and a plain worklist would never return) the enumeration stops at the
/// bound instead.
pub open spec fn word_closure(source: Seq<char>, entries: Seq<ReasonEntryV>) -> Seq<
    DeinflectionV,
> {
    closure_from(seq![spec_seed(source)], 0, WORK_LIMIT as nat, entries)
}

impl Deinflection {
    /// A candidate assembled from its parts.
    pub fn new(term: String, rules: Rules, source: String, reasons: Vec<String>) -> (r:
        Deinflection)
        ensures
            r@ == (DeinflectionV {
                term: term@,
                rules: rules.mask,
                source: source@,
                reasons: reasons@.map_values(|s: String| s@),
            }),
    {
        Deinflection { term, rules, source, reasons }
    }

    /// A copy of this candidate with the same value.
    pub fn duplicate(&self) -> (r: Deinflection)
        ensures
            r@ == self@,
    {
        let reasons = self.reasons.clone();
        proof {
            assert(reasons@ =~= self.reasons@);
            assert(reasons@.map_values(|s: String| s@) =~= self.reasons@.map_values(
                |s: String| s@,
            ));
        }
        Deinflection {
            term: self.term.clone(),
            rules: self.rules,
            source: self.source.clone(),
            reasons,
        }
    }
}

/// The candidate produced by one applicable rewrite variant.
fn rewrite_deinflection(prev: &Deinflection, name: &str, v: &ReasonInfo) -> (r: Deinflection)
    requires
        spec_applicable(prev@, v@),
    ensures
        r@ == spec_rewrite(prev@, name@, v@),
{
    let tl = prev.term.as_str().unicode_len();
    let kl = v.kana_in.as_str().unicode_len();
    let stem = prev.term.as_str().substring_char(0, tl - kl);
    let term = stem.to_owned().concat(v.kana_out.as_str());
    let mut reasons = prev.reasons.clone();
    proof {
        assert(reasons@ =~= prev.reasons@);
    }
    reasons.insert(0, name.to_owned());
    proof {
        assert(reasons@.map_values(|s: String| s@) =~= seq![name@] + prev.reasons@.map_values(
            |s: String| s@,
        ));
    }
    Deinflection { term, rules: v.rules_out, source: prev.source.clone(), reasons }
}

/// All deinflection candidates of the given word as a whole: the closure of
/// the seed candidate under the reason table, in worklist order, the seed
/// first. The contract pins the bounded closure [`word_closure`]; see its
/// note on the bound.
pub fn word_deinflections(source: &str, reasons: &Reasons) -> (r: Vec<Deinflection>)
    ensures
        views(r@) == word_closure(source@, reasons@),
{
    let mut results: Vec<Deinflection> = Vec::new();
    results.push(
        Deinflection {
            term: source.to_owned(),
            rules: Rules::empty(),
            source: source.to_owned(),
            reasons: Vec::new(),
        },
    );
    proof {
        assert(views(results@) =~~= seq![spec_seed(source@)]);
    }
    let mut i: usize = 0;
    while i < results.len() && i < WORK_LIMIT
        invariant
            i <= WORK_LIMIT,
            closure_from(views(results@), i as nat, (WORK_LIMIT - i) as nat, reasons@)
                == word_closure(source@, reasons@),
        decreases WORK_LIMIT - i,
    {
        let prev = results[i].duplicate();
        let ghost snap = views(results@);
        let mut j: usize = 0;
        while j < reasons.entries.len()
            invariant
                j <= reasons.entries.len(),
                prev@ == snap[i as int],
                reasons@ == reasons.entries@.map_values(|e: ReasonEntry| e@),
                views(results@) == snap + expansion(prev@, reasons@.take(j as int)),
            decreases reasons.entries.len() - j,
        {
            let entry = &reasons.entries[j];
            let ghost snap2 = views(results@);
            let mut k: usize = 0;
            while k < entry.variants.len()
                invariant
                    k <= entry.variants.len(),
                    prev@ == snap[i as int],
                    views(results@) == snap2 + variant_expansion(
                        prev@,
                        entry.name@,
                        entry@.variants.take(k as int),
                    ),
                decreases entry.variants.len() - k,
            {
                let v = &entry.variants[k];
                let rules_ok = prev.rules.is_empty() || prev.rules.intersects(&v.rules_in);
                if rules_ok && crate::text::str_ends_with(
                    prev.term.as_str(),
                    v.kana_in.as_str(),
                ) {
                    let tl = prev.term.as_str().unicode_len();
                    let kl = v.kana_in.as_str().unicode_len();
                    let ol = v.kana_out.as_str().unicode_len();
                    if tl - kl > 0 || ol > 0 {
                        let d = rewrite_deinflection(&prev, entry.name.as_str(), v);
                        results.push(d);
                        proof {
                            assert(entry@.variants[k as int] == entry.variants@[k as int]@);
                            assert(d@ == spec_rewrite(prev@, entry.name@, entry@.variants[k as int]));
                            assert(views(results@) =~~= snap2 + variant_expansion(
                                prev@,
                                entry.name@,
                                entry@.variants.take(k as int),
                            ).push(spec_rewrite(prev@, entry.name@, entry@.variants[k as int])));
                        }
                    }
                }
                proof {
                    assert(entry@.variants.take(k + 1 as int).drop_last() =~= entry@.variants.take(
                        k as int,
                    ));
                    assert(views(results@) =~= snap2 + variant_expansion(
                        prev@,
                        entry.name@,
                        entry@.variants.take(k + 1 as int),
                    ));
                }
                k += 1;
            }
            proof {
                assert(entry@.variants.take(entry.variants@.len() as int) =~= entry@.variants);
                assert(reasons@.take(j + 1 as int).drop_last() =~= reasons@.take(j as int));
                assert(reasons@[j as int] == entry@);
                assert(views(results@) =~= snap + expansion(prev@, reasons@.take(j + 1 as int)));
            }
            j += 1;
        }
        proof {
            assert(reasons@.take(reasons.entries@.len() as int) =~= reasons@);
            assert(views(results@) == snap + expansion(prev@, reasons@));
            assert(closure_from(
                views(results@),
                (i + 1) as nat,
                (WORK_LIMIT - (i + 1)) as nat,
                reasons@,
            ) == word_closure(source@, reasons@));
        }
        i += 1;
    }
    results
}

/// The values of a list of strings.
pub open spec fn str_views(s: Seq<String>) -> Seq<Seq<char>> {
    s.map_values(|t: String| t@)
}

/// The three parallel forms of an input: the input itself, its hiragana
/// transliteration, and its katakana transliteration. The input must be
/// free of halfwidth sound marks, which the transliterator cannot take;
/// [`crate::text::strip_sound_marks`] establishes that.
pub fn mutate(s: &str) -> (r: Vec<String>)
    requires
        text_convertible(s@),
    ensures
        r@.len() == 3,
        r@[0]@ == s@,
        r@[1]@ == hiragana_of(s@),
        r@[2]@ == katakana_of(s@),
{
    let mut r: Vec<String> = Vec::new();
    r.push(s.to_owned());
    r.push(crate::text::to_hiragana(s));
    r.push(crate::text::to_katakana(s));
    r
}

/// All non-empty prefixes of a string, longest first.
pub open spec fn prefixes_desc(m: Seq<char>) -> Seq<Seq<char>> {
    Seq::new(m.len(), |k: int| m.subrange(0, m.len() - k))
}

/// The prefix lists of the three mutants of an input, in the order they are
/// considered: the input itself, then its hiragana form, then its katakana
/// form.
pub open spec fn candidate_prefixes(s: Seq<char>) -> Seq<Seq<char>> {
    prefixes_desc(s) + prefixes_desc(hiragana_of(s)) + prefixes_desc(katakana_of(s))
}

/// The subsequence of first occurrences: every element keeps its first
/// appearance and loses the later ones.
pub open spec fn dedup_first(s: Seq<Seq<char>>) -> Seq<Seq<char>>
    decreases s.len(),
{
    if s.len() == 0 {
        Seq::empty()
    } else {
        dedup_first(s.drop_last()) + (if s.drop_last().contains(s.last()) {
            Seq::empty()
        } else {
            seq![s.last()]
        })
    }
}

/// Deduplication keeps membership unchanged.
proof fn lemma_dedup_first_contains(s: Seq<Seq<char>>, x: Seq<char>)
    ensures
        s.contains(x) <==> dedup_first(s).contains(x),
    decreases s.len(),
{
    if s.len() > 0 {
        let sd = s.drop_last();
        let dd = dedup_first(sd);
        let d = dedup_first(s);
        lemma_dedup_first_contains(sd, x);
        if s.contains(x) {
            let i = choose|i: int| 0 <= i < s.len() && s[i] == x;
            if i < s.len() - 1 {
                assert(sd[i] == x);
                assert(sd.contains(x));
            }
            if sd.contains(x) {
                let j = choose|j: int| 0 <= j < dd.len() && dd[j] == x;
                assert(d[j] == x);
                assert(d.contains(x));
            } else {
                assert(s[s.len() - 1] == x);
                assert(d[d.len() - 1] == x);
                assert(d.contains(x));
            }
        }
        if d.contains(x) {
            let i = choose|i: int| 0 <= i < d.len() && d[i] == x;
            if i < dd.len() {
                assert(dd[i] == x);
                assert(dd.contains(x));
                let j = choose|j: int| 0 <= j < sd.len() && sd[j] == x;
                assert(s[j] == x);
                assert(s.contains(x));
            } else {
                assert(s[s.len() - 1] == x);
                assert(s.contains(x));
            }
        }
    }
}

/// Whether the list holds a string with the given characters.
fn contains_string(v: &Vec<String>, s: &str) -> (r: bool)
    ensures
        r == str_views(v@).contains(s@),
{
    let mut i: usize = 0;
    while i < v.len()
        invariant
            i <= v.len(),
            forall|t: int| 0 <= t < i ==> v@[t]@ != s@,
        decreases v.len() - i,
    {
        if str_eq(v[i].as_str(), s) {
            proof {
                assert(str_views(v@)[i as int] == s@);
            }
            return true;
        }
        i += 1;
    }
    proof {
        assert forall|t: int| 0 <= t < str_views(v@).len() implies str_views(v@)[t] != s@ by {
            assert(v@[t]@ != s@);
        }
    }
    false
}

/// Appends to `acc` every non-empty prefix of `m`, longest first, skipping
/// the ones already present. `cp` is the whole list of prefixes under
/// consideration and `c0` the position in it where the prefixes of `m`
/// begin.
fn collect_prefixes(
    m: &str,
    acc: &mut Vec<String>,
    Ghost(cp): Ghost<Seq<Seq<char>>>,
    Ghost(c0): Ghost<int>,
)
    requires
        0 <= c0,
        c0 + m@.len() <= cp.len(),
        cp.subrange(c0, c0 + m@.len()) == prefixes_desc(m@),
        str_views(old(acc)@) == dedup_first(cp.take(c0)),
    ensures
        str_views(final(acc)@) == dedup_first(cp.take(c0 + m@.len())),
{
    let mlen = m.unicode_len();
    let mut k: usize = 0;
    while k < mlen
        invariant
            k <= mlen,
            mlen == m@.len(),
            0 <= c0,
            c0 + m@.len() <= cp.len(),
            cp.subrange(c0, c0 + m@.len()) == prefixes_desc(m@),
            str_views(acc@) == dedup_first(cp.take(c0 + k)),
        decreases mlen - k,
    {
        let p = m.substring_char(0, mlen - k);
        proof {
            assert(cp[c0 + k] == prefixes_desc(m@)[k as int]) by {
                assert(cp.subrange(c0, c0 + m@.len())[k as int] == cp[c0 + k]);
            }
            assert(p@ == cp[c0 + k]);
            assert(cp.take(c0 + k + 1).drop_last() =~= cp.take(c0 + k));
            assert(cp.take(c0 + k + 1).last() == cp[c0 + k]);
            lemma_dedup_first_contains(cp.take(c0 + k), p@);
        }
        if !contains_string(acc, p) {
            acc.push(p.to_owned());
            proof {
                assert(str_views(acc@) =~= dedup_first(cp.take(c0 + k + 1)));
            }
        } else {
            proof {
                assert(str_views(acc@) =~= dedup_first(cp.take(c0 + k + 1)));
            }
        }
        k += 1;
    }
}

/// The concatenation of the word closures of the given candidate words, in
/// order.
pub open spec fn word_closures(keys: Seq<Seq<char>>, entries: Seq<ReasonEntryV>) -> Seq<
    DeinflectionV,
>
    decreases keys.len(),
{
    if keys.len() == 0 {
        Seq::empty()
    } else {
        word_closures(keys.drop_last(), entries) + word_closure(keys.last(), entries)
    }
}

/// All deinflection candidates of the input and of its prefixes: the unique
/// non-empty prefixes of the input and of its kana mutants are gathered,
/// longest first and first occurrence kept, and the word closure of each is
/// emitted in order. The input must be free of halfwidth sound marks, which
/// the transliterator cannot take; [`crate::text::strip_sound_marks`]
/// establishes that for arbitrary text.
#[verifier::rlimit(50)]
pub fn string_deinflections(source: &str, reasons: &Reasons) -> (r: Vec<Deinflection>)
    requires
        text_convertible(source@),
    ensures
        views(r@) == word_closures(dedup_first(candidate_prefixes(source@)), reasons@),
{
    let mutants = mutate(source);
    let ghost cp = candidate_prefixes(source@);
    let ghost l0 = source@.len() as int;
    let ghost l1 = hiragana_of(source@).len() as int;
    let ghost l2 = katakana_of(source@).len() as int;
    let mut substrings: Vec<String> = Vec::new();
    proof {
        assert(cp.subrange(0, l0) =~= prefixes_desc(source@));
        assert(cp.subrange(l0, l0 + l1) =~= prefixes_desc(hiragana_of(source@)));
        assert(cp.subrange(l0 + l1, l0 + l1 + l2) =~= prefixes_desc(katakana_of(source@)));
        assert(str_views(substrings@) =~= dedup_first(cp.take(0)));
    }
    collect_prefixes(&mutants[0], &mut substrings, Ghost(cp), Ghost(0));
    collect_prefixes(&mutants[1], &mut substrings, Ghost(cp), Ghost(l0));
    collect_prefixes(&mutants[2], &mut substrings, Ghost(cp), Ghost(l0 + l1));
    proof {
        assert(cp.take(l0 + l1 + l2) =~= cp);
    }
    let mut results: Vec<Deinflection> = Vec::new();
    let mut si: usize = 0;
    while si < substrings.len()
        invariant
            si <= substrings.len(),
            str_views(substrings@) == dedup_first(cp),
            views(results@) == word_closures(str_views(substrings@).take(si as int), reasons@),
        decreases substrings.len() - si,
    {
        let mut ws = word_deinflections(substrings[si].as_str(), reasons);
        proof {
            assert(str_views(substrings@).take(si + 1).drop_last() =~= str_views(
                substrings@,
            ).take(si as int));
            assert(str_views(substrings@).take(si + 1).last() == substrings@[si as int]@);
        }
        results.append(&mut ws);
        si += 1;
    }
    proof {
        assert(str_views(substrings@).take(substrings@.len() as int) =~= str_views(substrings@));
    }
    results
}

/// Deinflection as methods of the input text, with the same contracts as
/// the free functions [`word_deinflections`] and [`string_deinflections`],
/// stated over the text's characters.
pub trait Deinflectable {
    /// The characters of this text.
    spec fn text(&self) -> Seq<char>;

    /// All deinflection candidates of this text as a whole word.
    fn word_deinflections(&self, reasons: &Reasons) -> (r: Vec<Deinflection>)
        ensures
            views(r@) == word_closure(self.text(), reasons@),
    ;

    /// All deinflection candidates of this text and of its prefixes.
    fn string_deinflections(&self, reasons: &Reasons) -> (r: Vec<Deinflection>)
        requires
            text_convertible(self.text()),
        ensures
            views(r@) == word_closures(
                dedup_first(candidate_prefixes(self.text())),
                reasons@,
            ),
    ;
}

impl Deinflectable for str {
    open spec fn text(&self) -> Seq<char> {
        self@
    }

    fn word_deinflections(&self, reasons: &Reasons) -> (r: Vec<Deinflection>) {
        word_deinflections(self, reasons)
    }

    fn string_deinflections(&self, reasons: &Reasons) -> (r: Vec<Deinflection>) {
        string_deinflections(self, reasons)
    }
}

/// A derivation of `src`: it records `src` as its source and its candidate
/// term is non-empty.
pub open spec fn derivation_ok(src: Seq<char>, d: DeinflectionV) -> bool {
    d.source == src && d.term.len() > 0
}

proof fn lemma_variant_expansion_ok(
    src: Seq<char>,
    d: DeinflectionV,
    name: Seq<char>,
    variants: Seq<ReasonInfoV>,
)
    requires
        derivation_ok(src, d),
    ensures
        forall|i: int|
            0 <= i < variant_expansion(d, name, variants).len() ==> derivation_ok(
                src,
                variant_expansion(d, name, variants)[i],
            ),
    decreases variants.len(),
{
    if variants.len() > 0 {
        lemma_variant_expansion_ok(src, d, name, variants.drop_last());
        let ve = variant_expansion(d, name, variants);
        let prefix = variant_expansion(d, name, variants.drop_last());
        assert forall|i: int| 0 <= i < ve.len() implies derivation_ok(src, ve[i]) by {
            if i < prefix.len() {
                assert(ve[i] == prefix[i]);
            } else {
                assert(spec_applicable(d, variants.last()));
                assert(ve[i] == spec_rewrite(d, name, variants.last()));
            }
        }
    }
}

proof fn lemma_expansion_ok(src: Seq<char>, d: DeinflectionV, entries: Seq<ReasonEntryV>)
    requires
        derivation_ok(src, d),
    ensures
        forall|i: int|
            0 <= i < expansion(d, entries).len() ==> derivation_ok(src, expansion(d, entries)[i]),
    decreases entries.len(),
{
    if entries.len() > 0 {
        lemma_expansion_ok(src, d, entries.drop_last());
        lemma_variant_expansion_ok(src, d, entries.last().name, entries.last().variants);
        let ex = expansion(d, entries);
        let prefix = expansion(d, entries.drop_last());
        let ve = variant_expansion(d, entries.last().name, entries.last().variants);
        assert forall|i: int| 0 <= i < ex.len() implies derivation_ok(src, ex[i]) by {
            if i < prefix.len() {
                assert(ex[i] == prefix[i]);
            } else {
                assert(ex[i] == ve[i - prefix.len()]);
            }
        }
    }
}

proof fn lemma_closure_from_ok(
    src: Seq<char>,
    s: Seq<DeinflectionV>,
    i: nat,
    fuel: nat,
    entries: Seq<ReasonEntryV>,
)
    requires
        forall|t: int| 0 <= t < s.len() ==> derivation_ok(src, s[t]),
    ensures
        forall|t: int|
            0 <= t < closure_from(s, i, fuel, entries).len() ==> derivation_ok(
                src,
                closure_from(s, i, fuel, entries)[t],
            ),
    decreases fuel,
{
    if i < s.len() && fuel > 0 {
        lemma_expansion_ok(src, s[i as int], entries);
        let s2 = s + expansion(s[i as int], entries);
        let ex = expansion(s[i as int], entries);
        assert forall|t: int| 0 <= t < s2.len() implies derivation_ok(src, s2[t]) by {
            if t < s.len() {
                assert(s2[t] == s[t]);
            } else {
                assert(s2[t] == ex[t - s.len()]);
            }
        }
        lemma_closure_from_ok(src, s2, i + 1, (fuel - 1) as nat, entries);
        assert(closure_from(s, i, fuel, entries) == closure_from(
            s2,
            i + 1,
            (fuel - 1) as nat,
            entries,
        ));
    }
}

/// Every candidate that the word closure of a non-empty word produces keeps
/// that word as its source, and its term is never the empty string.
pub proof fn lemma_word_closure_sources(source: Seq<char>, entries: Seq<ReasonEntryV>, i: int)
    requires
        source.len() > 0,
        0 <= i < word_closure(source, entries).len(),
    ensures
        word_closure(source, entries)[i].source == source,
        word_closure(source, entries)[i].term.len() > 0,
{
    lemma_closure_from_ok(source, seq![spec_seed(source)], 0, WORK_LIMIT as nat, entries);
}

proof fn lemma_variant_expansion_elems(
    d: DeinflectionV,
    name: Seq<char>,
    variants: Seq<ReasonInfoV>,
    i: int,
)
    requires
        0 <= i < variant_expansion(d, name, variants).len(),
    ensures
        exists|k: int|
            0 <= k < variants.len() && spec_applicable(d, variants[k]) && variant_expansion(
                d,
                name,
                variants,
            )[i] == spec_rewrite(d, name, variants[k]),
    decreases variants.len(),
{
    let ve = variant_expansion(d, name, variants);
    let prefix = variant_expansion(d, name, variants.drop_last());
    if i < prefix.len() {
        lemma_variant_expansion_elems(d, name, variants.drop_last(), i);
        let k = choose|k: int|
            0 <= k < variants.drop_last().len() && spec_applicable(d, variants.drop_last()[k])
                && prefix[i] == spec_rewrite(d, name, variants.drop_last()[k]);
        assert(variants[k] == variants.drop_last()[k]);
        assert(ve[i] == prefix[i]);
    } else {
        assert(spec_applicable(d, variants.last()));
        assert(ve[i] == spec_rewrite(d, name, variants[variants.len() - 1]));
    }
}

proof fn lemma_expansion_elems(d: DeinflectionV, entries: Seq<ReasonEntryV>, i: int)
    requires
        0 <= i < expansion(d, entries).len(),
    ensures
        exists|e: int, k: int|
            0 <= e < entries.len() && 0 <= k < entries[e].variants.len() && spec_applicable(
                d,
                entries[e].variants[k],
            ) && expansion(d, entries)[i] == spec_rewrite(d, entries[e].name, entries[e].variants[k]),
    decreases entries.len(),
{
    let ex = expansion(d, entries);
    let prefix = expansion(d, entries.drop_last());
    if i < prefix.len() {
        lemma_expansion_elems(d, entries.drop_last(), i);
        let (e, k): (int, int) = choose|e: int, k: int|
            0 <= e < entries.drop_last().len() && 0 <= k < entries.drop_last()[e].variants.len()
                && spec_applicable(d, entries.drop_last()[e].variants[k]) && prefix[i]
                == spec_rewrite(d, entries.drop_last()[e].name, entries.drop_last()[e].variants[k]);
        assert(entries[e] == entries.drop_last()[e]);
        assert(ex[i] == prefix[i]);
    } else {
        let e = entries.len() - 1;
        lemma_variant_expansion_elems(
            d,
            entries.last().name,
            entries.last().variants,
            i - prefix.len(),
        );
        let k = choose|k: int|
            0 <= k < entries.last().variants.len() && spec_applicable(d, entries.last().variants[k])
                && variant_expansion(d, entries.last().name, entries.last().variants)[i - prefix.len()]
                == spec_rewrite(d, entries.last().name, entries.last().variants[k]);
        assert(ex[i] == spec_rewrite(d, entries[e].name, entries[e].variants[k]));
    }
}

/// Whether every candidate of the list that carries at least one reason is
/// the rewrite of an earlier candidate of the list by an applicable variant
/// of the table, with that variant's reason name prepended.
pub open spec fn derived_from_earlier(s: Seq<DeinflectionV>, entries: Seq<ReasonEntryV>) -> bool {
    forall|i: int|
        0 <= i < s.len() && s[i].reasons.len() > 0 ==> exists|j: int, e: int, k: int|
            0 <= j < i && 0 <= e < entries.len() && 0 <= k < entries[e].variants.len()
                && spec_applicable(s[j], entries[e].variants[k]) && s[i] == spec_rewrite(
                s[j],
                entries[e].name,
                entries[e].variants[k],
            )
}

proof fn lemma_closure_from_derived(
    s: Seq<DeinflectionV>,
    i: nat,
    fuel: nat,
    entries: Seq<ReasonEntryV>,
)
    requires
        derived_from_earlier(s, entries),
        i <= s.len(),
    ensures
        derived_from_earlier(closure_from(s, i, fuel, entries), entries),
    decreases fuel,
{
    if i < s.len() && fuel > 0 {
        let s2 = s + expansion(s[i as int], entries);
        assert forall|t: int|
            0 <= t < s2.len() && s2[t].reasons.len() > 0 implies exists|j: int, e: int, k: int|
            0 <= j < t && 0 <= e < entries.len() && 0 <= k < entries[e].variants.len()
                && spec_applicable(s2[j], entries[e].variants[k]) && s2[t] == spec_rewrite(
                s2[j],
                entries[e].name,
                entries[e].variants[k],
            ) by {
            if t < s.len() {
                assert(s2[t] == s[t]);
                let (j, e, k): (int, int, int) = choose|j: int, e: int, k: int|
                    0 <= j < t && 0 <= e < entries.len() && 0 <= k < entries[e].variants.len()
                        && spec_applicable(s[j], entries[e].variants[k]) && s[t] == spec_rewrite(
                        s[j],
                        entries[e].name,
                        entries[e].variants[k],
                    );
                assert(s2[j] == s[j]);
            } else {
                lemma_expansion_elems(s[i as int], entries, t - s.len());
                let (e, k): (int, int) = choose|e: int, k: int|
                    0 <= e < entries.len() && 0 <= k < entries[e].variants.len()
                        && spec_applicable(s[i as int], entries[e].variants[k]) && expansion(
                        s[i as int],
                        entries,
                    )[t - s.len()] == spec_rewrite(
                        s[i as int],
                        entries[e].name,
                        entries[e].variants[k],
                    );
                assert(s2[i as int] == s[i as int]);
                assert(i < t);
            }
        }
        lemma_closure_from_derived(s2, i + 1, (fuel - 1) as nat, entries);
    }
}

/// Prepending order: every candidate of a word closure that carries at least
/// one reason is the rewrite of an earlier candidate by an applicable
/// variant, so its first reason names the most recently applied variant and
/// the remaining reasons are the earlier candidate's, unchanged.
pub proof fn lemma_word_closure_reasons_prepend(
    source: Seq<char>,
    entries: Seq<ReasonEntryV>,
    i: int,
)
    requires
        0 <= i < word_closure(source, entries).len(),
        word_closure(source, entries)[i].reasons.len() > 0,
    ensures
        exists|j: int, e: int, k: int|
            0 <= j < i && 0 <= e < entries.len() && 0 <= k < entries[e].variants.len()
                && spec_applicable(word_closure(source, entries)[j], entries[e].variants[k])
                && word_closure(source, entries)[i] == spec_rewrite(
                word_closure(source, entries)[j],
                entries[e].name,
                entries[e].variants[k],
            ),
{
    let s0 = seq![spec_seed(source)];
    assert(derived_from_earlier(s0, entries)) by {
        assert(forall|t: int| 0 <= t < s0.len() ==> s0[t].reasons.len() == 0);
    }
    lemma_closure_from_derived(s0, 0, WORK_LIMIT as nat, entries);
}

proof fn lemma_closure_from_prefix(
    s: Seq<DeinflectionV>,
    i: nat,
    fuel: nat,
    entries: Seq<ReasonEntryV>,
)
    ensures
        closure_from(s, i, fuel, entries).len() >= s.len(),
        forall|t: int| 0 <= t < s.len() ==> closure_from(s, i, fuel, entries)[t] == s[t],
    decreases fuel,
{
    if i < s.len() && fuel > 0 {
        let s2 = s + expansion(s[i as int], entries);
        lemma_closure_from_prefix(s2, i + 1, (fuel - 1) as nat, entries);
        assert forall|t: int| 0 <= t < s.len() implies closure_from(s, i, fuel, entries)[t] == s[t] by {
            assert(closure_from(s2, i + 1, (fuel - 1) as nat, entries)[t] == s2[t]);
            assert(s2[t] == s[t]);
        }
    }
}

proof fn lemma_word_closures_seed(keys: Seq<Seq<char>>, entries: Seq<ReasonEntryV>, m: int)
    requires
        0 <= m < keys.len(),
    ensures
        word_closures(keys, entries).contains(spec_seed(keys[m])),
    decreases keys.len(),
{
    if m == keys.len() - 1 {
        lemma_closure_from_prefix(seq![spec_seed(keys[m])], 0, WORK_LIMIT as nat, entries);
        let off = word_closures(keys.drop_last(), entries).len() as int;
        assert(word_closure(keys[m], entries)[0] == spec_seed(keys[m]));
        assert(word_closures(keys, entries)[off] == spec_seed(keys[m]));
    } else {
        lemma_word_closures_seed(keys.drop_last(), entries, m);
        let i = choose|i: int|
            0 <= i < word_closures(keys.drop_last(), entries).len() && word_closures(
                keys.drop_last(),
                entries,
            )[i] == spec_seed(keys.drop_last()[m]);
        assert(word_closures(keys, entries)[i] == spec_seed(keys[m]));
    }
}

/// Every non-empty prefix of every mutant of the input survives as a seed:
/// the deinflections of a string contain the untransformed candidate of each
/// prefix of each of its three forms.
pub proof fn lemma_string_deinflections_seeds(
    source: Seq<char>,
    entries: Seq<ReasonEntryV>,
    p: Seq<char>,
)
    requires
        candidate_prefixes(source).contains(p),
    ensures
        word_closures(dedup_first(candidate_prefixes(source)), entries).contains(spec_seed(p)),
{
    lemma_dedup_first_contains(candidate_prefixes(source), p);
    let keys = dedup_first(candidate_prefixes(source));
    let m = choose|m: int| 0 <= m < keys.len() && keys[m] == p;
    lemma_word_closures_seed(keys, entries, m);
}

} // verus!
