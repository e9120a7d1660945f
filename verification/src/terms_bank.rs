//! Headword records: the positional tuple shape found in archives and the
//! in-memory record the store works with.

use vstd::prelude::*;

use crate::deinflect::{spec_rule_bit, spec_rule_token, Rule, Rules};

verus! {

/// A ranking weight as a totally ordered key: larger keys rank higher. The
/// archive's real-valued scores are mapped into this key order-preservingly
/// before they reach the library.
#[derive(Copy, Clone, Debug, PartialEq, Eq, Structural)]
pub struct Score(pub i64);

/// A headword as an archive encodes it: expression, reading, definition
/// tags, rule set, score, glossary, sequence number, term tags.
pub struct TermTuple(
    pub String,
    pub String,
    pub Option<String>,
    pub Rules,
    pub Score,
    pub Vec<String>,
    pub u32,
    pub String,
);

/// A dictionary headword. `reading` falls back to `expression` where the
/// archive leaves it empty; `dict_id` tells which dictionary it came from,
/// stamped at ingestion.
pub struct Term {
    pub expression: String,
    pub reading: String,
    pub definition_tags: Option<String>,
    pub rules: Rules,
    pub score: Score,
    pub glossary: Vec<String>,
    pub sequence: u32,
    pub term_tags: String,
    pub dict_id: u8,
}

/// The mathematical value of a [`Term`].
#[verifier::ext_equal]
pub ghost struct TermV {
    pub expression: Seq<char>,
    pub reading: Seq<char>,
    pub definition_tags: Option<Seq<char>>,
    pub rules: u8,
    pub score: int,
    pub glossary: Seq<Seq<char>>,
    pub sequence: u32,
    pub term_tags: Seq<char>,
    pub dict_id: u8,
}

impl View for Term {
    type V = TermV;

    open spec fn view(&self) -> TermV {
        TermV {
            expression: self.expression@,
            reading: self.reading@,
            definition_tags: match self.definition_tags {
                Some(t) => Some(t@),
                None => None,
            },
            rules: self.rules.mask,
            score: self.score.0 as int,
            glossary: self.glossary@.map_values(|g: String| g@),
            sequence: self.sequence,
            term_tags: self.term_tags@,
            dict_id: self.dict_id,
        }
    }
}

impl Term {
    /// The headword that an archive tuple stands for: the empty reading is
    /// replaced by the expression, and the record starts unstamped.
    pub fn from(t: TermTuple) -> (r: Term)
        ensures
            r@.expression == t.0@,
            t.1@.len() == 0 ==> r@.reading == t.0@,
            t.1@.len() > 0 ==> r@.reading == t.1@,
            r@.definition_tags == (match t.2 {
                Some(s) => Some(s@),
                None => None,
            }),
            r@.rules == t.3.mask,
            r@.score == t.4.0 as int,
            r@.glossary == t.5@.map_values(|g: String| g@),
            r@.sequence == t.6,
            r@.term_tags == t.7@,
            r@.dict_id == 0,
    {
        let reading = if t.1.as_str().is_empty() {
            t.0.clone()
        } else {
            t.1
        };
        Term {
            expression: t.0,
            reading,
            definition_tags: t.2,
            rules: t.3,
            score: t.4,
            glossary: t.5,
            sequence: t.6,
            term_tags: t.7,
            dict_id: 0,
        }
    }

    /// Stamps the record with the dictionary it belongs to.
    pub fn set_dict_id(&mut self, dict_id: u8)
        ensures
            final(self)@ == (TermV { dict_id, ..old(self)@ }),
    {
        self.dict_id = dict_id;
    }
}

/// The non-empty tokens of a string split at spaces, scanned from position
/// `i` with the current token starting at `start`.
pub open spec fn spec_tokens_from(s: Seq<char>, i: int, start: int) -> Seq<Seq<char>>
    decreases s.len() - i,
{
    if i >= s.len() || i < 0 {
        if 0 <= start < i <= s.len() {
            seq![s.subrange(start, i)]
        } else {
            Seq::empty()
        }
    } else if s[i] == ' ' {
        (if 0 <= start < i {
            seq![s.subrange(start, i)]
        } else {
            Seq::empty()
        }) + spec_tokens_from(s, i + 1, i + 1)
    } else {
        spec_tokens_from(s, i + 1, start)
    }
}

/// The non-empty space-separated tokens of a string.
pub open spec fn spec_tokens(s: Seq<char>) -> Seq<Seq<char>> {
    spec_tokens_from(s, 0, 0)
}

/// The rule tag a token names, if any.
pub open spec fn spec_token_rule(t: Seq<char>) -> Option<Rule> {
    if t == "v1"@ {
        Some(Rule::V1)
    } else if t == "v5"@ {
        Some(Rule::V5)
    } else if t == "vs"@ {
        Some(Rule::Vs)
    } else if t == "vk"@ {
        Some(Rule::Vk)
    } else if t == "vz"@ {
        Some(Rule::Vz)
    } else if t == "adj-i"@ {
        Some(Rule::AdjI)
    } else if t == "iru"@ {
        Some(Rule::Iru)
    } else {
        None
    }
}

/// Whether a character has the Unicode white-space property, the set that
/// str::trim removes.
pub open spec fn spec_is_whitespace(c: char) -> bool {
    c == ' ' || c == '\t' || c == '\n' || c == '\r' || c == '\u{b}' || c == '\u{c}' || c
        == '\u{85}' || c == '\u{a0}' || c == '\u{1680}' || c == '\u{2000}' || c == '\u{2001}'
        || c == '\u{2002}' || c == '\u{2003}' || c == '\u{2004}' || c == '\u{2005}' || c
        == '\u{2006}' || c == '\u{2007}' || c == '\u{2008}' || c == '\u{2009}' || c
        == '\u{200a}' || c == '\u{2028}' || c == '\u{2029}' || c == '\u{202f}' || c
        == '\u{205f}' || c == '\u{3000}'
}

/// The sequence without its leading whitespace.
pub open spec fn spec_drop_leading_ws(t: Seq<char>) -> Seq<char>
    decreases t.len(),
{
    if t.len() > 0 && spec_is_whitespace(t[0]) {
        spec_drop_leading_ws(t.drop_first())
    } else {
        t
    }
}

/// The sequence without its trailing whitespace.
pub open spec fn spec_drop_trailing_ws(t: Seq<char>) -> Seq<char>
    decreases t.len(),
{
    if t.len() > 0 && spec_is_whitespace(t.last()) {
        spec_drop_trailing_ws(t.drop_last())
    } else {
        t
    }
}

/// The sequence without its leading and trailing whitespace, as str::trim
/// leaves it.
pub open spec fn spec_trim(t: Seq<char>) -> Seq<char> {
    spec_drop_trailing_ws(spec_drop_leading_ws(t))
}

/// Whether every token, once trimmed, is empty or names a rule tag.
pub open spec fn spec_tokens_valid(ts: Seq<Seq<char>>) -> bool {
    forall|k: int|
        0 <= k < ts.len() ==> spec_trim(#[trigger] ts[k]).len() == 0 || spec_token_rule(
            spec_trim(ts[k]),
        ) is Some
}

/// The union of the mask bits of all tokens: each trimmed token that names
/// a rule tag contributes that tag's bit, the others contribute nothing.
pub open spec fn spec_tokens_mask(ts: Seq<Seq<char>>) -> u8
    decreases ts.len(),
{
    if ts.len() == 0 {
        0
    } else {
        match spec_token_rule(spec_trim(ts.last())) {
            Some(r) => spec_tokens_mask(ts.drop_last()) | spec_rule_bit(r),
            None => spec_tokens_mask(ts.drop_last()),
        }
    }
}

/// The seven rule tokens are pairwise distinct, with their lengths.
proof fn lemma_rule_tokens_distinct()
    ensures
        "v1"@ != "v5"@ && "v1"@ != "vs"@ && "v1"@ != "vk"@ && "v1"@ != "vz"@ && "v1"@
            != "adj-i"@ && "v1"@ != "iru"@,
        "v5"@ != "vs"@ && "v5"@ != "vk"@ && "v5"@ != "vz"@ && "v5"@ != "adj-i"@ && "v5"@
            != "iru"@,
        "vs"@ != "vk"@ && "vs"@ != "vz"@ && "vs"@ != "adj-i"@ && "vs"@ != "iru"@,
        "vk"@ != "vz"@ && "vk"@ != "adj-i"@ && "vk"@ != "iru"@,
        "vz"@ != "adj-i"@ && "vz"@ != "iru"@,
        "adj-i"@ != "iru"@,
        "v1"@.len() == 2 && "v5"@.len() == 2 && "vs"@.len() == 2 && "vk"@.len() == 2
            && "vz"@.len() == 2 && "adj-i"@.len() == 5 && "iru"@.len() == 3,
{
    reveal_strlit("v1");
    reveal_strlit("v5");
    reveal_strlit("vs");
    reveal_strlit("vk");
    reveal_strlit("vz");
    reveal_strlit("adj-i");
    reveal_strlit("iru");
    assert("v1"@.len() == 2 && "v5"@.len() == 2 && "vs"@.len() == 2 && "vk"@.len() == 2
        && "vz"@.len() == 2 && "adj-i"@.len() == 5 && "iru"@.len() == 3);
    assert("v1"@[1] == '1' && "v5"@[1] == '5' && "vs"@[1] == 's' && "vk"@[1] == 'k' && "vz"@[1]
        == 'z');
}

/// Whether the character has the Unicode white-space property.
fn is_whitespace_char(c: char) -> (r: bool)
    ensures
        r == spec_is_whitespace(c),
{
    c == ' ' || c == '\t' || c == '\n' || c == '\r' || c == '\u{b}' || c == '\u{c}' || c
        == '\u{85}' || c == '\u{a0}' || c == '\u{1680}' || c == '\u{2000}' || c == '\u{2001}'
        || c == '\u{2002}' || c == '\u{2003}' || c == '\u{2004}' || c == '\u{2005}' || c
        == '\u{2006}' || c == '\u{2007}' || c == '\u{2008}' || c == '\u{2009}' || c
        == '\u{200a}' || c == '\u{2028}' || c == '\u{2029}' || c == '\u{202f}' || c
        == '\u{205f}' || c == '\u{3000}'
}

/// The slice without its leading and trailing whitespace.
fn trim_token<'a>(t: &'a str) -> (r: &'a str)
    ensures
        r@ == spec_trim(t@),
{
    let n = t.unicode_len();
    proof {
        assert(t@.subrange(0, n as int) =~= t@);
    }
    let mut a: usize = 0;
    while a < n && is_whitespace_char(t.get_char(a))
        invariant
            n == t@.len(),
            a <= n,
            spec_drop_leading_ws(t@) == spec_drop_leading_ws(t@.subrange(a as int, n as int)),
        decreases n - a,
    {
        proof {
            assert(t@.subrange(a as int, n as int).drop_first() =~= t@.subrange(
                a + 1,
                n as int,
            ));
            assert(t@.subrange(a as int, n as int)[0] == t@[a as int]);
        }
        a += 1;
    }
    proof {
        assert(spec_drop_leading_ws(t@) == t@.subrange(a as int, n as int));
    }
    let mut b: usize = n;
    while b > a && is_whitespace_char(t.get_char(b - 1))
        invariant
            n == t@.len(),
            a <= b <= n,
            spec_drop_leading_ws(t@) == t@.subrange(a as int, n as int),
            spec_drop_trailing_ws(spec_drop_leading_ws(t@)) == spec_drop_trailing_ws(
                t@.subrange(a as int, b as int),
            ),
        decreases b,
    {
        proof {
            assert(t@.subrange(a as int, b as int).drop_last() =~= t@.subrange(
                a as int,
                (b - 1) as int,
            ));
            assert(t@.subrange(a as int, b as int).last() == t@[b - 1]);
        }
        b -= 1;
    }
    proof {
        assert(spec_trim(t@) == t@.subrange(a as int, b as int));
    }
    t.substring_char(a, b)
}

/// Parses a space-separated list of rule tokens, as headword records carry
/// it. Each token is trimmed of surrounding whitespace; tokens that are
/// empty or wholly whitespace are skipped; the first remaining unknown
/// token is rejected and returned, trimmed.
pub fn from_string(s: &str) -> (r: Result<Rules, String>)
    ensures
        match r {
            Ok(rules) => spec_tokens_valid(spec_tokens(s@)) && rules.mask == spec_tokens_mask(
                spec_tokens(s@),
            ),
            Err(e) => !spec_tokens_valid(spec_tokens(s@)) && spec_token_rule(e@) is None
                && e@.len() > 0 && (exists|k: int|
                0 <= k < spec_tokens(s@).len() && spec_trim(#[trigger] spec_tokens(s@)[k])
                    == e@),
        },
{
    proof {
        lemma_rule_tokens_distinct();
    }
    let n = s.unicode_len();
    let mut mask: u8 = 0;
    let mut i: usize = 0;
    let mut start: usize = 0;
    let ghost mut done: Seq<Seq<char>> = Seq::empty();
    while i < n
        invariant
            n == s@.len(),
            start <= i <= n,
            spec_tokens(s@) == done + spec_tokens_from(s@, i as int, start as int),
            spec_tokens_valid(done),
            mask == spec_tokens_mask(done),
        decreases n - i,
    {
        let c = s.get_char(i);
        if c == ' ' {
            if start < i {
                let token = s.substring_char(start, i);
                proof {
                    assert(spec_tokens_from(s@, i as int, start as int) == seq![token@]
                        + spec_tokens_from(s@, i + 1, i + 1));
                    assert(done.push(token@).drop_last() =~= done);
                    assert(done.push(token@) + spec_tokens_from(s@, i + 1, i + 1) =~= done
                        + spec_tokens_from(s@, i as int, start as int));
                }
                match parse_token(token, mask, Ghost(done)) {
                    Ok(new_mask) => {
                        mask = new_mask;
                        proof {
                            done = done.push(token@);
                        }
                    },
                    Err(e) => {
                        proof {
                            assert(spec_tokens(s@)[done.len() as int] == token@);
                            assert(!spec_tokens_valid(spec_tokens(s@)));
                        }
                        return Err(e);
                    },
                }
            }
            start = i + 1;
        }
        i += 1;
    }
    if start < n {
        let token = s.substring_char(start, n);
        proof {
            assert(spec_tokens_from(s@, n as int, start as int) == seq![token@]);
            assert(spec_tokens(s@) =~= done.push(token@));
            assert(done.push(token@).drop_last() =~= done);
        }
        match parse_token(token, mask, Ghost(done)) {
            Ok(new_mask) => {
                mask = new_mask;
                proof {
                    done = done.push(token@);
                }
            },
            Err(e) => {
                proof {
                    assert(spec_tokens(s@)[done.len() as int] == token@);
                    assert(!spec_tokens_valid(spec_tokens(s@)));
                }
                return Err(e);
            },
        }
    } else {
        proof {
            assert(spec_tokens(s@) =~= done);
        }
    }
    Ok(Rules { mask })
}

/// Folds one raw token into the mask: a token that trims to nothing is
/// skipped, one that trims to a rule token contributes its bit, and any
/// other is rejected, trimmed.
fn parse_token(token: &str, mask: u8, Ghost(done): Ghost<Seq<Seq<char>>>) -> (r: Result<u8, String>)
    requires
        spec_tokens_valid(done),
        mask == spec_tokens_mask(done),
    ensures
        match r {
            Ok(new_mask) => spec_tokens_valid(done.push(token@)) && new_mask == spec_tokens_mask(
                done.push(token@),
            ),
            Err(e) => e@ == spec_trim(token@) && e@.len() > 0 && spec_token_rule(e@) is None,
        },
{
    proof {
        lemma_rule_tokens_distinct();
        assert(done.push(token@).drop_last() =~= done);
        assert(done.push(token@).last() == token@);
    }
    let trimmed = trim_token(token);
    if trimmed.unicode_len() == 0 {
        proof {
            assert(spec_token_rule(spec_trim(token@)) is None);
            assert forall|k: int|
                0 <= k < done.push(token@).len() implies spec_trim(
                #[trigger] done.push(token@)[k],
            ).len() == 0 || spec_token_rule(spec_trim(done.push(token@)[k])) is Some by {
                if k < done.len() {
                    assert(done.push(token@)[k] == done[k]);
                }
            }
        }
        Ok(mask)
    } else {
        match Rule::try_from(trimmed) {
            Ok(rule) => {
                proof {
                    assert(spec_token_rule(spec_trim(token@)) == Some(rule));
                    assert forall|k: int|
                        0 <= k < done.push(token@).len() implies spec_trim(
                        #[trigger] done.push(token@)[k],
                    ).len() == 0 || spec_token_rule(spec_trim(done.push(token@)[k])) is Some by {
                        if k < done.len() {
                            assert(done.push(token@)[k] == done[k]);
                        }
                    }
                }
                Ok(mask | rule.bit())
            },
            Err(e) => {
                proof {
                    assert(spec_rule_token(Rule::V1) != e@ && spec_rule_token(Rule::V5) != e@
                        && spec_rule_token(Rule::Vs) != e@ && spec_rule_token(Rule::Vk) != e@
                        && spec_rule_token(Rule::Vz) != e@ && spec_rule_token(Rule::AdjI) != e@
                        && spec_rule_token(Rule::Iru) != e@);
                    assert(spec_token_rule(e@) is None);
                }
                Err(e)
            },
        }
    }
}

} // verus!
