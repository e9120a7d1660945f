//! Small executable helpers over strings, together with the trusted
//! declarations for the external kana transliterator.

use vstd::prelude::*;
use wana_kana::ConvertJapanese;

verus! {

/// Relies on str::ends_with: true iff the second string is a suffix of the
/// first. For two valid UTF-8 strings a byte-level suffix is exactly a
/// character-level suffix, so the claim is stated over character sequences.
#[verifier::external_body]
pub fn str_ends_with(s: &str, suffix: &str) -> (r: bool)
    ensures
        r == (suffix@.len() <= s@.len() && s@.subrange(
            s@.len() - suffix@.len(),
            s@.len() as int,
        ) == suffix@),
{
    s.ends_with(suffix)
}

/// Whether two string slices hold the same characters.
pub fn str_eq(s: &str, t: &str) -> (r: bool)
    ensures
        r == (s@ == t@),
{
    let n = s.unicode_len();
    if n != t.unicode_len() {
        proof {
            assert(s@ == t@ ==> s@.len() == t@.len());
        }
        return false;
    }
    let r = str_ends_with(s, t);
    proof {
        assert(s@.subrange(s@.len() - t@.len(), s@.len() as int) =~= s@);
    }
    r
}

/// Whether a character is one of the halfwidth sound marks, U+FF9E and
/// U+FF9F.
pub open spec fn spec_halfwidth_sound_mark(c: char) -> bool {
    c == '\u{ff9e}' || c == '\u{ff9f}'
}

/// Whether a string holds no halfwidth sound mark, and so is safe to hand
/// to the hiragana transliterator.
pub open spec fn text_convertible(s: Seq<char>) -> bool {
    forall|i: int| 0 <= i < s.len() ==> !spec_halfwidth_sound_mark(#[trigger] s[i])
}

/// The characters of a string with every halfwidth sound mark dropped, in
/// order.
pub open spec fn spec_strip_sound_marks(s: Seq<char>) -> Seq<char>
    decreases s.len(),
{
    if s.len() == 0 {
        Seq::empty()
    } else {
        spec_strip_sound_marks(s.drop_last()) + (if spec_halfwidth_sound_mark(s.last()) {
            Seq::empty()
        } else {
            seq![s.last()]
        })
    }
}

/// The string with every halfwidth sound mark removed: the result is safe
/// for the transliterator and otherwise unchanged.
pub fn strip_sound_marks(s: &str) -> (r: String)
    ensures
        r@ == spec_strip_sound_marks(s@),
        text_convertible(r@),
{
    let n = s.unicode_len();
    let mut r = String::new();
    let mut i: usize = 0;
    while i < n
        invariant
            n == s@.len(),
            i <= n,
            r@ == spec_strip_sound_marks(s@.take(i as int)),
            text_convertible(r@),
        decreases n - i,
    {
        let c = s.get_char(i);
        proof {
            assert(s@.take(i + 1).drop_last() =~= s@.take(i as int));
            assert(s@.take(i + 1).last() == s@[i as int]);
        }
        if !(c == '\u{ff9e}' || c == '\u{ff9f}') {
            let ghost pre = r@;
            let piece = s.substring_char(i, i + 1);
            proof {
                assert(piece@ =~= seq![c]);
            }
            r.append(piece);
            proof {
                assert(r@ =~= spec_strip_sound_marks(s@.take(i + 1)));
                assert forall|t: int|
                    0 <= t < r@.len() implies !spec_halfwidth_sound_mark(#[trigger] r@[t]) by {
                    if t < pre.len() {
                        assert(r@[t] == pre[t]);
                    } else {
                        assert(r@[t] == c);
                    }
                }
            }
        } else {
            proof {
                assert(r@ =~= spec_strip_sound_marks(s@.take(i + 1)));
            }
        }
        i += 1;
    }
    proof {
        assert(s@.take(n as int) =~= s@);
    }
    r
}

/// The full hiragana transliteration of a string, as the external
/// transliterator defines it. The result depends on the characters alone.
pub uninterp spec fn hiragana_of(s: Seq<char>) -> Seq<char>;

/// The full katakana transliteration of a string, as the external
/// transliterator defines it. The result depends on the characters alone.
pub uninterp spec fn katakana_of(s: Seq<char>) -> Seq<char>;

/// Relies on wana_kana's ConvertJapanese::to_hiragana: a pure function from
/// a string to its hiragana form. Its halfwidth-katakana walker does not
/// advance past a halfwidth sound mark that opens a tree lookup (the
/// conversion trie has no root transition for U+FF9E or U+FF9F), so on such
/// inputs the call underflows a position counter instead of returning;
/// the precondition keeps those two characters out.
#[verifier::external_body]
pub fn to_hiragana(s: &str) -> (r: String)
    requires
        text_convertible(s@),
    ensures
        r@ == hiragana_of(s@),
{
    s.to_hiragana()
}

/// Relies on wana_kana's ConvertJapanese::to_katakana: a pure total function
/// from a string to its katakana form.
#[verifier::external_body]
pub fn to_katakana(s: &str) -> (r: String)
    ensures
        r@ == katakana_of(s@),
{
    s.to_katakana()
}

} // verus!
