//! Kanji records: the positional tuple shape found in archives and the
//! in-memory record the store works with.

use vstd::prelude::*;

verus! {

/// A kanji as an archive encodes it: character, onyomi, kunyomi, tags,
/// meanings, stats. Stats are held as ordered key/value pairs.
pub struct KanjiTuple(
    pub String,
    pub String,
    pub String,
    pub String,
    pub Vec<String>,
    pub Vec<(String, String)>,
);

/// A kanji entry. `dict_id` tells which dictionary it came from, stamped at
/// ingestion.
pub struct Kanji {
    pub character: String,
    pub onyomi: String,
    pub kunyomi: String,
    pub tags: String,
    pub meanings: Vec<String>,
    pub stats: Vec<(String, String)>,
    pub dict_id: u8,
}

/// The mathematical value of a [`Kanji`].
#[verifier::ext_equal]
pub ghost struct KanjiV {
    pub character: Seq<char>,
    pub onyomi: Seq<char>,
    pub kunyomi: Seq<char>,
    pub tags: Seq<char>,
    pub meanings: Seq<Seq<char>>,
    pub stats: Seq<(Seq<char>, Seq<char>)>,
    pub dict_id: u8,
}

impl View for Kanji {
    type V = KanjiV;

    open spec fn view(&self) -> KanjiV {
        KanjiV {
            character: self.character@,
            onyomi: self.onyomi@,
            kunyomi: self.kunyomi@,
            tags: self.tags@,
            meanings: self.meanings@.map_values(|s: String| s@),
            stats: self.stats@.map_values(|p: (String, String)| (p.0@, p.1@)),
            dict_id: self.dict_id,
        }
    }
}

impl Kanji {
    /// The kanji entry that an archive tuple stands for; the record starts
    /// unstamped.
    pub fn from(t: KanjiTuple) -> (r: Kanji)
        ensures
            r@.character == t.0@,
            r@.onyomi == t.1@,
            r@.kunyomi == t.2@,
            r@.tags == t.3@,
            r@.meanings == t.4@.map_values(|s: String| s@),
            r@.stats == t.5@.map_values(|p: (String, String)| (p.0@, p.1@)),
            r@.dict_id == 0,
    {
        Kanji {
            character: t.0,
            onyomi: t.1,
            kunyomi: t.2,
            tags: t.3,
            meanings: t.4,
            stats: t.5,
            dict_id: 0,
        }
    }

    /// Stamps the record with the dictionary it belongs to.
    pub fn set_dict_id(&mut self, dict_id: u8)
        ensures
            final(self)@ == (KanjiV { dict_id, ..old(self)@ }),
    {
        self.dict_id = dict_id;
    }
}

} // verus!
