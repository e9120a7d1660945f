//! Tag records: the positional tuple shape found in archives and the
//! in-memory record the store works with.

use vstd::prelude::*;

use crate::terms_bank::Score;

verus! {

/// A tag as an archive encodes it: name, category, order, notes, score.
pub struct TagTuple(pub String, pub String, pub Score, pub String, pub Score);

/// A tag attached to dictionary entries. `dict_id` tells which dictionary it
/// came from, stamped at ingestion.
pub struct Tag {
    pub name: String,
    pub category: String,
    pub order: Score,
    pub notes: String,
    pub score: Score,
    pub dict_id: u8,
}

/// The mathematical value of a [`Tag`].
#[verifier::ext_equal]
pub ghost struct TagV {
    pub name: Seq<char>,
    pub category: Seq<char>,
    pub order: int,
    pub notes: Seq<char>,
    pub score: int,
    pub dict_id: u8,
}

impl View for Tag {
    type V = TagV;

    open spec fn view(&self) -> TagV {
        TagV {
            name: self.name@,
            category: self.category@,
            order: self.order.0 as int,
            notes: self.notes@,
            score: self.score.0 as int,
            dict_id: self.dict_id,
        }
    }
}

impl Tag {
    /// The tag that an archive tuple stands for; the record starts
    /// unstamped.
    pub fn from(t: TagTuple) -> (r: Tag)
        ensures
            r@.name == t.0@,
            r@.category == t.1@,
            r@.order == t.2.0 as int,
            r@.notes == t.3@,
            r@.score == t.4.0 as int,
            r@.dict_id == 0,
    {
        Tag { name: t.0, category: t.1, order: t.2, notes: t.3, score: t.4, dict_id: 0 }
    }

    /// Stamps the record with the dictionary it belongs to.
    pub fn set_dict_id(&mut self, dict_id: u8)
        ensures
            final(self)@ == (TagV { dict_id, ..old(self)@ }),
    {
        self.dict_id = dict_id;
    }
}

} // verus!
