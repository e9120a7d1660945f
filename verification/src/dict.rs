//! A parsed dictionary archive: the metadata record and the three record
//! collections that ingestion consumes.

use vstd::prelude::*;

use crate::kanji_bank::Kanji;
use crate::tag_bank::Tag;
use crate::terms_bank::Term;

verus! {

/// The archive format generation.
#[derive(Copy, Clone, Debug, PartialEq, Eq, Structural)]
pub enum Format {
    V2,
    V3,
}

impl Format {
    /// Parses the format number of an archive's metadata; only generations 2
    /// and 3 exist.
    pub fn try_from(value: u32) -> (r: Result<Format, u32>)
        ensures
            match r {
                Ok(f) => (value == 2 && f == Format::V2) || (value == 3 && f == Format::V3),
                Err(e) => e == value && value != 2 && value != 3,
            },
    {
        if value == 2 {
            Ok(Format::V2)
        } else if value == 3 {
            Ok(Format::V3)
        } else {
            Err(value)
        }
    }
}

/// The metadata of a loaded dictionary.
pub struct Index {
    pub title: String,
    pub revision: String,
    pub sequenced: Option<bool>,
    pub format: Format,
    pub author: Option<String>,
    pub url: Option<String>,
    pub description: Option<String>,
    pub attribution: Option<String>,
    pub frequency_mode: Option<String>,
}

/// An in-memory dictionary bundle, as archive parsing produces it and
/// ingestion consumes it.
pub struct Dict {
    pub index: Index,
    pub terms: Vec<Term>,
    pub kanji: Vec<Kanji>,
    pub tags: Vec<Tag>,
}

} // verus!
