//! The core of a Japanese dictionary lookup library. Given a prefix of
//! Japanese (or romanized) text, it answers which dictionary headwords the
//! text could be, under what inflectional analysis, and in what ranked
//! order.
//!
//! The deinflector rewrites word endings by a data-driven rule table; the
//! store module plans idempotent chunked ingestion of a dictionary and
//! de-duplicates indexed lookups; the translator joins deinflection
//! candidates against looked-up headwords and groups and ranks the results.
//! The persistence substrate and archive reading live outside this crate and
//! exchange plain records with it.

pub mod db;
pub mod deinflect;
pub mod dict;
pub mod kanji_bank;
pub mod reasons;
pub mod tag_bank;
pub mod terms_bank;
pub mod text;
pub mod translator;

pub use crate::db::{
    dedup_terms_by_id, plan_dict_insertion, schema, CollectionSchema, DictInsertionSteps,
    IdObject, InsertionStep,
};
pub use crate::deinflect::{
    mutate, string_deinflections, word_deinflections, Deinflectable, Deinflection, ReasonEntry,
    ReasonInfo, Reasons, Rule, Rules,
};
pub use crate::dict::{Dict, Format, Index};
pub use crate::kanji_bank::{Kanji, KanjiTuple};
pub use crate::reasons::inflection_reasons;
pub use crate::tag_bank::{Tag, TagTuple};
pub use crate::terms_bank::{from_string, Score, Term, TermTuple};
pub use crate::text::strip_sound_marks;
pub use crate::translator::{
    get_grouped_terms, get_raw_terms, lookup_strings, DictEntries, DictEntry,
};
