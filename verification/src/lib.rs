//! A small personal note store: notes and a many-to-many tag taxonomy kept in
//! a relational backing store, exposed through typed identifiers, a shared
//! store handle and hydrated `Note` / `Tag` entities.

mod db;
mod error;
mod laws;
mod model;
mod notes;
mod sql;
mod tables;
mod traits;

pub use db::DB;
pub use error::{Error, LaResult};
pub use laws::{
    lemma_enumeration_grows, lemma_identity_equality, lemma_load_deterministic,
    lemma_no_orphan_link, lemma_note_round_trip, lemma_tag_identity_equality,
    lemma_tag_name_unique, lemma_tag_round_trip,
};
pub use model::{NoteRow, StoreModel, TagRow};
pub use notes::{note_matches, tag_matches, tags_hydrated};
pub use notes::{Note, NoteId, NoteV, Tag, TagId, TagV};
pub use tables::Table;
pub use traits::ID;
