//! Declarations of the rusqlite types the store handle carries, and names
//! for what a connection's database holds.
//!
//! A connection is opaque to verification, so the rows behind it are given
//! names here: uninterpreted functions from the connection value to the
//! abstract rows. The trusted wrappers in the store handle state over these
//! names what each rusqlite call reads or changes.

use vstd::prelude::*;

use crate::model::{NoteRow, TagRow};
use rusqlite::Error as SqliteError;

verus! {

/// Declares rusqlite's connection type; a value of it is opaque here.
#[verifier::external_type_specification]
#[verifier::external_body]
pub struct ExConnection(rusqlite::Connection);

/// Declares rusqlite's error type; a value of it is opaque here and nothing
/// is assumed of it.
#[verifier::external_type_specification]
#[verifier::external_body]
pub struct ExSqlError(SqliteError);

/// The note rows of the database behind a connection, keyed by surrogate key.
pub uninterp spec fn conn_notes(c: rusqlite::Connection) -> Map<int, NoteRow>;

/// The tag rows of the database behind a connection, keyed by surrogate key.
pub uninterp spec fn conn_tags(c: rusqlite::Connection) -> Map<int, TagRow>;

/// The note-tag association pairs of the database behind a connection.
pub uninterp spec fn conn_links(c: rusqlite::Connection) -> Set<(int, int)>;

/// Whether referential-integrity enforcement is on for a connection.
pub uninterp spec fn conn_fk_on(c: rusqlite::Connection) -> bool;

/// The names of this schema's relations that exist in the database behind a
/// connection.
pub uninterp spec fn conn_schema(c: rusqlite::Connection) -> Set<Seq<char>>;

} // verus!
