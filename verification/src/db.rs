//! The store handle: owner of the one connection to the backing relational
//! engine, together with the trusted boundary to rusqlite.
//!
//! Each `#[verifier::external_body]` function below is believed, not proved:
//! its contract states what the named rusqlite calls do to the abstract
//! [`StoreModel`] of the connection, as rusqlite's and SQLite's documented
//! behaviour shows it. Everything else in the crate is verified against
//! these contracts.

use vstd::prelude::*;

use crate::error::Error;
use crate::model::{NoteRow, StoreModel, TagRow};
use crate::sql::{conn_fk_on, conn_links, conn_notes, conn_schema, conn_tags};
use crate::tables::Table;

verus! {

/// The owner of the single physical connection for the process. Zero or more
/// entity operations borrow it; every operation states over the abstract
/// [`StoreModel`] how it reads or changes the rows behind the connection.
pub struct DB {
    conn: rusqlite::Connection,
    store_path: Option<String>,
}

impl View for DB {
    type V = StoreModel;

    closed spec fn view(&self) -> StoreModel {
        StoreModel {
            fk_on: conn_fk_on(self.conn),
            schema: conn_schema(self.conn),
            notes: conn_notes(self.conn),
            tags: conn_tags(self.conn),
            links: conn_links(self.conn),
        }
    }
}

impl DB {
    /// The resolved backing-file location, or none for an in-memory store.
    pub closed spec fn spec_path(&self) -> Option<Seq<char>> {
        match self.store_path {
            Some(p) => Some(p@),
            None => None,
        }
    }

    /// Relies on rusqlite's `Connection::open_in_memory`: a fresh in-memory
    /// database holds no rows and none of this schema's relations, and
    /// referential-integrity enforcement is off until the pragma enables it.
    #[verifier::external_body]
    fn open_memory() -> (r: Result<DB, rusqlite::Error>)
        ensures
            r matches Ok(db) ==> conn_notes(db.conn) == StoreModel::empty().notes,
            r matches Ok(db) ==> conn_tags(db.conn) == StoreModel::empty().tags,
            r matches Ok(db) ==> conn_links(db.conn) == StoreModel::empty().links,
            r matches Ok(db) ==> conn_fk_on(db.conn) == StoreModel::empty().fk_on,
            r matches Ok(db) ==> conn_schema(db.conn) == StoreModel::empty().schema,
            r matches Ok(db) ==> db.spec_path() is None,
    {
        let conn = rusqlite::Connection::open_in_memory()?;
        Ok(DB { conn, store_path: None })
    }

    /// Relies on rusqlite's `Connection::open`: it opens (creating the file
    /// if absent) a database on which SQLite has enforced the declared
    /// constraints — so the store's integrity rules hold of its rows — and
    /// referential-integrity enforcement starts out off for the connection.
    #[verifier::external_body]
    fn open_file(path: &String) -> (r: Result<DB, rusqlite::Error>)
        ensures
            r matches Ok(db) ==> db@.wf() && !db@.fk_on && db.spec_path() == Some(path@),
    {
        let conn = rusqlite::Connection::open(path)?;
        Ok(DB { conn, store_path: Some(path.clone()) })
    }

    /// Relies on rusqlite's `Connection::execute` running
    /// `PRAGMA foreign_keys = ON`: it switches referential-integrity
    /// enforcement on for this connection and touches no row.
    #[verifier::external_body]
    fn enable_foreign_keys(&mut self) -> (r: Result<(), rusqlite::Error>)
        ensures
            r matches Ok(_) ==> old(self)@.with_fk() == final(self)@,
            r matches Err(_) ==> old(self)@ == final(self)@,
            final(self).spec_path() == old(self).spec_path(),
    {
        self.conn.execute("PRAGMA foreign_keys = ON", [])?;
        Ok(())
    }

    /// Relies on rusqlite's `Connection::execute` running one of the three
    /// `CREATE TABLE IF NOT EXISTS` declarations of this schema: on success
    /// the named relation exists — created now, or left standing from an
    /// earlier initialization — and no row is added or changed either way.
    #[verifier::external_body]
    pub(crate) fn exec_table_decl(&mut self, name: &str, schema: &str) -> (r: Result<
        (),
        rusqlite::Error,
    >)
        requires
            Table::is_table_decl(name@, schema@),
        ensures
            r matches Ok(_) ==> final(self)@ == old(self)@.with_table(name@),
            r matches Err(_) ==> final(self)@ == old(self)@,
            final(self).spec_path() == old(self).spec_path(),
    {
        self.conn.execute(&format!("CREATE TABLE IF NOT EXISTS {} {}", name, schema), [])?;
        Ok(())
    }

    /// Relies on rusqlite's `Connection::execute` running
    /// `DROP TRIGGER IF EXISTS update_note_timestamp`: idempotent, and it
    /// neither adds nor changes any row.
    #[verifier::external_body]
    pub(crate) fn exec_drop_note_trigger(&mut self) -> (r: Result<(), rusqlite::Error>)
        ensures
            final(self)@ == old(self)@,
            final(self).spec_path() == old(self).spec_path(),
    {
        self.conn.execute("DROP TRIGGER IF EXISTS update_note_timestamp", [])?;
        Ok(())
    }

    /// Relies on rusqlite's `Connection::transaction`, `Transaction::execute`
    /// with an `INSERT` into notes, `Transaction::last_insert_rowid` and
    /// `Transaction::commit`: on success the store gains exactly one note row
    /// under a key SQLite chose unused, holding the given title and content;
    /// on failure the transaction rolls back and no row is left behind.
    #[verifier::external_body]
    pub(crate) fn insert_note_row(&mut self, title: &str, content: &str) -> (r: Result<
        i64,
        rusqlite::Error,
    >)
        ensures
            r matches Ok(id) ==> !old(self)@.notes.dom().contains(id as int) && final(self)@ == old(
                self,
            )@.with_note(id as int, title@, content@),
            r matches Err(_) ==> final(self)@ == old(self)@,
            final(self).spec_path() == old(self).spec_path(),
    {
        let tx = self.conn.transaction()?;
        tx.execute("INSERT INTO notes (title, content) VALUES (?1, ?2)", (title, content))?;
        let id = tx.last_insert_rowid();
        tx.commit()?;
        Ok(id)
    }

    /// Relies on rusqlite's `Connection::transaction`, `Transaction::execute`
    /// with an `INSERT` into tags, `Transaction::last_insert_rowid` and
    /// `Transaction::commit`: on success the store gains exactly one tag row
    /// under a key SQLite chose unused — and, by the `UNIQUE` constraint on
    /// names, success shows the name was not yet taken; on failure the
    /// transaction rolls back and no row is left behind.
    #[verifier::external_body]
    pub(crate) fn insert_tag_row(&mut self, name: &str, description: &str) -> (r: Result<
        i64,
        rusqlite::Error,
    >)
        ensures
            r matches Ok(id) ==> !old(self)@.tags.dom().contains(id as int) && !old(
                self,
            )@.has_tag_name(name@) && final(self)@ == old(self)@.with_tag(
                id as int,
                name@,
                description@,
            ),
            r matches Err(_) ==> final(self)@ == old(self)@,
            final(self).spec_path() == old(self).spec_path(),
    {
        let tx = self.conn.transaction()?;
        tx.execute("INSERT INTO tags (name, description) VALUES (?1, ?2)", (name, description))?;
        let id = tx.last_insert_rowid();
        tx.commit()?;
        Ok(id)
    }

    /// Relies on rusqlite's `Connection::transaction`, `Transaction::execute`
    /// with an `INSERT` into note_tags and `Transaction::commit`, with
    /// referential-integrity enforcement on: success shows both referents
    /// existed — else the foreign keys would have rejected the row — and that
    /// the pair was new, else its primary key would have; on failure the
    /// transaction rolls back and no row is left behind.
    #[verifier::external_body]
    pub(crate) fn insert_link_row(&mut self, note_id: i64, tag_id: i64) -> (r: Result<
        (),
        rusqlite::Error,
    >)
        requires
            old(self)@.fk_on,
        ensures
            r matches Ok(_) ==> old(self)@.notes.dom().contains(note_id as int) && old(
                self,
            )@.tags.dom().contains(tag_id as int) && !old(self)@.links.contains(
                (note_id as int, tag_id as int),
            ) && final(self)@ == old(self)@.with_link(note_id as int, tag_id as int),
            r matches Err(_) ==> final(self)@ == old(self)@,
            final(self).spec_path() == old(self).spec_path(),
    {
        let tx = self.conn.transaction()?;
        tx.execute("INSERT INTO note_tags (note_id, tag_id) VALUES (?1, ?2)", [note_id, tag_id])?;
        tx.commit()?;
        Ok(())
    }

    /// Relies on rusqlite's `Connection::query_row` with a `SELECT` of title
    /// and content by note key: a returned pair is that row's title and
    /// content, and for a key without a row the query reports an error
    /// (`QueryReturnedNoRows`) rather than a value.
    #[verifier::external_body]
    pub(crate) fn query_note_row(&self, id: i64) -> (r: Result<(String, String), rusqlite::Error>)
        ensures
            r matches Ok(tc) ==> self@.notes.dom().contains(id as int) && self@.notes[id as int]
                == (NoteRow { title: tc.0@, content: tc.1@ }),
            !self@.notes.dom().contains(id as int) ==> r is Err,
    {
        self.conn.query_row(
            "SELECT title, content FROM notes WHERE note_id = ?1",
            [id],
            |row| Ok((row.get::<_, String>(0)?, row.get::<_, String>(1)?)),
        )
    }

    /// Relies on rusqlite's `Connection::query_row` with a `SELECT` of name
    /// and description by tag key: a returned pair is that row's name and
    /// description, and for a key without a row the query reports an error
    /// (`QueryReturnedNoRows`) rather than a value.
    #[verifier::external_body]
    pub(crate) fn query_tag_row(&self, id: i64) -> (r: Result<(String, String), rusqlite::Error>)
        ensures
            r matches Ok(nd) ==> self@.tags.dom().contains(id as int) && self@.tags[id as int]
                == (TagRow { name: nd.0@, description: nd.1@ }),
            !self@.tags.dom().contains(id as int) ==> r is Err,
    {
        self.conn.query_row(
            "SELECT name, description FROM tags WHERE tag_id = ?1",
            [id],
            |row| Ok((row.get::<_, String>(0)?, row.get::<_, String>(1)?)),
        )
    }

    /// Relies on rusqlite's `Connection::prepare` and `Statement::query_map`
    /// with `SELECT note_id FROM notes`: the keys come back exactly once
    /// each — they form the primary key of the relation — in whatever
    /// physical row order the store yields.
    #[verifier::external_body]
    pub(crate) fn query_note_ids(&self) -> (r: Result<Vec<i64>, rusqlite::Error>)
        ensures
            r matches Ok(v) ==> v@.map_values(|x: i64| x as int).to_set() == self@.notes.dom()
                && v@.no_duplicates(),
    {
        let mut stmt = self.conn.prepare("SELECT note_id FROM notes")?;
        let rows = stmt.query_map([], |row| row.get::<_, i64>(0))?;
        rows.collect()
    }

    /// Relies on rusqlite's `Connection::prepare` and `Statement::query_map`
    /// with `SELECT tag_id FROM note_tags WHERE note_id = ?1`: the tag keys
    /// associated with that note come back exactly once each — the pair is
    /// the relation's primary key — in physical row order; a note with no
    /// tags yields an empty collection, not an error.
    #[verifier::external_body]
    pub(crate) fn query_note_tag_ids(&self, note_id: i64) -> (r: Result<Vec<i64>, rusqlite::Error>)
        ensures
            r matches Ok(v) ==> v@.map_values(|x: i64| x as int).to_set() == self@.tags_of(
                note_id as int,
            ) && v@.no_duplicates(),
    {
        let mut stmt = self.conn.prepare("SELECT tag_id FROM note_tags WHERE note_id = ?1")?;
        let rows = stmt.query_map([note_id], |row| row.get::<_, i64>(0))?;
        rows.collect()
    }

    /// Relies on directories' `ProjectDirs::from`: the platform data
    /// directory for this application, if the platform yields one. The
    /// result depends on the environment, so nothing more is stated of it.
    #[verifier::external_body]
    fn resolve_data_file() -> (r: Option<String>)
    {
        let dirs = directories::ProjectDirs::from("com", "Itron-al-Lenn", "laBrain")?;
        Some(dirs.data_local_dir().join("notes.db").to_string_lossy().into_owned())
    }

    /// Opens the backing file in the platform data directory — or reports
    /// `Dir` when no such directory can be resolved — switches
    /// referential-integrity enforcement on, and ensures the three relations
    /// exist. Idempotent against an already-initialized store. The handle
    /// is assumed to be the only live one on its backing file: the contracts
    /// read the store through this connection alone, as one process holding
    /// one store handle, which is the supported mode of operation.
    pub fn new() -> (r: Result<DB, Error>)
        ensures
            r matches Ok(db) ==> db@.inv() && db.spec_path() is Some,
            r matches Err(e) ==> e is Dir || e is Sql,
    {
        let path = match Self::resolve_data_file() {
            Some(p) => p,
            None => {
                return Err(Error::Dir);
            },
        };
        let mut db = match Self::open_file(&path) {
            Ok(d) => d,
            Err(e) => {
                return Err(Error::Sql(e));
            },
        };
        match db.init_connection() {
            Ok(_) => Ok(db),
            Err(e) => Err(e),
        }
    }

    /// Opens a fresh in-memory store, for tests: same initialization as
    /// [`DB::new`], with no backing file and no rows.
    pub fn new_memory() -> (r: Result<DB, Error>)
        ensures
            r matches Ok(db) ==> db@.inv() && db@.notes == Map::<int, NoteRow>::empty() && db@.tags
                == Map::<int, TagRow>::empty() && db@.links == Set::<(int, int)>::empty()
                && db.spec_path() is None,
            r matches Err(e) ==> e is Sql,
    {
        let mut db = match Self::open_memory() {
            Ok(d) => d,
            Err(e) => {
                return Err(Error::Sql(e));
            },
        };
        match db.init_connection() {
            Ok(_) => Ok(db),
            Err(e) => Err(e),
        }
    }

    /// Switches referential-integrity enforcement on — without it the
    /// schema's cascade rules are silently inert — and creates the three
    /// relations and their triggers if they are absent.
    fn init_connection(&mut self) -> (r: Result<(), Error>)
        requires
            old(self)@.wf(),
        ensures
            r matches Ok(_) ==> final(self)@ == old(self)@.with_fk().with_table(
                Table::Notes.spec_name(),
            ).with_table(Table::Tags.spec_name()).with_table(Table::NoteTags.spec_name()),
            r matches Ok(_) ==> final(self)@.inv(),
            r matches Err(e) ==> e is Sql,
            final(self).spec_path() == old(self).spec_path(),
    {
        match self.enable_foreign_keys() {
            Ok(_) => {},
            Err(e) => {
                return Err(Error::Sql(e));
            },
        }
        match Table::Notes.create(self) {
            Ok(_) => {},
            Err(e) => {
                return Err(e);
            },
        }
        match Table::Notes.create_triggers(self) {
            Ok(_) => {},
            Err(e) => {
                return Err(e);
            },
        }
        match Table::Tags.create(self) {
            Ok(_) => {},
            Err(e) => {
                return Err(e);
            },
        }
        match Table::NoteTags.create(self) {
            Ok(_) => {},
            Err(e) => {
                return Err(e);
            },
        }
        Ok(())
    }

    /// The resolved backing-file location, or none for an in-memory store.
    pub fn path(&self) -> (r: Option<&str>)
        ensures
            match r {
                Some(p) => self.spec_path() == Some(p@),
                None => self.spec_path() is None,
            },
    {
        match &self.store_path {
            Some(p) => Some(p.as_str()),
            None => None,
        }
    }
}

} // verus!
