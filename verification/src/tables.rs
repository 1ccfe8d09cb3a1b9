//! The schema manager: the three relations' names and column declarations,
//! and their idempotent creation.

use vstd::prelude::*;

use crate::db::DB;
use crate::error::Error;

verus! {

/// The three relations of the physical schema.
#[derive(Clone, Copy, PartialEq, Eq, Structural, Debug)]
pub enum Table {
    Notes,
    Tags,
    NoteTags,
}

impl Table {
    /// The table's name, as a mathematical string.
    pub open spec fn spec_name(self) -> Seq<char> {
        match self {
            Table::Notes => "notes"@,
            Table::Tags => "tags"@,
            Table::NoteTags => "note_tags"@,
        }
    }

    /// The table's column declaration, as a mathematical string.
    pub open spec fn spec_schema(self) -> Seq<char> {
        match self {
            Table::Notes => "(
                note_id INTEGER PRIMARY KEY,
                title TEXT NOT NULL,
                content TEXT,
                created_at TIMESTAMP DEFAULT CURRENT_TIMESTAMP,
                updated_at TIMESTAMP DEFAULT CURRENT_TIMESTAMP
            )"@,
            Table::Tags => "(
                tag_id INTEGER PRIMARY KEY,
                name TEXT NOT NULL UNIQUE,
                description TEXT,
                created_at TIMESTAMP DEFAULT CURRENT_TIMESTAMP
            )"@,
            Table::NoteTags => "(
                note_id INTEGER,
                tag_id INTEGER,
                created_at TIMESTAMP DEFAULT CURRENT_TIMESTAMP,
                PRIMARY KEY (note_id, tag_id),
                FOREIGN KEY (note_id) REFERENCES notes(note_id) ON DELETE CASCADE,
                FOREIGN KEY (tag_id) REFERENCES tags(tag_id) ON DELETE CASCADE
            )"@,
        }
    }

    /// Whether a name/declaration pair is one of this schema's three table
    /// declarations.
    pub open spec fn is_table_decl(name: Seq<char>, schema: Seq<char>) -> bool {
        exists|t: Table| t.spec_name() == name && t.spec_schema() == schema
    }

    /// Returns the table name as a static string.
    pub fn name(&self) -> (r: &'static str)
        ensures
            r@ == self.spec_name(),
    {
        match self {
            Table::Notes => "notes",
            Table::Tags => "tags",
            Table::NoteTags => "note_tags",
        }
    }

    /// Returns the table schema as a static string.
    pub fn schema(&self) -> (r: &'static str)
        ensures
            r@ == self.spec_schema(),
    {
        match self {
            Table::Notes => "(
                note_id INTEGER PRIMARY KEY,
                title TEXT NOT NULL,
                content TEXT,
                created_at TIMESTAMP DEFAULT CURRENT_TIMESTAMP,
                updated_at TIMESTAMP DEFAULT CURRENT_TIMESTAMP
            )",
            Table::Tags => "(
                tag_id INTEGER PRIMARY KEY,
                name TEXT NOT NULL UNIQUE,
                description TEXT,
                created_at TIMESTAMP DEFAULT CURRENT_TIMESTAMP
            )",
            Table::NoteTags => "(
                note_id INTEGER,
                tag_id INTEGER,
                created_at TIMESTAMP DEFAULT CURRENT_TIMESTAMP,
                PRIMARY KEY (note_id, tag_id),
                FOREIGN KEY (note_id) REFERENCES notes(note_id) ON DELETE CASCADE,
                FOREIGN KEY (tag_id) REFERENCES tags(tag_id) ON DELETE CASCADE
            )",
        }
    }

    /// Creates the table in the database if it doesn't exist: on success the
    /// relation exists, and no row is added or changed either way. Idempotent:
    /// against a store where this relation already exists it is a no-op —
    /// the store is left exactly as it was.
    pub fn create(&self, db: &mut DB) -> (r: Result<(), Error>)
        ensures
            r matches Ok(_) ==> final(db)@ == old(db)@.with_table(self.spec_name()),
            r matches Err(e) ==> final(db)@ == old(db)@ && e is Sql,
            old(db)@.schema.contains(self.spec_name()) ==> final(db)@ == old(db)@,
            final(db).spec_path() == old(db).spec_path(),
    {
        let name = self.name();
        let schema = self.schema();
        proof {
            assert(Table::is_table_decl(name@, schema@)) by {
                assert((*self).spec_name() == name@ && (*self).spec_schema() == schema@);
            }
        }
        match db.exec_table_decl(name, schema) {
            Ok(_) => {
                proof {
                    if old(db)@.schema.contains(self.spec_name()) {
                        assert(old(db)@.schema.insert(self.spec_name()) =~= old(db)@.schema);
                        assert(old(db)@.with_table(self.spec_name()) =~= old(db)@);
                    }
                }
                Ok(())
            },
            Err(e) => Err(Error::Sql(e)),
        }
    }

    /// Creates triggers for the table in the database if they don't already
    /// exist. No trigger is declared today — automatic refresh of a note's
    /// update timestamp is a documented future extension — so for the notes
    /// table this clears any stale trigger and changes no row.
    pub fn create_triggers(&self, db: &mut DB) -> (r: Result<(), Error>)
        ensures
            final(db)@ == old(db)@,
            final(db).spec_path() == old(db).spec_path(),
            r matches Err(e) ==> e is Sql,
    {
        if let Table::Notes = self {
            match db.exec_drop_note_trigger() {
                Ok(_) => {},
                Err(e) => {
                    return Err(Error::Sql(e));
                },
            }
        }
        Ok(())
    }
}

} // verus!
