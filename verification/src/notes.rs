//! Typed identifiers and the hydrated `Note` / `Tag` entities.
//!
//! A `Note` or `Tag` is a value-like read model: its cached fields reflect
//! the store state at the moment it was loaded or created, and equality
//! between entities is identity — two hydrated copies of the same row are
//! equal even if their cached text was captured at different moments.

use vstd::prelude::*;

use crate::db::DB;
use crate::error::{Error, LaResult};
use crate::model::{NoteRow, StoreModel, TagRow};
use crate::traits::ID;

verus! {

/// The surrogate key of a note row.
#[derive(Clone, Copy, PartialEq, Eq, Structural, PartialOrd, Ord, Debug)]
pub struct NoteId(i64);

/// The surrogate key of a tag row.
#[derive(Clone, Copy, PartialEq, Eq, Structural, PartialOrd, Ord, Debug)]
pub struct TagId(i64);

impl View for NoteId {
    type V = int;

    closed spec fn view(&self) -> int {
        self.0 as int
    }
}

impl View for TagId {
    type V = int;

    closed spec fn view(&self) -> int {
        self.0 as int
    }
}

impl ID for NoteId {
    open spec fn spec_id(&self) -> int {
        self@
    }

    fn id(&self) -> i64 {
        self.0
    }
}

impl ID for TagId {
    open spec fn spec_id(&self) -> int {
        self@
    }

    fn id(&self) -> i64 {
        self.0
    }
}

impl From<i64> for NoteId {
    fn from(value: i64) -> (r: Self)
        ensures
            r@ == value as int,
    {
        NoteId(value)
    }
}

impl vstd::std_specs::convert::FromSpecImpl<i64> for NoteId {
    open spec fn obeys_from_spec() -> bool {
        true
    }

    closed spec fn from_spec(v: i64) -> Self {
        NoteId(v)
    }
}

impl From<i64> for TagId {
    fn from(value: i64) -> (r: Self)
        ensures
            r@ == value as int,
    {
        TagId(value)
    }
}

impl vstd::std_specs::convert::FromSpecImpl<i64> for TagId {
    open spec fn obeys_from_spec() -> bool {
        true
    }

    closed spec fn from_spec(v: i64) -> Self {
        TagId(v)
    }
}

/// The abstract value of a hydrated [`Tag`].
#[verifier::ext_equal]
pub ghost struct TagV {
    pub id: int,
    pub name: Seq<char>,
    pub description: Seq<char>,
}

/// The abstract value of a hydrated [`Note`].
#[verifier::ext_equal]
pub ghost struct NoteV {
    pub id: int,
    pub title: Seq<char>,
    pub content: Seq<char>,
    pub tags: Seq<TagV>,
}

/// Whether a hydrated tag reflects its row in the store.
pub open spec fn tag_matches(m: StoreModel, t: TagV) -> bool {
    &&& m.tags.dom().contains(t.id)
    &&& m.tags[t.id] == (TagRow { name: t.name, description: t.description })
}

/// Whether a sequence of hydrated tags is exactly the tag set the store
/// associates with one note: each tag identifier once, each tag reflecting
/// its row.
pub open spec fn tags_hydrated(m: StoreModel, note_id: int, tags: Seq<TagV>) -> bool {
    &&& tags.map_values(|t: TagV| t.id).to_set() == m.tags_of(note_id)
    &&& tags.map_values(|t: TagV| t.id).no_duplicates()
    &&& forall|i: int| 0 <= i < tags.len() ==> tag_matches(m, #[trigger] tags[i])
}

/// Whether a hydrated note reflects the store: its row holds its title and
/// content, and its cached tag set is exactly the one associated with it.
pub open spec fn note_matches(m: StoreModel, n: NoteV) -> bool {
    &&& m.notes.dom().contains(n.id)
    &&& m.notes[n.id] == (NoteRow { title: n.title, content: n.content })
    &&& tags_hydrated(m, n.id, n.tags)
}

/// A note hydrated from the store: its identifier, cached title, content and
/// tag set.
#[derive(Debug)]
pub struct Note {
    id: NoteId,
    title: String,
    content: String,
    tags: Vec<Tag>,
}

/// A tag hydrated from the store: its identifier, cached name and
/// description.
#[derive(Debug)]
pub struct Tag {
    id: TagId,
    name: String,
    description: String,
}

impl View for Tag {
    type V = TagV;

    closed spec fn view(&self) -> TagV {
        TagV { id: self.id@, name: self.name@, description: self.description@ }
    }
}

impl View for Note {
    type V = NoteV;

    closed spec fn view(&self) -> NoteV {
        NoteV {
            id: self.id@,
            title: self.title@,
            content: self.content@,
            tags: self.tags@.map_values(|t: Tag| t@),
        }
    }
}

impl PartialEq for Note {
    /// Equality is identity: the same row, whatever the cached text says.
    fn eq(&self, other: &Self) -> bool {
        self.id == other.id
    }
}

impl vstd::std_specs::cmp::PartialEqSpecImpl for Note {
    open spec fn obeys_eq_spec() -> bool {
        true
    }

    open spec fn eq_spec(&self, other: &Self) -> bool {
        self@.id == other@.id
    }
}

impl PartialEq for Tag {
    /// Equality is identity: the same row, whatever the cached text says.
    fn eq(&self, other: &Self) -> bool {
        self.id == other.id
    }
}

impl vstd::std_specs::cmp::PartialEqSpecImpl for Tag {
    open spec fn obeys_eq_spec() -> bool {
        true
    }

    open spec fn eq_spec(&self, other: &Self) -> bool {
        self@.id == other@.id
    }
}

impl Note {
    /// Creates one note row inside an atomic transaction and returns the
    /// hydrated note: the store-generated identifier, the given title and
    /// content, and the given tag set cached as handed in. An empty title is
    /// rejected before storage is touched; on any failure no row is left
    /// behind.
    pub fn new(db: &mut DB, title: &str, content: &str, tags: Vec<Tag>) -> (r: LaResult<Note>)
        requires
            old(db)@.inv(),
        ensures
            final(db)@.inv(),
            final(db).spec_path() == old(db).spec_path(),
            match r {
                Ok(n) => {
                    &&& title@.len() > 0
                    &&& !old(db)@.notes.dom().contains(n@.id)
                    &&& final(db)@ == old(db)@.with_note(n@.id, title@, content@)
                    &&& n@.title == title@
                    &&& n@.content == content@
                    &&& n@.tags == tags@.map_values(|t: Tag| t@)
                },
                Err(e) => {
                    &&& final(db)@ == old(db)@
                    &&& if title@.len() == 0 {
                        e is Validation
                    } else {
                        e is Sql
                    }
                },
            },
    {
        if title.is_empty() {
            return Err(Error::Validation);
        }
        match db.insert_note_row(title, content) {
            Ok(id) => {
                proof {
                    crate::model::lemma_with_note_wf(old(db)@, id as int, title@, content@);
                }
                Ok(
                    Note {
                        id: NoteId::from(id),
                        title: String::from_str(title),
                        content: String::from_str(content),
                        tags,
                    },
                )
            },
            Err(e) => Err(Error::Sql(e)),
        }
    }

    /// Loads the note with the given identifier: its tag set first, then its
    /// title and content. Fails with a storage error when no such row exists.
    pub fn from_id(db: &DB, id: NoteId) -> (r: LaResult<Note>)
        requires
            db@.inv(),
        ensures
            match r {
                Ok(n) => n@.id == id@ && note_matches(db@, n@),
                Err(e) => e is Sql,
            },
            !db@.notes.dom().contains(id@) ==> r is Err,
    {
        let tags = match Tag::from_note_id(db, id) {
            Ok(t) => t,
            Err(e) => {
                return Err(e);
            },
        };
        match db.query_note_row(id.id()) {
            Ok(tc) => Ok(Note { id, title: tc.0, content: tc.1, tags }),
            Err(e) => Err(Error::Sql(e)),
        }
    }

    /// Enumerates every note identifier, then loads each note fully. The
    /// order is whatever physical row order the store yields; the collection
    /// holds exactly one entry per note row.
    pub fn get_notes(db: &DB) -> (r: LaResult<Vec<Note>>)
        requires
            db@.inv(),
        ensures
            match r {
                Ok(v) => {
                    &&& v@.map_values(|n: Note| n@.id).to_set() == db@.notes.dom()
                    &&& v@.map_values(|n: Note| n@.id).no_duplicates()
                    &&& v@.len() == db@.notes.dom().len()
                    &&& forall|i: int| 0 <= i < v@.len() ==> note_matches(db@, #[trigger] v@[i]@)
                },
                Err(e) => e is Sql,
            },
    {
        let ids = match db.query_note_ids() {
            Ok(v) => v,
            Err(e) => {
                return Err(Error::Sql(e));
            },
        };
        let mut notes: Vec<Note> = Vec::new();
        let mut i: usize = 0;
        while i < ids.len()
            invariant
                db@.inv(),
                i <= ids.len(),
                ids@.map_values(|x: i64| x as int).to_set() == db@.notes.dom(),
                ids@.no_duplicates(),
                notes@.len() == i,
                forall|j: int| 0 <= j < i ==> (#[trigger] notes@[j])@.id == ids@[j] as int,
                forall|j: int| 0 <= j < i ==> note_matches(db@, #[trigger] notes@[j]@),
            decreases ids.len() - i,
        {
            let n = match Self::from_id(db, NoteId::from(ids[i])) {
                Ok(n) => n,
                Err(e) => {
                    return Err(e);
                },
            };
            notes.push(n);
            i += 1;
        }
        proof {
            lemma_ids_collected(
                notes@.map_values(|n: Note| n@.id),
                ids@.map_values(|x: i64| x as int),
                ids@,
            );
            assert(notes@.map_values(|n: Note| n@.id) =~= ids@.map_values(|x: i64| x as int));
            ids@.map_values(|x: i64| x as int).unique_seq_to_set();
        }
        Ok(notes)
    }

    /// Associates one existing tag with this note inside its own atomic
    /// transaction. Fails with a storage error when the tag does not exist
    /// (referential integrity) or when the association already exists
    /// (duplicate key); either way the note's cached tag set is left
    /// unchanged.
    pub fn add_tag(&mut self, db: &mut DB, tag: TagId) -> (r: LaResult<()>)
        requires
            old(db)@.inv(),
        ensures
            final(db)@.inv(),
            final(db).spec_path() == old(db).spec_path(),
            *final(self) == *old(self),
            match r {
                Ok(_) => {
                    &&& old(db)@.notes.dom().contains(old(self)@.id)
                    &&& old(db)@.tags.dom().contains(tag@)
                    &&& !old(db)@.links.contains((old(self)@.id, tag@))
                    &&& final(db)@ == old(db)@.with_link(old(self)@.id, tag@)
                },
                Err(e) => final(db)@ == old(db)@ && e is Sql,
            },
    {
        match db.insert_link_row(self.id.id(), tag.id()) {
            Ok(_) => {
                proof {
                    crate::model::lemma_with_link_wf(old(db)@, self.id@, tag@);
                }
                Ok(())
            },
            Err(e) => Err(Error::Sql(e)),
        }
    }

    /// The identifier of the underlying row; a pure read of cached state.
    pub fn id(&self) -> (r: NoteId)
        ensures
            r@ == self@.id,
    {
        self.id
    }

    /// The identifier as a raw key; a pure read of cached state.
    pub fn id_int(&self) -> (r: i64)
        ensures
            r as int == self@.id,
    {
        self.id().id()
    }

    /// A fresh copy of the cached tag set — not a live query.
    pub fn tags(&self) -> (r: Vec<Tag>)
        ensures
            r@.map_values(|t: Tag| t@) == self@.tags,
    {
        let mut out: Vec<Tag> = Vec::new();
        let mut i: usize = 0;
        while i < self.tags.len()
            invariant
                i <= self.tags.len(),
                out@.len() == i,
                forall|j: int| 0 <= j < i ==> out@[j] == self.tags@[j],
            decreases self.tags.len() - i,
        {
            let t = &self.tags[i];
            out.push(Tag { id: t.id, name: t.name.clone(), description: t.description.clone() });
            i += 1;
        }
        proof {
            assert(out@ =~= self.tags@);
        }
        out
    }

    /// The cached title; a pure read of cached state.
    pub fn title(&self) -> (r: &str)
        ensures
            r@ == self@.title,
    {
        self.title.as_str()
    }

    /// The cached content; a pure read of cached state.
    pub fn content(&self) -> (r: &str)
        ensures
            r@ == self@.content,
    {
        self.content.as_str()
    }
}

impl Tag {
    /// Creates one tag row inside an atomic transaction and returns the
    /// hydrated tag. An empty name is rejected before storage is touched; a
    /// name already in use fails with a storage error (the store's
    /// uniqueness constraint), and on any failure no row is left behind.
    pub fn new(db: &mut DB, name: &str, description: &str) -> (r: LaResult<Tag>)
        requires
            old(db)@.inv(),
        ensures
            final(db)@.inv(),
            final(db).spec_path() == old(db).spec_path(),
            match r {
                Ok(t) => {
                    &&& name@.len() > 0
                    &&& !old(db)@.tags.dom().contains(t@.id)
                    &&& !old(db)@.has_tag_name(name@)
                    &&& final(db)@ == old(db)@.with_tag(t@.id, name@, description@)
                    &&& t@.name == name@
                    &&& t@.description == description@
                },
                Err(e) => {
                    &&& final(db)@ == old(db)@
                    &&& if name@.len() == 0 {
                        e is Validation
                    } else {
                        e is Sql
                    }
                },
            },
    {
        if name.is_empty() {
            return Err(Error::Validation);
        }
        match db.insert_tag_row(name, description) {
            Ok(id) => {
                proof {
                    crate::model::lemma_with_tag_wf(old(db)@, id as int, name@, description@);
                }
                Ok(
                    Tag {
                        id: TagId::from(id),
                        name: String::from_str(name),
                        description: String::from_str(description),
                    },
                )
            },
            Err(e) => Err(Error::Sql(e)),
        }
    }

    /// Loads the tag with the given identifier. Fails with a storage error
    /// when no such row exists.
    pub fn from_id(db: &DB, id: TagId) -> (r: LaResult<Tag>)
        requires
            db@.inv(),
        ensures
            match r {
                Ok(t) => t@.id == id@ && tag_matches(db@, t@),
                Err(e) => e is Sql,
            },
            !db@.tags.dom().contains(id@) ==> r is Err,
    {
        match db.query_tag_row(id.id()) {
            Ok(nd) => Ok(Tag { id, name: nd.0, description: nd.1 }),
            Err(e) => Err(Error::Sql(e)),
        }
    }

    /// Loads every tag associated with a note: the associated identifiers
    /// first, then each tag fully. A note with no tags yields an empty
    /// collection, not an error.
    pub fn from_note_id(db: &DB, id: NoteId) -> (r: LaResult<Vec<Tag>>)
        requires
            db@.inv(),
        ensures
            match r {
                Ok(v) => tags_hydrated(db@, id@, v@.map_values(|t: Tag| t@)),
                Err(e) => e is Sql,
            },
    {
        let ids = match db.query_note_tag_ids(id.id()) {
            Ok(v) => v,
            Err(e) => {
                return Err(Error::Sql(e));
            },
        };
        let mut tags: Vec<Tag> = Vec::new();
        let mut i: usize = 0;
        while i < ids.len()
            invariant
                db@.inv(),
                i <= ids.len(),
                ids@.map_values(|x: i64| x as int).to_set() == db@.tags_of(id@),
                ids@.no_duplicates(),
                tags@.len() == i,
                forall|j: int| 0 <= j < i ==> (#[trigger] tags@[j])@.id == ids@[j] as int,
                forall|j: int| 0 <= j < i ==> tag_matches(db@, #[trigger] tags@[j]@),
            decreases ids.len() - i,
        {
            let t = match Self::from_id(db, TagId::from(ids[i])) {
                Ok(t) => t,
                Err(e) => {
                    return Err(e);
                },
            };
            tags.push(t);
            i += 1;
        }
        proof {
            let tv = tags@.map_values(|t: Tag| t@);
            lemma_ids_collected(tv.map_values(|t: TagV| t.id), ids@.map_values(|x: i64| x as int), ids@);
            assert(tv.map_values(|t: TagV| t.id) =~= ids@.map_values(|x: i64| x as int));
        }
        Ok(tags)
    }

    /// The identifier of the underlying row; a pure read of cached state.
    pub fn id(&self) -> (r: TagId)
        ensures
            r@ == self@.id,
    {
        self.id
    }

    /// The cached name; a pure read of cached state.
    pub fn name(&self) -> (r: &str)
        ensures
            r@ == self@.name,
    {
        self.name.as_str()
    }

    /// The cached description; a pure read of cached state.
    pub fn description(&self) -> (r: &str)
        ensures
            r@ == self@.description,
    {
        self.description.as_str()
    }
}

/// A sequence of hydrated identifiers collected one-for-one from a
/// duplicate-free sequence of raw keys keeps its elements distinct.
proof fn lemma_ids_collected(got: Seq<int>, want: Seq<int>, raw: Seq<i64>)
    requires
        got.len() == want.len(),
        want == raw.map_values(|x: i64| x as int),
        raw.no_duplicates(),
        forall|j: int| 0 <= j < got.len() ==> got[j] == want[j],
    ensures
        got =~= want,
        want.no_duplicates(),
{
    assert forall|p: int, q: int|
        0 <= p < want.len() && 0 <= q < want.len() && p != q implies want[p] != want[q] by {
        assert(raw[p] != raw[q]);
    }
}

} // verus!
