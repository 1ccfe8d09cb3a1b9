//! The mathematical model of the backing store: the rows of the three
//! relations and the integrity rules the store enforces on them.

use vstd::prelude::*;

verus! {

/// One row of the notes relation.
#[verifier::ext_equal]
pub ghost struct NoteRow {
    pub title: Seq<char>,
    pub content: Seq<char>,
}

/// One row of the tags relation.
#[verifier::ext_equal]
pub ghost struct TagRow {
    pub name: Seq<char>,
    pub description: Seq<char>,
}

/// The abstract state of one store: note rows and tag rows keyed by their
/// surrogate keys, the note-tag association pairs, whether
/// referential-integrity enforcement has been switched on for the
/// connection, and which of the three relations' declarations exist.
#[verifier::ext_equal]
pub ghost struct StoreModel {
    pub fk_on: bool,
    pub schema: Set<Seq<char>>,
    pub notes: Map<int, NoteRow>,
    pub tags: Map<int, TagRow>,
    pub links: Set<(int, int)>,
}

impl StoreModel {
    /// The state of a freshly created store, before referential-integrity
    /// enforcement has been enabled.
    pub open spec fn empty() -> StoreModel {
        StoreModel {
            fk_on: false,
            schema: Set::empty(),
            notes: Map::empty(),
            tags: Map::empty(),
            links: Set::empty(),
        }
    }

    /// Whether all three relations of the physical schema exist.
    pub open spec fn schema_ready(self) -> bool {
        &&& self.schema.contains("notes"@)
        &&& self.schema.contains("tags"@)
        &&& self.schema.contains("note_tags"@)
    }

    /// The integrity rules that hold of every store the schema governs:
    /// finitely many rows, no association row referencing a missing note or
    /// tag, and tag names unique across the whole store.
    pub open spec fn wf(self) -> bool {
        &&& self.notes.dom().finite()
        &&& self.tags.dom().finite()
        &&& self.links.finite()
        &&& forall|l: (int, int)|
            self.links.contains(l) ==> self.notes.dom().contains(l.0) && self.tags.dom().contains(
                l.1,
            )
        &&& forall|i: int, j: int|
            self.tags.dom().contains(i) && self.tags.dom().contains(j) && self.tags[i].name
                == self.tags[j].name ==> i == j
    }

    /// What every store handle this library hands out satisfies: the
    /// integrity rules, with referential-integrity enforcement on and all
    /// three relations in existence.
    pub open spec fn inv(self) -> bool {
        self.wf() && self.fk_on && self.schema_ready()
    }

    /// Whether some tag row carries the given name.
    pub open spec fn has_tag_name(self, name: Seq<char>) -> bool {
        exists|i: int| self.tags.dom().contains(i) && self.tags[i].name == name
    }

    /// The set of tag identifiers associated with one note.
    pub open spec fn tags_of(self, note_id: int) -> Set<int> {
        Set::new(|t: int| self.links.contains((note_id, t)))
    }

    /// The store after referential-integrity enforcement is switched on.
    pub open spec fn with_fk(self) -> StoreModel {
        StoreModel { fk_on: true, ..self }
    }

    /// The store after the relation of the given name is brought into
    /// existence; rows are untouched, and a relation that already existed
    /// leaves the store as it was.
    pub open spec fn with_table(self, name: Seq<char>) -> StoreModel {
        StoreModel { schema: self.schema.insert(name), ..self }
    }

    /// The store after one note row is inserted.
    pub open spec fn with_note(self, id: int, title: Seq<char>, content: Seq<char>) -> StoreModel {
        StoreModel { notes: self.notes.insert(id, NoteRow { title, content }), ..self }
    }

    /// The store after one tag row is inserted.
    pub open spec fn with_tag(self, id: int, name: Seq<char>, description: Seq<char>) -> StoreModel {
        StoreModel { tags: self.tags.insert(id, TagRow { name, description }), ..self }
    }

    /// The store after one note-tag association row is inserted.
    pub open spec fn with_link(self, note_id: int, tag_id: int) -> StoreModel {
        StoreModel { links: self.links.insert((note_id, tag_id)), ..self }
    }
}

/// Inserting a fresh note row preserves the integrity rules and leaves every
/// association set as it was.
pub proof fn lemma_with_note_wf(m: StoreModel, id: int, title: Seq<char>, content: Seq<char>)
    requires
        m.wf(),
        !m.notes.dom().contains(id),
    ensures
        m.with_note(id, title, content).wf(),
        forall|n: int| #[trigger] m.with_note(id, title, content).tags_of(n) == m.tags_of(n),
{
    let m2 = m.with_note(id, title, content);
    assert forall|n: int| #[trigger] m2.tags_of(n) == m.tags_of(n) by {
        assert(m2.tags_of(n) =~= m.tags_of(n));
    }
}

/// Inserting a tag row whose name is not yet taken preserves the integrity
/// rules, and afterwards the store does carry that name.
pub proof fn lemma_with_tag_wf(m: StoreModel, id: int, name: Seq<char>, description: Seq<char>)
    requires
        m.wf(),
        !m.tags.dom().contains(id),
        !m.has_tag_name(name),
    ensures
        m.with_tag(id, name, description).wf(),
        m.with_tag(id, name, description).has_tag_name(name),
        forall|n: int| #[trigger] m.with_tag(id, name, description).tags_of(n) == m.tags_of(n),
{
    let m2 = m.with_tag(id, name, description);
    assert(m2.tags.dom().contains(id) && m2.tags[id].name == name);
    assert forall|n: int| #[trigger] m2.tags_of(n) == m.tags_of(n) by {
        assert(m2.tags_of(n) =~= m.tags_of(n));
    }
}

/// Inserting an association between an existing note and an existing tag
/// preserves the integrity rules; the tagged note gains exactly that tag and
/// every other note keeps its association set.
pub proof fn lemma_with_link_wf(m: StoreModel, note_id: int, tag_id: int)
    requires
        m.wf(),
        m.notes.dom().contains(note_id),
        m.tags.dom().contains(tag_id),
    ensures
        m.with_link(note_id, tag_id).wf(),
        m.with_link(note_id, tag_id).tags_of(note_id) == m.tags_of(note_id).insert(tag_id),
        forall|n: int|
            n != note_id ==> #[trigger] m.with_link(note_id, tag_id).tags_of(n) == m.tags_of(n),
{
    let m2 = m.with_link(note_id, tag_id);
    assert(m2.tags_of(note_id) =~= m.tags_of(note_id).insert(tag_id));
    assert forall|n: int| n != note_id implies #[trigger] m2.tags_of(n) == m.tags_of(n) by {
        assert(m2.tags_of(n) =~= m.tags_of(n));
    }
}

} // verus!
