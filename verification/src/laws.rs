//! The store's general laws, stated over the abstract model and proved once
//! and for all. Each law connects the contracts of the creating operations
//! (which say how the model grows) with those of the loading operations
//! (which say that a hydrated entity reflects the model).

use vstd::prelude::*;

use crate::model::{lemma_with_link_wf, lemma_with_note_wf, lemma_with_tag_wf, NoteRow, StoreModel,
    TagRow};
use crate::notes::{note_matches, Note, NoteV, Tag};
use vstd::std_specs::cmp::PartialEqSpec;

verus! {

/// Round-trip: any note hydrated from the store right after a note was
/// created with a fresh identifier — which is exactly what a successful
/// load of that identifier returns — carries the title and content it was
/// created with, and an empty tag set.
pub proof fn lemma_note_round_trip(
    m: StoreModel,
    id: int,
    title: Seq<char>,
    content: Seq<char>,
    n: NoteV,
)
    requires
        m.inv(),
        !m.notes.dom().contains(id),
        note_matches(m.with_note(id, title, content), n),
        n.id == id,
    ensures
        n.title == title,
        n.content == content,
        n.tags.len() == 0,
{
    let m2 = m.with_note(id, title, content);
    lemma_with_note_wf(m, id, title, content);
    assert(m2.notes[id] == (NoteRow { title, content }));
    assert(m.tags_of(id) =~= Set::<int>::empty());
    let mapped = n.tags.map_values(|t: crate::notes::TagV| t.id);
    assert(mapped.to_set() == Set::<int>::empty());
    if n.tags.len() > 0 {
        assert(mapped.contains(mapped[0]));
        assert(mapped.to_set().contains(mapped[0]));
    }
}

/// Tag round-trip: after a tag is created with a fresh identifier and a
/// fresh name and attached to an existing note that had no tags, any note
/// hydrated for that identifier carries exactly that one tag, with the name
/// and description it was created with.
pub proof fn lemma_tag_round_trip(
    m: StoreModel,
    note_id: int,
    tag_id: int,
    name: Seq<char>,
    description: Seq<char>,
    n: NoteV,
)
    requires
        m.inv(),
        m.notes.dom().contains(note_id),
        !m.tags.dom().contains(tag_id),
        !m.has_tag_name(name),
        m.tags_of(note_id) == Set::<int>::empty(),
        note_matches(m.with_tag(tag_id, name, description).with_link(note_id, tag_id), n),
        n.id == note_id,
    ensures
        n.tags.len() == 1,
        n.tags[0].id == tag_id,
        n.tags[0].name == name,
        n.tags[0].description == description,
{
    let m1 = m.with_tag(tag_id, name, description);
    let m2 = m1.with_link(note_id, tag_id);
    lemma_with_tag_wf(m, tag_id, name, description);
    lemma_with_link_wf(m1, note_id, tag_id);
    assert(m1.tags_of(note_id) == m.tags_of(note_id));
    assert(m2.tags_of(note_id) =~= Set::<int>::empty().insert(tag_id));
    let mapped = n.tags.map_values(|t: crate::notes::TagV| t.id);
    assert(mapped.to_set() == m2.tags_of(note_id));
    mapped.unique_seq_to_set();
    assert(Set::<int>::empty().insert(tag_id).len() == 1);
    assert(n.tags.len() == 1);
    assert(mapped.contains(mapped[0]));
    assert(mapped.to_set().contains(mapped[0]));
    assert(n.tags[0].id == tag_id);
    assert(m2.tags[tag_id] == (TagRow { name, description }));
}

/// Uniqueness: creating a tag takes its name. If a later creation succeeds
/// from the grown store — success shows its name was then untaken — that
/// name differs from the first; a second creation of the same name can only
/// fail, and a failed creation leaves every row, the first tag's included,
/// unchanged.
pub proof fn lemma_tag_name_unique(
    m: StoreModel,
    id: int,
    name: Seq<char>,
    description: Seq<char>,
    name2: Seq<char>,
)
    requires
        m.wf(),
        !m.tags.dom().contains(id),
        !m.has_tag_name(name),
        !m.with_tag(id, name, description).has_tag_name(name2),
    ensures
        name2 != name,
        m.with_tag(id, name, description).tags[id] == (TagRow { name, description }),
{
    lemma_with_tag_wf(m, id, name, description);
}

/// Referential integrity: in a well-formed store no association row
/// references a missing note or a missing tag — the "no orphaned
/// association" invariant the schema's foreign keys enforce.
pub proof fn lemma_no_orphan_link(m: StoreModel, note_id: int, tag_id: int)
    requires
        m.wf(),
        m.links.contains((note_id, tag_id)),
    ensures
        m.notes.dom().contains(note_id),
        m.tags.dom().contains(tag_id),
{
}

/// Identity equality: two notes are equal exactly when they hydrate the
/// same row, whatever their cached text says — so independent loads of one
/// identifier compare equal, and notes of different identifiers compare
/// unequal even with matching titles and contents. The executable `==`
/// returns `eq_spec`.
pub proof fn lemma_identity_equality(a: &Note, b: &Note)
    ensures
        a.eq_spec(b) <==> a@.id == b@.id,
        Note::obeys_eq_spec(),
{
}

/// Identity equality, for tags.
pub proof fn lemma_tag_identity_equality(a: &Tag, b: &Tag)
    ensures
        a.eq_spec(b) <==> a@.id == b@.id,
        Tag::obeys_eq_spec(),
{
}

/// Enumeration completeness: creating a note with a fresh identifier grows
/// the note relation by exactly that row, so an enumeration — whose
/// contract yields one entry per row — returns one entry more than before,
/// and every previous entry is still there.
pub proof fn lemma_enumeration_grows(m: StoreModel, id: int, title: Seq<char>, content: Seq<char>)
    requires
        m.inv(),
        !m.notes.dom().contains(id),
    ensures
        m.with_note(id, title, content).notes.dom() =~= m.notes.dom().insert(id),
        m.with_note(id, title, content).notes.dom().len() == m.notes.dom().len() + 1,
        forall|other: int|
            m.notes.dom().contains(other) ==> #[trigger] m.with_note(
                id,
                title,
                content,
            ).notes[other] == m.notes[other],
{
    assert(m.with_note(id, title, content).notes.dom() =~= m.notes.dom().insert(id));
}

/// A note hydrated from a store reflects exactly one row: hydrations of the
/// same identifier from the same store agree on title and content.
pub proof fn lemma_load_deterministic(m: StoreModel, a: NoteV, b: NoteV)
    requires
        note_matches(m, a),
        note_matches(m, b),
        a.id == b.id,
    ensures
        a.title == b.title,
        a.content == b.content,
{
    assert(m.notes[a.id] == (NoteRow { title: a.title, content: a.content }));
    assert(m.notes[b.id] == (NoteRow { title: b.title, content: b.content }));
}

} // verus!
