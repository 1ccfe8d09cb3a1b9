use labrain::{Error, Note, NoteId, Tag, TagId, DB, ID};

/// Round-trip: loading a freshly created note yields the same title and
/// content and an empty tag set.
#[test]
fn round_trip() {
    let mut db = DB::new_memory().unwrap();
    let created = Note::new(&mut db, "alpha", "first body", Vec::new()).unwrap();
    let loaded = Note::from_id(&db, created.id()).unwrap();
    assert_eq!(loaded.title(), "alpha");
    assert_eq!(loaded.content(), "first body");
    assert!(loaded.tags().is_empty());
}

/// Tag round-trip: a tag attached to a fresh note comes back as exactly one
/// tag, equal by identifier to the created one.
#[test]
fn tag_round_trip() {
    let mut db = DB::new_memory().unwrap();
    let mut note = Note::new(&mut db, "alpha", "body", Vec::new()).unwrap();
    let tag = Tag::new(&mut db, "TEST", "").unwrap();
    note.add_tag(&mut db, tag.id()).unwrap();
    let loaded = Note::from_id(&db, note.id()).unwrap();
    let tags = loaded.tags();
    assert_eq!(tags.len(), 1);
    assert_eq!(tags[0], tag);
    assert_eq!(tags[0].id(), tag.id());
    assert_eq!(tags[0].name(), "TEST");
    assert_eq!(tags[0].description(), "");
}

/// Uniqueness: a second tag with the same name fails with a storage error,
/// and the first stays retrievable unchanged.
#[test]
fn duplicate_tag_name() {
    let mut db = DB::new_memory().unwrap();
    let first = Tag::new(&mut db, "shared", "kept").unwrap();
    let second = Tag::new(&mut db, "shared", "other");
    assert!(matches!(second, Err(Error::Sql(_))));
    let reloaded = Tag::from_id(&db, first.id()).unwrap();
    assert_eq!(reloaded, first);
    assert_eq!(reloaded.name(), "shared");
    assert_eq!(reloaded.description(), "kept");
}

/// Referential integrity: attaching a missing tag identifier fails with a
/// storage error and leaves the note's tag set unchanged.
#[test]
fn missing_tag_rejected() {
    let mut db = DB::new_memory().unwrap();
    let mut note = Note::new(&mut db, "alpha", "body", Vec::new()).unwrap();
    let r = note.add_tag(&mut db, TagId::from(999));
    assert!(matches!(r, Err(Error::Sql(_))));
    let loaded = Note::from_id(&db, note.id()).unwrap();
    assert!(loaded.tags().is_empty());
}

/// Referential integrity holds for duplicates too: attaching the same tag a
/// second time fails (duplicate primary key) and the set stays at one.
#[test]
fn duplicate_link_rejected() {
    let mut db = DB::new_memory().unwrap();
    let mut note = Note::new(&mut db, "alpha", "body", Vec::new()).unwrap();
    let tag = Tag::new(&mut db, "once", "").unwrap();
    note.add_tag(&mut db, tag.id()).unwrap();
    let r = note.add_tag(&mut db, tag.id());
    assert!(matches!(r, Err(Error::Sql(_))));
    let loaded = Note::from_id(&db, note.id()).unwrap();
    assert_eq!(loaded.tags().len(), 1);
}

/// Validation: an empty note title and an empty tag name are rejected before
/// any row is written; an empty content is allowed.
#[test]
fn empty_input_rejected() {
    let mut db = DB::new_memory().unwrap();
    let r = Note::new(&mut db, "", "content", Vec::new());
    assert!(matches!(r, Err(Error::Validation)));
    assert!(Note::get_notes(&db).unwrap().is_empty());

    let r = Tag::new(&mut db, "", "description");
    assert!(matches!(r, Err(Error::Validation)));

    let with_empty_content = Note::new(&mut db, "title", "", Vec::new());
    assert!(with_empty_content.is_ok());
}

/// Identity equality: notes loaded independently for one identifier are
/// equal; notes of different identifiers are unequal even with matching
/// title and content.
#[test]
fn identity_equality() {
    let mut db = DB::new_memory().unwrap();
    let a = Note::new(&mut db, "same", "text", Vec::new()).unwrap();
    let b = Note::new(&mut db, "same", "text", Vec::new()).unwrap();
    let a1 = Note::from_id(&db, a.id()).unwrap();
    let a2 = Note::from_id(&db, a.id()).unwrap();
    assert_eq!(a1, a2);
    assert_eq!(a1, a);
    assert_ne!(a, b);
    let b1 = Note::from_id(&db, b.id()).unwrap();
    assert_ne!(a1, b1);
}

/// Enumeration completeness: after creating N notes with distinct titles,
/// the listing holds exactly N entries, each loadable by its identifier and
/// matching its original title and content.
#[test]
fn enumeration_complete() {
    let mut db = DB::new_memory().unwrap();
    let titles = ["one", "two", "three"];
    let bodies = ["b1", "b2", "b3"];
    let mut created: Vec<Note> = Vec::new();
    for i in 0..titles.len() {
        created.push(Note::new(&mut db, titles[i], bodies[i], Vec::new()).unwrap());
    }
    let listed = Note::get_notes(&db).unwrap();
    assert_eq!(listed.len(), 3);
    for n in &created {
        assert!(listed.contains(n));
        let loaded = Note::from_id(&db, n.id()).unwrap();
        assert_eq!(loaded.title(), n.title());
        assert_eq!(loaded.content(), n.content());
    }
}

/// A note's cached tag set reflects load time: an attachment made through
/// one handle does not refresh another, already-hydrated handle.
#[test]
fn cached_tags_are_stale() {
    let mut db = DB::new_memory().unwrap();
    let mut note = Note::new(&mut db, "alpha", "body", Vec::new()).unwrap();
    let tag = Tag::new(&mut db, "later", "").unwrap();
    note.add_tag(&mut db, tag.id()).unwrap();
    assert!(note.tags().is_empty());
    assert_eq!(Note::from_id(&db, note.id()).unwrap().tags().len(), 1);
}

/// Identifiers convert from and back to their raw key.
#[test]
fn id_round_trip() {
    assert_eq!(NoteId::from(5).id(), 5);
    assert_eq!(TagId::from(-3).id(), -3);
    assert!(NoteId::from(1) < NoteId::from(2));
    assert_eq!(NoteId::from(7), NoteId::from(7));
}

/// An in-memory store has no backing-file location.
#[test]
fn memory_store_has_no_path() {
    let db = DB::new_memory().unwrap();
    assert!(db.path().is_none());
}

/// Loading a note or a tag that was never created is a storage error.
#[test]
fn load_missing_is_error() {
    let db = DB::new_memory().unwrap();
    assert!(matches!(Note::from_id(&db, NoteId::from(1)), Err(Error::Sql(_))));
    assert!(matches!(Tag::from_id(&db, TagId::from(1)), Err(Error::Sql(_))));
}

/// A note without associations yields an empty tag collection, not an error.
#[test]
fn no_tags_is_empty() {
    let mut db = DB::new_memory().unwrap();
    let note = Note::new(&mut db, "alpha", "body", Vec::new()).unwrap();
    let tags = Tag::from_note_id(&db, note.id()).unwrap();
    assert!(tags.is_empty());
}

/// Error kinds carry a short reportable message.
#[test]
fn error_messages() {
    assert_eq!(Error::Dir.message(), "failed fetching an OS directory");
    assert_eq!(Error::Validation.message(), "empty input was rejected");
}
