use labrain::{Note, Tag, DB};

#[test]
fn create_and_retrieve_note() {
    let mut db = DB::new_memory().expect("Failed creating connection");
    let note = Note::new(&mut db, "Test", "This is a test note...", Vec::new())
        .expect("Failed to create the note");
    assert_eq!(note.title(), "Test");
    assert_eq!(note.content(), "This is a test note...");

    let note = Note::from_id(&db, note.id()).expect("Failed fetching the note");
    assert_eq!(note.title(), "Test");
    assert_eq!(note.content(), "This is a test note...");
}

#[test]
fn create_and_add_tag() {
    let mut db = DB::new_memory().expect("Failed creating connection");
    let mut note = Note::new(&mut db, "Test", "This is a test note...", Vec::new())
        .expect("Failed to create the note");
    let tag = Tag::new(&mut db, "TEST", "").expect("Failed to create the tag");
    note.add_tag(&mut db, tag.id())
        .expect("Failed adding the tag to the note");
    let note = Note::from_id(&db, note.id()).expect("Failed fetching the note");
    assert_eq!(note.tags()[0], tag);
}

#[test]
fn create_note() {
    let mut db = DB::new_memory().expect("Failed creating connection");
    let note = Note::new(&mut db, "Test", "This is a test note...", Vec::new())
        .expect("Failed to create the note");
    let loaded = Note::from_id(&db, note.id()).expect("Failed fetching the note");
    assert_eq!(note, loaded);
}

#[test]
fn get_note() {
    let mut db = DB::new_memory().expect("Failed creating connection");
    let note = Note::new(&mut db, "Test", "This is a test note...", Vec::new())
        .expect("Failed to create the note");
    assert_eq!(note.title(), "Test");
    assert_eq!(note.content(), "This is a test note...");
}
