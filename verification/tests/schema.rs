use labrain::{Note, Table, DB, ID};

#[test]
fn table_names() {
    assert_eq!(Table::Notes.name(), "notes");
    assert_eq!(Table::Tags.name(), "tags");
    assert_eq!(Table::NoteTags.name(), "note_tags");
    assert!(Table::Tags.schema().contains("UNIQUE"));
    assert!(Table::NoteTags.schema().contains("ON DELETE CASCADE"));
}

#[test]
fn schema_creation_is_idempotent() {
    let mut db = DB::new_memory().unwrap();
    let note = Note::new(&mut db, "kept", "across re-creation", Vec::new()).unwrap();
    Table::Notes.create(&mut db).unwrap();
    Table::Notes.create_triggers(&mut db).unwrap();
    Table::Tags.create(&mut db).unwrap();
    Table::NoteTags.create(&mut db).unwrap();
    let loaded = Note::from_id(&db, note.id()).unwrap();
    assert_eq!(loaded.title(), "kept");
    assert_eq!(loaded.content(), "across re-creation");
}

#[test]
fn id_accessors_agree() {
    let mut db = DB::new_memory().unwrap();
    let note = Note::new(&mut db, "alpha", "body", Vec::new()).unwrap();
    assert_eq!(note.id_int(), note.id().id());
}
