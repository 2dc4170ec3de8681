use artificial_app::transcript::{Role, TranscriptStore, Turn};

fn turn(role: Role, text: &str) -> Turn {
    Turn { role, text: text.to_string() }
}

#[test]
fn append_snapshot_order() {
    let mut store = TranscriptStore::new();
    store.append(turn(Role::User, "first"));
    store.append(turn(Role::Model, "second"));
    store.append(turn(Role::User, "third"));
    let snap = store.snapshot();
    assert_eq!(snap.len(), 3);
    assert!(snap[0].role == Role::User);
    assert_eq!(snap[0].text, "first");
    assert!(snap[1].role == Role::Model);
    assert_eq!(snap[1].text, "second");
    assert!(snap[2].role == Role::User);
    assert_eq!(snap[2].text, "third");
}

#[test]
fn reset_then_snapshot_empty() {
    let mut store = TranscriptStore::new();
    store.append(turn(Role::User, "a"));
    store.append(turn(Role::Model, "b"));
    store.reset();
    let snap = store.snapshot();
    assert_eq!(snap.len(), 0);
    assert_eq!(store.len(), 0);
}

#[test]
fn reset_of_empty_store_is_empty() {
    let mut store = TranscriptStore::new();
    store.reset();
    assert_eq!(store.snapshot().len(), 0);
}

#[test]
fn snapshot_is_an_independent_copy() {
    let mut store = TranscriptStore::new();
    store.append(turn(Role::User, "a"));
    let snap = store.snapshot();
    store.append(turn(Role::Model, "b"));
    assert_eq!(snap.len(), 1);
    assert_eq!(store.len(), 2);
    assert_eq!(snap[0].text, "a");
}
