use solus_rust_lib::data::{
    add_content, create_session, get_content, get_or_create_session, setup, ContentRecord,
    ConversationStore, Session,
};
use solus_rust_lib::error::StorageError;
use solus_rust_lib::gemini::api::new_content_pb;

fn said(role: &str, text: &str) -> solus_rust_lib::proto::message::ContentPb {
    new_content_pb(role.to_string(), text.to_string())
}

#[test]
fn a_new_store_is_empty() {
    let store = setup();
    assert_eq!(store.session_count(), 0);
    assert_eq!(store.record_count(), 0);
    assert!(!store.has_session("anything"));
    assert!(get_content(&store, "anything").is_empty());
}

#[test]
fn a_created_session_has_a_drawn_identifier() {
    let mut store = setup();
    let id = create_session(&mut store).expect("a session");
    assert_eq!(id.len(), 36);
    let bytes = id.as_bytes();
    assert_eq!(bytes[8], b'-');
    assert_eq!(bytes[13], b'-');
    assert_eq!(bytes[18], b'-');
    assert_eq!(bytes[23], b'-');
    assert_eq!(bytes[14], b'4');
    assert!(store.has_session(&id));
    assert_eq!(store.session_count(), 1);
    assert_eq!(store.session_at(0), &Session { id, key: None });
}

#[test]
fn two_created_sessions_differ() {
    let mut store = setup();
    let one = create_session(&mut store).expect("a session");
    let other = create_session(&mut store).expect("another session");
    assert_ne!(one, other);
    assert_eq!(store.session_count(), 2);
}

#[test]
fn history_of_a_session_without_turns_is_empty() {
    let mut store = setup();
    let id = create_session(&mut store).expect("a session");
    assert_eq!(get_content(&store, &id), vec![]);
    assert_eq!(store.load_history(&id), vec![]);
}

#[test]
fn history_is_read_in_the_order_of_writing() {
    let mut store = setup();
    let id = create_session(&mut store).expect("a session");
    let turns = vec![
        said("user", "one"),
        said("model", "two"),
        said("user", "three"),
        said("model", "four"),
    ];
    for turn in &turns {
        assert_eq!(add_content(&mut store, &id, turn), Ok(()));
    }
    assert_eq!(get_content(&store, &id), turns);
}

#[test]
fn histories_of_two_sessions_do_not_mix() {
    let mut store = ConversationStore::new();
    assert_eq!(store.insert_session("a".to_string(), None), Ok(()));
    assert_eq!(store.insert_session("b".to_string(), None), Ok(()));
    assert_eq!(store.insert_content("1".to_string(), "a", said("user", "a1")), Ok(()));
    assert_eq!(store.insert_content("2".to_string(), "b", said("user", "b1")), Ok(()));
    assert_eq!(store.insert_content("3".to_string(), "a", said("model", "a2")), Ok(()));
    assert_eq!(store.insert_content("4".to_string(), "b", said("model", "b2")), Ok(()));
    assert_eq!(get_content(&store, "a"), vec![said("user", "a1"), said("model", "a2")]);
    assert_eq!(get_content(&store, "b"), vec![said("user", "b1"), said("model", "b2")]);
    assert_eq!(
        store.load_history("a"),
        vec![
            ContentRecord {
                id: "1".to_string(),
                session_id: "a".to_string(),
                content: said("user", "a1"),
            },
            ContentRecord {
                id: "3".to_string(),
                session_id: "a".to_string(),
                content: said("model", "a2"),
            },
        ]
    );
    assert_eq!(store.record_count(), 4);
    assert_eq!(store.record_at(3).id, "4");
}

#[test]
fn a_write_to_an_unknown_session_is_refused() {
    let mut store = setup();
    assert_eq!(
        add_content(&mut store, "nowhere", &said("user", "hi")),
        Err(StorageError::UnknownSession)
    );
    assert_eq!(store.record_count(), 0);
    assert_eq!(
        store.insert_content("1".to_string(), "nowhere", said("user", "hi")),
        Err(StorageError::UnknownSession)
    );
}

#[test]
fn a_write_under_a_used_identifier_is_refused() {
    let mut store = setup();
    assert_eq!(store.insert_session("a".to_string(), None), Ok(()));
    assert_eq!(store.insert_content("1".to_string(), "a", said("user", "first")), Ok(()));
    assert_eq!(
        store.insert_content("1".to_string(), "a", said("user", "second")),
        Err(StorageError::DuplicateId)
    );
    assert_eq!(get_content(&store, "a"), vec![said("user", "first")]);
}

#[test]
fn a_session_under_a_used_identifier_is_refused() {
    let mut store = setup();
    assert_eq!(store.insert_session("a".to_string(), None), Ok(()));
    assert_eq!(store.insert_session("a".to_string(), None), Err(StorageError::DuplicateId));
    assert_eq!(
        store.insert_session("a".to_string(), Some("key".to_string())),
        Err(StorageError::DuplicateId)
    );
    assert_eq!(store.session_count(), 1);
}

#[test]
fn a_session_under_a_bound_key_is_refused() {
    let mut store = setup();
    assert_eq!(store.insert_session("a".to_string(), Some("key".to_string())), Ok(()));
    assert_eq!(
        store.insert_session("b".to_string(), Some("key".to_string())),
        Err(StorageError::DuplicateId)
    );
    assert_eq!(store.session_of("key"), Some("a".to_string()));
    assert_eq!(store.session_of("other"), None);
}

#[test]
fn the_same_key_gives_the_same_session() {
    let mut store = setup();
    let first = get_or_create_session(&mut store, "channel-1".to_string()).expect("a session");
    let second = get_or_create_session(&mut store, "channel-1".to_string()).expect("a session");
    assert_eq!(first, second);
    assert_eq!(store.session_count(), 1);
    assert_eq!(store.session_of("channel-1"), Some(first));
}

#[test]
fn different_keys_give_different_sessions() {
    let mut store = setup();
    let one = get_or_create_session(&mut store, "channel-1".to_string()).expect("a session");
    let other = get_or_create_session(&mut store, "channel-2".to_string()).expect("a session");
    assert_ne!(one, other);
    assert_eq!(store.session_count(), 2);
    assert_eq!(get_or_create_session(&mut store, "channel-1".to_string()), Ok(one));
    assert_eq!(get_or_create_session(&mut store, "channel-2".to_string()), Ok(other));
}

#[test]
fn get_or_create_with_an_identifier_on_offer() {
    let mut store = setup();
    assert_eq!(
        store.get_or_create_session_with("k".to_string(), "s1".to_string()),
        Ok("s1".to_string())
    );
    assert_eq!(
        store.get_or_create_session_with("k".to_string(), "s2".to_string()),
        Ok("s1".to_string())
    );
    assert_eq!(store.session_count(), 1);
    assert_eq!(
        store.get_or_create_session_with("other".to_string(), "s1".to_string()),
        Err(StorageError::DuplicateId)
    );
    assert_eq!(store.session_count(), 1);
    assert_eq!(store.session_of("other"), None);
    assert_eq!(
        store.get_or_create_session_with("other".to_string(), "s2".to_string()),
        Ok("s2".to_string())
    );
    assert_eq!(
        store.session_at(1),
        &Session { id: "s2".to_string(), key: Some("other".to_string()) }
    );
}

#[test]
fn a_session_made_for_a_key_takes_turns() {
    let mut store = setup();
    let id = get_or_create_session(&mut store, "channel-1".to_string()).expect("a session");
    assert_eq!(add_content(&mut store, &id, &said("user", "hi")), Ok(()));
    assert_eq!(get_content(&store, &id), vec![said("user", "hi")]);
    let record = &store.load_history(&id)[0];
    assert_eq!(record.session_id, id);
    assert_eq!(record.id.len(), 36);
}

#[test]
fn storage_errors_describe_themselves() {
    assert_eq!(StorageError::UnknownSession.describe(), "The session does not exist.");
    assert_eq!(StorageError::DuplicateId.describe(), "The identifier is already in use.");
}
