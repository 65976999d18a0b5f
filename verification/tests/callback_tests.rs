use tmpc::callback::{
    classify_payload, decide_insert, make_token, song_added_message, split_payload,
    CallbackAction, InsertDecision,
};

#[test]
fn tag_is_the_last_character() {
    let (prefix, tag) = split_payload("abci").unwrap();
    assert_eq!(prefix, "abc");
    assert_eq!(tag, 'i');
    let (prefix, tag) = split_payload("n").unwrap();
    assert_eq!(prefix, "");
    assert_eq!(tag, 'n');
}

#[test]
fn splitting_the_empty_payload_gives_nothing() {
    assert!(split_payload("").is_none());
    assert!(classify_payload("").is_none());
}

#[test]
fn token_round_trip() {
    let token = make_token("0123456789abcdef0123456789abcdef");
    assert_eq!(token, "0123456789abcdef0123456789abcdefi");
    match classify_payload(&token) {
        Some(CallbackAction::InsertNext { id }) => {
            assert_eq!(id, "0123456789abcdef0123456789abcdef");
        }
        _ => panic!("expected an insert action"),
    }
}

#[test]
fn classifies_every_tag() {
    assert!(matches!(
        classify_payload("xyzi"),
        Some(CallbackAction::InsertNext { .. })
    ));
    assert!(matches!(
        classify_payload("xyzn"),
        Some(CallbackAction::Acknowledge)
    ));
    match classify_payload("xyzq") {
        Some(CallbackAction::Unknown { tag }) => assert_eq!(tag, 'q'),
        _ => panic!("expected an unknown action"),
    }
}

#[test]
fn inserts_right_after_the_current_song() {
    assert_eq!(
        decide_insert(true, true, Some(7)),
        InsertDecision::Insert { position: 8 }
    );
}

#[test]
fn every_missing_piece_is_stale() {
    assert_eq!(decide_insert(false, true, Some(7)), InsertDecision::Stale);
    assert_eq!(decide_insert(true, false, Some(7)), InsertDecision::Stale);
    assert_eq!(decide_insert(true, true, None), InsertDecision::Stale);
    assert_eq!(decide_insert(true, true, Some(u32::MAX)), InsertDecision::Stale);
}

#[test]
fn edited_text_after_insertion() {
    assert_eq!(song_added_message(), "\u{2705} Song added!");
}
