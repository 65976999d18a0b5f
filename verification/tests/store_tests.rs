use tmpc::callback::split_payload;
use tmpc::search::{build_search_reply, no_results_message, search_header};
use tmpc::song::Song;
use tmpc::store::SelectionStore;

fn song(title: &str, artist: &str, file: &str) -> Song {
    Song {
        file: file.to_string(),
        title: Some(title.to_string()),
        artist: Some(artist.to_string()),
        tags: Vec::new(),
        place: None,
    }
}

#[test]
fn put_then_get_resolves() {
    let mut store = SelectionStore::new();
    store.put("id-a".to_string(), "/x.flac".to_string());
    assert_eq!(store.get("id-a"), Some("/x.flac".to_string()));
    assert_eq!(store.get("id-b"), None);
}

#[test]
fn consuming_one_selection_purges_its_whole_batch() {
    let mut store = SelectionStore::new();
    store.begin_batch();
    store.put("id-a".to_string(), "/x.flac".to_string());
    store.put("id-b".to_string(), "/y.flac".to_string());
    assert_eq!(store.get("id-a"), Some("/x.flac".to_string()));
    assert_eq!(store.get("id-b"), Some("/y.flac".to_string()));
    store.drop_generation("id-a");
    assert_eq!(store.get("id-a"), None);
    assert_eq!(store.get("id-b"), None);
}

#[test]
fn other_batches_survive_a_purge() {
    let mut store = SelectionStore::new();
    store.begin_batch();
    store.put("old".to_string(), "/old.flac".to_string());
    store.begin_batch();
    store.put("new".to_string(), "/new.flac".to_string());
    store.drop_generation("new");
    assert_eq!(store.get("new"), None);
    assert_eq!(store.get("old"), Some("/old.flac".to_string()));
}

#[test]
fn purging_an_unknown_id_changes_nothing() {
    let mut store = SelectionStore::new();
    store.put("id-a".to_string(), "/x.flac".to_string());
    store.drop_generation("missing");
    assert_eq!(store.get("id-a"), Some("/x.flac".to_string()));
}

#[test]
fn search_reply_files_one_selection_per_hit() {
    let mut store = SelectionStore::new();
    store.begin_batch();
    let songs = vec![song("A", "Anna", "/x.flac"), song("B", "Ben", "/y.flac")];
    let buttons = build_search_reply(&mut store, &songs);
    assert_eq!(buttons.len(), 2);
    assert_eq!(buttons[0].0, "Anna - A");
    assert_eq!(buttons[1].0, "Ben - B");
    for (button, file) in buttons.iter().zip(["/x.flac", "/y.flac"]) {
        let (id, tag) = split_payload(&button.1).unwrap();
        assert_eq!(tag, 'i');
        assert_eq!(id.len(), 32);
        assert!(id.chars().all(|c| c.is_ascii_hexdigit() && !c.is_ascii_uppercase()));
        assert!(button.1.len() <= 64);
        assert_eq!(store.get(&id), Some(file.to_string()));
    }
}

#[test]
fn pressing_one_search_button_invalidates_the_other() {
    let mut store = SelectionStore::new();
    store.begin_batch();
    let songs = vec![song("A", "Anna", "/x.flac"), song("B", "Ben", "/y.flac")];
    let buttons = build_search_reply(&mut store, &songs);
    let (first_id, _) = split_payload(&buttons[0].1).unwrap();
    let (second_id, _) = split_payload(&buttons[1].1).unwrap();
    store.drop_generation(&first_id);
    assert_eq!(store.get(&first_id), None);
    assert_eq!(store.get(&second_id), None);
}

#[test]
fn search_reply_texts() {
    assert_eq!(
        search_header(2),
        "2 resluts found. Tap on a button to add to queue:"
    );
    assert_eq!(no_results_message(), "No results found!");
}
