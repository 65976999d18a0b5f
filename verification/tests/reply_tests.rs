use tmpc::replies::{
    add_all_reply, current_reply, human_duration_exec, no_song_message, queue_reply, stats_reply,
};
use tmpc::song::{is_album_key_exec, or_unknown_str, Song};
use tmpc::text::u64_to_dec;

fn song(title: Option<&str>, artist: Option<&str>) -> Song {
    Song {
        file: "/f.flac".to_string(),
        title: title.map(|t| t.to_string()),
        artist: artist.map(|a| a.to_string()),
        tags: Vec::new(),
        place: None,
    }
}

#[test]
fn current_reply_formats_all_lines() {
    let mut s = song(Some("Title"), Some("Artist"));
    s.tags = vec![("Album".to_string(), "First".to_string())];
    assert_eq!(
        current_reply(&s),
        "\u{1f3b5}Title\n\u{1f464}Artist\n\u{1f4bf}First"
    );
}

#[test]
fn current_reply_falls_back_to_unknown() {
    let s = song(None, None);
    assert_eq!(current_reply(&s), "\u{1f3b5}Unknown\n\u{1f464}Unknown\n\u{1f4bf}");
    assert_eq!(no_song_message(), "No song playing right now");
}

#[test]
fn album_concatenates_case_insensitive_album_tags() {
    let mut s = song(Some("T"), Some("A"));
    s.tags = vec![
        ("Album".to_string(), "One".to_string()),
        ("Genre".to_string(), "Metal".to_string()),
        ("ALBUM".to_string(), "Two".to_string()),
        ("album".to_string(), "Three".to_string()),
        ("albums".to_string(), "Nope".to_string()),
    ];
    assert_eq!(
        current_reply(&s),
        "\u{1f3b5}T\n\u{1f464}A\n\u{1f4bf}OneTwoThree"
    );
}

#[test]
fn album_key_compares_case_insensitively() {
    assert!(is_album_key_exec("album"));
    assert!(is_album_key_exec("Album"));
    assert!(is_album_key_exec("ALBUM"));
    assert!(is_album_key_exec("AlBuM"));
    assert!(!is_album_key_exec("albums"));
    assert!(!is_album_key_exec("albu"));
    assert!(!is_album_key_exec("genre"));
}

#[test]
fn queue_reply_lists_the_remainder() {
    let songs = vec![
        song(Some("X"), Some("Xa")),
        song(Some("Y"), Some("Ya")),
        song(Some("Z"), Some("Za")),
    ];
    let text = queue_reply(0, &songs);
    assert_eq!(
        text,
        "\u{1f39b}Queue length: 3\n\n\u{1f3b5} X - Xa\n\n\u{1f3b5} Y - Ya\n\n\u{1f3b5} Z - Za"
    );
}

#[test]
fn queue_reply_slices_from_the_current_position() {
    let songs = vec![
        song(Some("X"), Some("Xa")),
        song(Some("Y"), Some("Ya")),
        song(Some("Z"), Some("Za")),
    ];
    let text = queue_reply(2, &songs);
    assert!(text.starts_with("\u{1f39b}Queue length: 1\n\n"));
    assert!(text.contains("Z - Za"));
    assert!(!text.contains("X - Xa"));
}

#[test]
fn queue_reply_never_lists_more_than_twenty() {
    let mut songs = Vec::new();
    for i in 0..25 {
        songs.push(song(Some(&format!("T{i}")), Some("A")));
    }
    let text = queue_reply(0, &songs);
    assert!(text.starts_with("\u{1f39b}Queue length: 25\n\n"));
    assert_eq!(text.matches('\u{1f3b5}').count(), 20);
    assert!(text.contains("T19"));
    assert!(!text.contains("T20 "));
}

#[test]
fn queue_reply_for_an_empty_remainder() {
    let songs = vec![song(Some("X"), Some("Xa"))];
    assert_eq!(
        queue_reply(1, &songs),
        "\u{1f39b}Queue length: 0\n\nNo song in queue"
    );
    assert_eq!(
        queue_reply(0, &Vec::new()),
        "\u{1f39b}Queue length: 0\n\nNo song in queue"
    );
}

#[test]
fn stats_reply_humanizes_the_playtime() {
    assert_eq!(
        stats_reply(2, 3, 4, 90061),
        "\u{1f464} Number of artists: 2\n\u{1f4bf}Number of albums: 3\n\u{1f3b5}Number of songs: 4\n\ntotal duration: 1d 1h 1m 1s"
    );
}

#[test]
fn durations_truncate_to_seconds_and_skip_leading_zero_units() {
    assert_eq!(human_duration_exec(0), "0s");
    assert_eq!(human_duration_exec(59), "59s");
    assert_eq!(human_duration_exec(60), "1m 0s");
    assert_eq!(human_duration_exec(3600), "1h 0m 0s");
    assert_eq!(human_duration_exec(86400), "1d 0h 0m 0s");
    assert_eq!(human_duration_exec(90061), "1d 1h 1m 1s");
}

#[test]
fn decimal_rendering_is_exact() {
    assert_eq!(u64_to_dec(0), "0");
    assert_eq!(u64_to_dec(7), "7");
    assert_eq!(u64_to_dec(12345), "12345");
    assert_eq!(u64_to_dec(u64::MAX), "18446744073709551615");
}

#[test]
fn add_all_reply_counts_the_library() {
    assert_eq!(add_all_reply(10), "Successfully added 10 songs to the queue");
}

#[test]
fn missing_fields_read_unknown() {
    assert_eq!(or_unknown_str(&None), "Unknown");
    assert_eq!(or_unknown_str(&Some("X".to_string())), "X");
}
