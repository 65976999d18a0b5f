use tmpc::helper::{
    add_random_args, add_random_reply, ingest_done_message, ingest_failed_message,
    ingest_running_message, ingest_url_args, missing_url_message, random_count,
    spawn_failure_reply, toggle_pause_args,
};
use tmpc::urls::canonicalize_url;

#[test]
fn random_count_defaults_to_one() {
    assert_eq!(random_count(""), "1");
    assert_eq!(random_count("5"), "5");
}

#[test]
fn add_random_invocation_and_reply() {
    let count = random_count("");
    assert_eq!(add_random_args(&count), vec!["addrandom", "song", "1"]);
    assert_eq!(
        add_random_reply(&count),
        "Successfully added 1 random songs to the queue"
    );
}

#[test]
fn ingest_invocation_carries_the_canonical_url() {
    let url = canonicalize_url("https://youtu.be/abc?t=10");
    let args = ingest_url_args(&url);
    assert_eq!(
        args,
        vec!["addyt", "-p", "+0", "https://youtube.com/watch?v=abc&t=10"]
    );
}

#[test]
fn playback_toggle_invocation() {
    assert_eq!(toggle_pause_args(), vec!["togglepause"]);
}

#[test]
fn ingest_replies_are_exact() {
    assert_eq!(ingest_done_message(), "\u{2705} Added youtube song to queue!");
    assert_eq!(ingest_failed_message(), "\u{274c} Failed to add song");
    assert_eq!(
        missing_url_message(),
        "No url provided\nReply to a message with a video url to add it to queue"
    );
    assert_eq!(
        ingest_running_message(),
        "\u{23f3} Downloading video... \nPlease wait, this might take a minute"
    );
    assert_eq!(
        spawn_failure_reply("boom"),
        "\u{274c} Failed to add song:\n```\nboom\n```"
    );
}
