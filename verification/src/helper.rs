//! Invocation shapes for the out-of-process helper CLI `rmpc`, and the
//! replies of the handlers that delegate to it.

use vstd::prelude::*;
use vstd::string::StringExecFns;
use crate::text::{extend_chars, string_from_chars};

verus! {

/// Arguments of the helper call that toggles playback.
pub fn toggle_pause_args() -> (args: Vec<String>)
    ensures
        args@.len() == 1,
        args@[0]@ == "togglepause"@,
{
    let mut args: Vec<String> = Vec::new();
    args.push(String::from_str("togglepause"));
    args
}

/// Arguments of the helper call that enqueues the media behind `url`
/// right after the currently playing song.
pub fn ingest_url_args(url: &str) -> (args: Vec<String>)
    ensures
        args@.len() == 4,
        args@[0]@ == "addyt"@,
        args@[1]@ == "-p"@,
        args@[2]@ == "+0"@,
        args@[3]@ == url@,
{
    let mut args: Vec<String> = Vec::new();
    args.push(String::from_str("addyt"));
    args.push(String::from_str("-p"));
    args.push(String::from_str("+0"));
    args.push(String::from_str(url));
    args
}

/// The count handed to the random-enqueue helper call: the argument as
/// given, or `"1"` when it is empty.
pub fn random_count(amount: &str) -> (count: String)
    ensures
        amount@.len() == 0 ==> count@ == "1"@,
        amount@.len() > 0 ==> count@ == amount@,
{
    if amount.is_empty() {
        String::from_str("1")
    } else {
        String::from_str(amount)
    }
}

/// Arguments of the helper call that enqueues `count` random songs.
pub fn add_random_args(count: &str) -> (args: Vec<String>)
    ensures
        args@.len() == 3,
        args@[0]@ == "addrandom"@,
        args@[1]@ == "song"@,
        args@[2]@ == count@,
{
    let mut args: Vec<String> = Vec::new();
    args.push(String::from_str("addrandom"));
    args.push(String::from_str("song"));
    args.push(String::from_str(count));
    args
}

/// Reply when the ingest helper exits without success.
pub fn ingest_failed_message() -> (s: &'static str)
    ensures
        s@ == "\u{274c} Failed to add song"@,
{
    "\u{274c} Failed to add song"
}

/// Reply once the ingest helper succeeded.
pub fn ingest_done_message() -> (s: &'static str)
    ensures
        s@ == "\u{2705} Added youtube song to queue!"@,
{
    "\u{2705} Added youtube song to queue!"
}

/// Usage hint when no link was given for the ingest helper.
pub fn missing_url_message() -> (s: &'static str)
    ensures
        s@ == "No url provided\nReply to a message with a video url to add it to queue"@,
{
    "No url provided\nReply to a message with a video url to add it to queue"
}

/// Notice sent while the ingest helper runs.
pub fn ingest_running_message() -> (s: &'static str)
    ensures
        s@ == "\u{23f3} Downloading video... \nPlease wait, this might take a minute"@,
{
    "\u{23f3} Downloading video... \nPlease wait, this might take a minute"
}

/// Reply when the ingest helper could not even be started: the failure,
/// verbatim, in a fenced block.
pub fn spawn_failure_reply(err: &str) -> (s: String)
    ensures
        s@ == "\u{274c} Failed to add song:\n```\n"@ + err@ + "\n```"@,
{
    let mut out: Vec<char> = Vec::new();
    extend_chars(&mut out, "\u{274c} Failed to add song:\n```\n");
    extend_chars(&mut out, err);
    extend_chars(&mut out, "\n```");
    string_from_chars(&out)
}

/// Reply once `count` random songs were asked of the helper.
pub fn add_random_reply(count: &str) -> (s: String)
    ensures
        s@ == "Successfully added "@ + count@ + " random songs to the queue"@,
{
    let mut out: Vec<char> = Vec::new();
    extend_chars(&mut out, "Successfully added ");
    extend_chars(&mut out, count);
    extend_chars(&mut out, " random songs to the queue");
    string_from_chars(&out)
}

} // verus!
