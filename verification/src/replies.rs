//! The texts of the handlers that only observe the daemon: current song,
//! queue listing, and database statistics.

use vstd::prelude::*;
use crate::song::{Song, album_of, album_text, or_unknown, or_unknown_str};
use crate::text::{dec_digits, extend_chars, push_dec_chars, string_from_chars};

verus! {

/// The text shown for the currently playing song: title, artist and
/// album on their own decorated lines, with the fallback for missing
/// fields; the album is the concatenation of every tag value whose name
/// compares case-insensitively equal to `album`.
pub open spec fn current_text(song: Song) -> Seq<char> {
    "\u{1f3b5}"@ + or_unknown(song.title.deep_view()) + "\n\u{1f464}"@ + or_unknown(
        song.artist.deep_view(),
    ) + "\n\u{1f4bf}"@ + album_of(song.tag_views())
}

/// Reply shown when nothing is playing.
pub fn no_song_message() -> (s: &'static str)
    ensures
        s@ == "No song playing right now"@,
{
    "No song playing right now"
}

/// Renders the reply for the currently playing song.
pub fn current_reply(song: &Song) -> (s: String)
    ensures
        s@ == current_text(*song),
{
    let mut out: Vec<char> = Vec::new();
    extend_chars(&mut out, "\u{1f3b5}");
    extend_chars(&mut out, or_unknown_str(&song.title));
    extend_chars(&mut out, "\n\u{1f464}");
    extend_chars(&mut out, or_unknown_str(&song.artist));
    extend_chars(&mut out, "\n\u{1f4bf}");
    let album = album_text(&song.tags);
    let mut i: usize = 0;
    proof {
        assert(out@ =~= "\u{1f3b5}"@ + or_unknown(song.title.deep_view()) + "\n\u{1f464}"@
            + or_unknown(song.artist.deep_view()) + "\n\u{1f4bf}"@ + album@.take(0));
    }
    while i < album.len()
        invariant
            i <= album@.len(),
            out@ == "\u{1f3b5}"@ + or_unknown(song.title.deep_view()) + "\n\u{1f464}"@
                + or_unknown(song.artist.deep_view()) + "\n\u{1f4bf}"@ + album@.take(i as int),
        decreases album@.len() - i,
    {
        let ghost before = out@;
        out.push(album[i]);
        proof {
            assert(before.push(album@[i as int]) =~= "\u{1f3b5}"@ + or_unknown(
                song.title.deep_view(),
            ) + "\n\u{1f464}"@ + or_unknown(song.artist.deep_view()) + "\n\u{1f4bf}"@
                + album@.take(i + 1 as int));
        }
        i = i + 1;
    }
    proof {
        assert(album@.take(album@.len() as int) =~= album@);
    }
    string_from_chars(&out)
}

/// One line of the queue listing.
pub open spec fn queue_line(song: Song) -> Seq<char> {
    "\u{1f3b5} "@ + or_unknown(song.title.deep_view()) + " - "@ + or_unknown(
        song.artist.deep_view(),
    )
}

/// The listed lines joined by blank lines: the first `count` songs of
/// `songs`, in order.
pub open spec fn queue_lines(songs: Seq<Song>) -> Seq<char>
    decreases songs.len(),
{
    if songs.len() == 0 {
        Seq::empty()
    } else if songs.len() == 1 {
        queue_line(songs.last())
    } else {
        queue_lines(songs.drop_last()) + "\n\n"@ + queue_line(songs.last())
    }
}

/// Where the listing starts: the current position, clamped to the queue.
pub open spec fn queue_start(pos: u32, len: nat) -> nat {
    if pos <= len {
        pos as nat
    } else {
        len
    }
}

/// How many songs the reply lists: the remaining songs, capped at 20.
pub open spec fn queue_listed(pos: u32, len: nat) -> nat {
    let remaining = len - queue_start(pos, len);
    if remaining <= 20 {
        remaining as nat
    } else {
        20
    }
}

/// Law: the queue reply never lists more than 20 songs, while the
/// reported queue length is the true remaining length, however long the
/// queue is.
pub proof fn lemma_queue_window(pos: u32, len: nat)
    ensures
        queue_listed(pos, len) <= 20,
        queue_listed(pos, len) <= len - queue_start(pos, len),
{
}

/// The whole queue reply: the remaining length, then up to 20 lines, or
/// a fixed text for an empty remainder.
pub open spec fn queue_text(pos: u32, songs: Seq<Song>) -> Seq<char> {
    let start = queue_start(pos, songs.len());
    let remaining = songs.len() - start;
    "\u{1f39b}Queue length: "@ + dec_digits((songs.len() - start) as nat) + "\n\n"@ + (if remaining
        == 0 {
        "No song in queue"@
    } else {
        queue_lines(songs.subrange(start as int, (start + queue_listed(pos, songs.len())) as int))
    })
}

/// Renders one line of the queue listing.
fn queue_line_exec(song: &Song) -> (s: Vec<char>)
    ensures
        s@ == queue_line(*song),
{
    let mut out: Vec<char> = Vec::new();
    extend_chars(&mut out, "\u{1f3b5} ");
    extend_chars(&mut out, or_unknown_str(&song.title));
    extend_chars(&mut out, " - ");
    extend_chars(&mut out, or_unknown_str(&song.artist));
    out
}

/// Renders the queue reply: `pos` is the current song's queue position,
/// `songs` the daemon's whole queue.
pub fn queue_reply(pos: u32, songs: &Vec<Song>) -> (s: String)
    ensures
        s@ == queue_text(pos, songs@),
{
    let len: usize = songs.len();
    let start: usize = if pos as usize <= len {
        pos as usize
    } else {
        len
    };
    let remaining: usize = len - start;
    let listed: usize = if remaining <= 20 {
        remaining
    } else {
        20
    };
    let mut out: Vec<char> = Vec::new();
    extend_chars(&mut out, "\u{1f39b}Queue length: ");
    push_dec_chars(remaining as u64, &mut out);
    extend_chars(&mut out, "\n\n");
    if remaining == 0 {
        extend_chars(&mut out, "No song in queue");
        return string_from_chars(&out);
    }
    let ghost window = songs@.subrange(start as int, (start + listed) as int);
    let ghost header = out@;
    let mut i: usize = 0;
    proof {
        assert(window.take(0) =~= Seq::<Song>::empty());
        assert(out@ =~= header + queue_lines(window.take(0)));
    }
    while i < listed
        invariant
            i <= listed,
            start + listed <= songs@.len() <= usize::MAX,
            window == songs@.subrange(start as int, (start + listed) as int),
            window.len() == listed,
            out@ == header + queue_lines(window.take(i as int)),
        decreases listed - i,
    {
        proof {
            assert(window.take(i + 1 as int).last() == window[i as int]);
            assert(window.take(i + 1 as int).drop_last() =~= window.take(i as int));
            assert(window[i as int] == songs@[start + i]);
        }
        if i > 0 {
            extend_chars(&mut out, "\n\n");
        }
        let line = queue_line_exec(&songs[start + i]);
        let ghost before = out@;
        let mut k: usize = 0;
        while k < line.len()
            invariant
                k <= line@.len(),
                out@ == before + line@.take(k as int),
            decreases line@.len() - k,
        {
            let ghost mid = out@;
            out.push(line[k]);
            proof {
                assert(mid.push(line@[k as int]) =~= before + line@.take(k + 1 as int));
            }
            k = k + 1;
        }
        proof {
            assert(line@.take(line@.len() as int) =~= line@);
            if i == 0 {
                assert(queue_lines(window.take(1)) == queue_line(window[0]));
            }
            assert(out@ =~= header + queue_lines(window.take(i + 1 as int)));
        }
        i = i + 1;
    }
    proof {
        assert(window.take(listed as int) =~= window);
    }
    string_from_chars(&out)
}

/// The statistics reply, with the database play time shown in days,
/// hours, minutes and seconds, leading zero units left out.
pub open spec fn human_duration(secs: nat) -> Seq<char> {
    let d = secs / 86400;
    let h = (secs % 86400) / 3600;
    let m = (secs % 3600) / 60;
    let s = secs % 60;
    if d > 0 {
        dec_digits(d) + "d "@ + dec_digits(h) + "h "@ + dec_digits(m) + "m "@ + dec_digits(s)
            + "s"@
    } else if h > 0 {
        dec_digits(h) + "h "@ + dec_digits(m) + "m "@ + dec_digits(s) + "s"@
    } else if m > 0 {
        dec_digits(m) + "m "@ + dec_digits(s) + "s"@
    } else {
        dec_digits(s) + "s"@
    }
}

/// Renders a duration given in seconds, truncated to whole seconds.
pub fn human_duration_exec(secs: u64) -> (s: String)
    ensures
        s@ == human_duration(secs as nat),
{
    let d: u64 = secs / 86400;
    let h: u64 = (secs % 86400) / 3600;
    let m: u64 = (secs % 3600) / 60;
    let sec: u64 = secs % 60;
    let mut out: Vec<char> = Vec::new();
    if d > 0 {
        push_dec_chars(d, &mut out);
        extend_chars(&mut out, "d ");
        push_dec_chars(h, &mut out);
        extend_chars(&mut out, "h ");
        push_dec_chars(m, &mut out);
        extend_chars(&mut out, "m ");
        push_dec_chars(sec, &mut out);
        extend_chars(&mut out, "s");
    } else if h > 0 {
        push_dec_chars(h, &mut out);
        extend_chars(&mut out, "h ");
        push_dec_chars(m, &mut out);
        extend_chars(&mut out, "m ");
        push_dec_chars(sec, &mut out);
        extend_chars(&mut out, "s");
    } else if m > 0 {
        push_dec_chars(m, &mut out);
        extend_chars(&mut out, "m ");
        push_dec_chars(sec, &mut out);
        extend_chars(&mut out, "s");
    } else {
        push_dec_chars(sec, &mut out);
        extend_chars(&mut out, "s");
    }
    string_from_chars(&out)
}

/// The statistics reply text.
pub open spec fn stats_text(artists: u32, albums: u32, songs: u32, playtime_secs: u64) -> Seq<
    char,
> {
    "\u{1f464} Number of artists: "@ + dec_digits(artists as nat) + "\n\u{1f4bf}Number of albums: "@
        + dec_digits(albums as nat) + "\n\u{1f3b5}Number of songs: "@ + dec_digits(songs as nat)
        + "\n\ntotal duration: "@ + human_duration(playtime_secs as nat)
}

/// Renders the statistics reply.
pub fn stats_reply(artists: u32, albums: u32, songs: u32, playtime_secs: u64) -> (s: String)
    ensures
        s@ == stats_text(artists, albums, songs, playtime_secs),
{
    let mut out: Vec<char> = Vec::new();
    extend_chars(&mut out, "\u{1f464} Number of artists: ");
    push_dec_chars(artists as u64, &mut out);
    extend_chars(&mut out, "\n\u{1f4bf}Number of albums: ");
    push_dec_chars(albums as u64, &mut out);
    extend_chars(&mut out, "\n\u{1f3b5}Number of songs: ");
    push_dec_chars(songs as u64, &mut out);
    extend_chars(&mut out, "\n\ntotal duration: ");
    let human = human_duration_exec(playtime_secs);
    extend_chars(&mut out, human.as_str());
    string_from_chars(&out)
}

/// Reply for the handler that enqueues the whole library.
pub fn add_all_reply(songs: u32) -> (s: String)
    ensures
        s@ == "Successfully added "@ + dec_digits(songs as nat) + " songs to the queue"@,
{
    let mut out: Vec<char> = Vec::new();
    extend_chars(&mut out, "Successfully added ");
    push_dec_chars(songs as u64, &mut out);
    extend_chars(&mut out, " songs to the queue");
    string_from_chars(&out)
}

} // verus!
