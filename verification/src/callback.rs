//! Inline-keyboard callback payloads: a payload is an opaque identifier
//! followed by a one-character action tag, and the tag is always the last
//! character. Also the decision whether a pressed button still resolves
//! to a song that can be inserted after the current one.

use vstd::prelude::*;
use vstd::string::StringExecFns;
use vstd::string::StrSliceExecFns;

verus! {

/// Splits a callback payload at its last character: the prefix is the
/// opaque identifier, the last character the action tag. Total: defined
/// for every payload, `None` exactly for the empty one.
pub fn split_payload(data: &str) -> (r: Option<(String, char)>)
    ensures
        r is Some <==> data@.len() > 0,
        data@.len() > 0 ==> r.unwrap().0@ == data@.take(data@.len() - 1),
        data@.len() > 0 ==> r.unwrap().1 == data@.last(),
{
    let n: usize = data.unicode_len();
    if n == 0 {
        return None;
    }
    let tag = data.get_char(n - 1);
    let prefix = data.substring_char(0, n - 1);
    proof {
        assert(data@.subrange(0, data@.len() - 1) =~= data@.take(data@.len() - 1));
    }
    Some((prefix.to_owned(), tag))
}

/// Law: splitting never loses anything. For every non-empty payload the
/// prefix with the tag appended is the payload again.
pub proof fn lemma_split_reconstructs(payload: Seq<char>)
    requires
        payload.len() > 0,
    ensures
        payload.take(payload.len() - 1).push(payload.last()) == payload,
{
    assert(payload.take(payload.len() - 1).push(payload.last()) =~= payload);
}

/// The payload emitted for a selection: the identifier with the
/// insert-next tag `'i'` appended.
pub fn make_token(id: &str) -> (t: String)
    ensures
        t@ == id@.push('i'),
{
    proof {
        reveal_strlit("i");
    }
    let t = String::from_str(id).concat("i");
    proof {
        assert(id@ + "i"@ =~= id@.push('i'));
    }
    t
}

/// Law: a token built from an identifier splits back into exactly that
/// identifier and the insert-next tag.
pub proof fn lemma_token_round_trip(id: Seq<char>)
    ensures
        id.push('i').take(id.push('i').len() - 1) == id,
        id.push('i').last() == 'i',
{
    assert(id.push('i').take(id.push('i').len() - 1) =~= id);
}

/// The action a callback payload asks for.
pub enum CallbackAction {
    /// Tag `'i'`: insert the song stored under `id` right after the
    /// currently playing one.
    InsertNext { id: String },
    /// Tag `'n'`: acknowledge the press and do nothing.
    Acknowledge,
    /// Any other tag: log it as unhandled and acknowledge.
    Unknown { tag: char },
}

/// Reads a callback payload: the last character selects the action, the
/// prefix is the opaque identifier. `None` exactly for an empty payload.
pub fn classify_payload(data: &str) -> (r: Option<CallbackAction>)
    ensures
        r is Some <==> data@.len() > 0,
        data@.len() > 0 && data@.last() == 'i' ==> (match r.unwrap() {
            CallbackAction::InsertNext { id } => id@ == data@.take(data@.len() - 1),
            _ => false,
        }),
        data@.len() > 0 && data@.last() == 'n' ==> r.unwrap() is Acknowledge,
        data@.len() > 0 && data@.last() != 'i' && data@.last() != 'n' ==> (match r.unwrap() {
            CallbackAction::Unknown { tag } => tag == data@.last(),
            _ => false,
        }),
{
    match split_payload(data) {
        None => None,
        Some((id, tag)) => {
            if tag == 'i' {
                Some(CallbackAction::InsertNext { id })
            } else if tag == 'n' {
                Some(CallbackAction::Acknowledge)
            } else {
                Some(CallbackAction::Unknown { tag })
            }
        },
    }
}

/// Whether a pressed selection button still leads to an insertion, and
/// where. The press is stale as soon as the store no longer holds the
/// identifier, the daemon no longer knows the stored file, or nothing is
/// playing.
#[derive(Clone, Copy, Debug, PartialEq, Eq, Structural)]
pub enum InsertDecision {
    /// Insert the found song at this queue position.
    Insert { position: u32 },
    /// Short-circuit silently; no user-visible error.
    Stale,
}

/// The insert-next decision: insert right after the current song exactly
/// when the identifier resolved, the file was found in the catalog, and a
/// current queue position exists and has a successor.
pub open spec fn insert_decision_spec(
    stored: bool,
    found: bool,
    current_pos: Option<u32>,
) -> InsertDecision {
    match current_pos {
        Some(pos) => if stored && found && pos < u32::MAX {
            InsertDecision::Insert { position: (pos + 1) as u32 }
        } else {
            InsertDecision::Stale
        },
        None => InsertDecision::Stale,
    }
}

/// Decides whether a callback press still inserts a song: `stored` says
/// the store resolved the identifier, `found` that the daemon found the
/// stored file, `current_pos` the queue position of the current song.
pub fn decide_insert(stored: bool, found: bool, current_pos: Option<u32>) -> (d: InsertDecision)
    ensures
        d == insert_decision_spec(stored, found, current_pos),
{
    match current_pos {
        Some(pos) => {
            if stored && found && pos < u32::MAX {
                InsertDecision::Insert { position: pos + 1 }
            } else {
                InsertDecision::Stale
            }
        },
        None => InsertDecision::Stale,
    }
}

/// Text the originating keyboard message is edited to once the song
/// stands in the queue.
pub fn song_added_message() -> (s: &'static str)
    ensures
        s@ == "\u{2705} Song added!"@,
{
    "\u{2705} Song added!"
}

} // verus!
