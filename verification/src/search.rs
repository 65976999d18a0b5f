//! The search flow: every hit becomes an inline button whose label names
//! the song and whose payload is a freshly minted selection token; the
//! selections of one reply form one batch in the store.

use vstd::prelude::*;
use crate::callback::make_token;
use crate::song::{Song, or_unknown, or_unknown_str};
use crate::store::{SelectionStore, lookup, mint_selection_id, valid_selection_id};
use crate::text::{extend_chars, push_dec_chars, string_from_chars};

verus! {

/// The daemon search asks for results in the window from zero up to
/// (excluding) this index, so a reply never carries more buttons than a
/// single inline keyboard takes.
pub const SEARCH_WINDOW_END: u32 = 95;

/// Label of a search button.
pub open spec fn button_label(song: Song) -> Seq<char> {
    or_unknown(song.artist.deep_view()) + " - "@ + or_unknown(song.title.deep_view())
}

/// Renders the label of a search button.
pub fn button_label_exec(song: &Song) -> (s: String)
    ensures
        s@ == button_label(*song),
{
    let mut out: Vec<char> = Vec::new();
    extend_chars(&mut out, or_unknown_str(&song.artist));
    extend_chars(&mut out, " - ");
    extend_chars(&mut out, or_unknown_str(&song.title));
    string_from_chars(&out)
}

/// The store entries one search reply files: identifier `ids[k]` stands
/// for the file of `songs[k]`, all under batch `g`.
pub open spec fn batch_entries(ids: Seq<Seq<char>>, songs: Seq<Song>, g: u64) -> Seq<
    (Seq<char>, Seq<char>, u64),
> {
    Seq::new(ids.len(), |k: int| (ids[k], songs[k].file@, g))
}

/// Describes a finished search reply: one button per song, labelled with
/// the song, its payload a minted identifier with the insert-next tag,
/// and the store grown by exactly the batch of those selections.
pub open spec fn search_batch(
    ids: Seq<Seq<char>>,
    songs: Seq<Song>,
    buttons: Seq<(String, String)>,
    pre: Seq<(Seq<char>, Seq<char>, u64)>,
    post: Seq<(Seq<char>, Seq<char>, u64)>,
    g: u64,
) -> bool {
    &&& ids.len() == songs.len()
    &&& buttons.len() == songs.len()
    &&& (forall|k: int| 0 <= k < songs.len() ==> valid_selection_id(#[trigger] ids[k]))
    &&& (forall|k: int| 0 <= k < songs.len() ==> (#[trigger] buttons[k]).1@ == ids[k].push('i'))
    &&& (forall|k: int|
        0 <= k < songs.len() ==> (#[trigger] buttons[k]).0@ == button_label(songs[k]))
    &&& post == pre + batch_entries(ids, songs, g)
}

/// Builds the buttons of a search reply: for each hit a label and a
/// callback payload, and for each hit one store entry filed under the
/// current batch, in order.
pub fn build_search_reply(store: &mut SelectionStore, songs: &Vec<Song>) -> (buttons: Vec<
    (String, String),
>)
    ensures
        buttons@.len() == songs@.len(),
        final(store).current_generation() == old(store).current_generation(),
        exists|ids: Seq<Seq<char>>|
            search_batch(
                ids,
                songs@,
                buttons@,
                old(store).model(),
                final(store).model(),
                old(store).current_generation(),
            ),
{
    let mut buttons: Vec<(String, String)> = Vec::new();
    let ghost g = store.current_generation();
    let ghost pre = store.model();
    let ghost mut ids: Seq<Seq<char>> = Seq::empty();
    let mut i: usize = 0;
    proof {
        assert(store.model() =~= pre + batch_entries(ids, songs@, g));
    }
    while i < songs.len()
        invariant
            i <= songs@.len(),
            buttons@.len() == i,
            ids.len() == i,
            forall|k: int| 0 <= k < i ==> valid_selection_id(#[trigger] ids[k]),
            forall|k: int| 0 <= k < i ==> (#[trigger] buttons@[k]).1@ == ids[k].push('i'),
            forall|k: int| 0 <= k < i ==> (#[trigger] buttons@[k]).0@ == button_label(songs@[k]),
            store.model() == pre + batch_entries(ids, songs@, g),
            store.current_generation() == g,
        decreases songs@.len() - i,
    {
        let id = mint_selection_id();
        let token = make_token(id.as_str());
        let label = button_label_exec(&songs[i]);
        let ghost id_view = id@;
        let ghost prev_ids = ids;
        store.put(id, songs[i].file.clone());
        buttons.push((label, token));
        proof {
            ids = ids.push(id_view);
            assert(batch_entries(ids, songs@, g) =~= batch_entries(prev_ids, songs@, g).push(
                (id_view, songs@[i as int].file@, g),
            ));
            assert(store.model() =~= pre + batch_entries(ids, songs@, g));
        }
        i = i + 1;
    }
    proof {
        assert(search_batch(ids, songs@, buttons@, pre, store.model(), g));
    }
    buttons
}

/// Law: within a fresh batch, every emitted identifier resolves to
/// exactly the file of its own search hit, provided no later selection
/// of the batch re-uses the identifier — minted identifiers are globally
/// unique, so distinct selections never share one.
pub proof fn lemma_batch_resolves(
    pre: Seq<(Seq<char>, Seq<char>, u64)>,
    ids: Seq<Seq<char>>,
    songs: Seq<Song>,
    g: u64,
    k: int,
)
    requires
        ids.len() <= songs.len(),
        0 <= k < ids.len(),
        forall|j: int| k < j < ids.len() ==> ids[j] != ids[k],
    ensures
        lookup(pre + batch_entries(ids, songs, g), ids[k]) == Some((songs[k].file@, g)),
    decreases ids.len(),
{
    let s = pre + batch_entries(ids, songs, g);
    if k == ids.len() - 1 {
        assert(s.last() == (ids[k], songs[k].file@, g));
    } else {
        assert(s.last() == (ids[ids.len() - 1], songs[ids.len() - 1].file@, g));
        assert(s.drop_last() =~= pre + batch_entries(ids.drop_last(), songs, g));
        lemma_batch_resolves(pre, ids.drop_last(), songs, g, k);
    }
}

/// Law: once its batch is purged, no identifier of a fresh batch
/// resolves any more — every button of the reply goes stale together.
/// Fresh means the identifier stood nowhere in the store before the
/// batch, which global uniqueness of minted identifiers gives.
pub proof fn lemma_fresh_batch_purged(
    pre: Seq<(Seq<char>, Seq<char>, u64)>,
    ids: Seq<Seq<char>>,
    songs: Seq<Song>,
    g: u64,
    k: int,
)
    requires
        ids.len() <= songs.len(),
        0 <= k < ids.len(),
        forall|i: int| 0 <= i < pre.len() ==> (#[trigger] pre[i]).0 != ids[k],
    ensures
        crate::store::lookup_excluding(pre + batch_entries(ids, songs, g), ids[k], g) is None,
{
    let s = pre + batch_entries(ids, songs, g);
    assert forall|i: int| 0 <= i < s.len() && (#[trigger] s[i]).0 == ids[k] implies s[i].2
        == g by {
        if i < pre.len() {
            assert(s[i] == pre[i]);
        } else {
            assert(s[i] == (ids[i - pre.len()], songs[i - pre.len()].file@, g));
        }
    }
    crate::store::lemma_sibling_unresolvable(s, g, ids[k]);
}

/// Header of a search reply that found something. The count is the
/// number of buttons below it.
pub fn search_header(count: usize) -> (s: String)
    ensures
        s@ == crate::text::dec_digits(count as nat)
            + " resluts found. Tap on a button to add to queue:"@,
{
    let mut out: Vec<char> = Vec::new();
    push_dec_chars(count as u64, &mut out);
    extend_chars(&mut out, " resluts found. Tap on a button to add to queue:");
    string_from_chars(&out)
}

/// Reply for a search that found nothing.
pub fn no_results_message() -> (s: &'static str)
    ensures
        s@ == "No results found!"@,
{
    "No results found!"
}

/// Usage hint for a search without a query.
pub fn empty_query_message() -> (s: &'static str)
    ensures
        s@ == "No search query\nUsage:\n    `/search enter sandman`"@,
{
    "No search query\nUsage:\n    `/search enter sandman`"
}

} // verus!
