//! The catalog song record as the daemon adapter reports it: identity is
//! the file path; everything else is optional or free-form tags.

use vstd::prelude::*;
use vstd::string::StrSliceExecFns;

verus! {

/// One catalog entry. `place` is the song's position in the queue, when
/// it stands in it.
pub struct Song {
    pub file: String,
    pub title: Option<String>,
    pub artist: Option<String>,
    pub tags: Vec<(String, String)>,
    pub place: Option<u32>,
}

impl Song {
    /// A song of which only the file path is known, as handed to the
    /// daemon when enqueueing a local file.
    pub fn with_file(file: String) -> (s: Song)
        ensures
            s.file@ == file@,
            s.title is None,
            s.artist is None,
            s.tags@.len() == 0,
            s.place is None,
    {
        Song { file, title: None, artist: None, tags: Vec::new(), place: None }
    }

    /// The tag list as plain character sequences.
    pub open spec fn tag_views(self) -> Seq<(Seq<char>, Seq<char>)> {
        self.tags.deep_view()
    }
}

/// An optional text, with the fallback shown for a missing one.
pub open spec fn or_unknown(o: Option<Seq<char>>) -> Seq<char> {
    match o {
        Some(s) => s,
        None => "Unknown"@,
    }
}

/// The text of an optional field, or the fallback for a missing one.
pub fn or_unknown_str(o: &Option<String>) -> (r: &str)
    ensures
        r@ == or_unknown(o.deep_view()),
{
    match o {
        Some(s) => s.as_str(),
        None => "Unknown",
    }
}

/// True when a tag name compares case-insensitively equal to `album`.
pub open spec fn is_album_key(name: Seq<char>) -> bool {
    &&& name.len() == 5
    &&& (name[0] == 'a' || name[0] == 'A')
    &&& (name[1] == 'l' || name[1] == 'L')
    &&& (name[2] == 'b' || name[2] == 'B')
    &&& (name[3] == 'u' || name[3] == 'U')
    &&& (name[4] == 'm' || name[4] == 'M')
}

/// Decides whether a tag name is an album tag, whatever its case.
pub fn is_album_key_exec(name: &str) -> (r: bool)
    ensures
        r == is_album_key(name@),
{
    let n: usize = name.unicode_len();
    if n != 5 {
        return false;
    }
    let c0 = name.get_char(0);
    let c1 = name.get_char(1);
    let c2 = name.get_char(2);
    let c3 = name.get_char(3);
    let c4 = name.get_char(4);
    (c0 == 'a' || c0 == 'A') && (c1 == 'l' || c1 == 'L') && (c2 == 'b' || c2 == 'B') && (c3 == 'u'
        || c3 == 'U') && (c4 == 'm' || c4 == 'M')
}

/// The album shown for a song: the concatenation, in tag order, of every
/// tag value whose name is an album tag.
pub open spec fn album_of(tags: Seq<(Seq<char>, Seq<char>)>) -> Seq<char>
    decreases tags.len(),
{
    if tags.len() == 0 {
        Seq::empty()
    } else {
        album_of(tags.drop_last()) + (if is_album_key(tags.last().0) {
            tags.last().1
        } else {
            Seq::empty()
        })
    }
}

/// Concatenates the values of every album tag, in tag order.
pub fn album_text(tags: &Vec<(String, String)>) -> (out: Vec<char>)
    ensures
        out@ == album_of(tags.deep_view()),
{
    let mut out: Vec<char> = Vec::new();
    let mut i: usize = 0;
    proof {
        assert(tags.deep_view().take(0) =~= Seq::<(Seq<char>, Seq<char>)>::empty());
    }
    while i < tags.len()
        invariant
            i <= tags@.len(),
            tags.deep_view().len() == tags@.len(),
            forall|k: int|
                0 <= k < tags@.len() ==> #[trigger] tags.deep_view()[k] == (tags@[k].0@, tags@[k].1@),
            out@ == album_of(tags.deep_view().take(i as int)),
        decreases tags@.len() - i,
    {
        proof {
            assert(tags.deep_view().take(i + 1 as int).last() == tags.deep_view()[i as int]);
            assert(tags.deep_view().take(i + 1 as int).drop_last() =~= tags.deep_view().take(
                i as int,
            ));
        }
        if is_album_key_exec(tags[i].0.as_str()) {
            crate::text::extend_chars(&mut out, tags[i].1.as_str());
        } else {
            proof {
                assert(out@ + Seq::<char>::empty() =~= out@);
            }
        }
        i = i + 1;
    }
    proof {
        assert(tags.deep_view().take(tags.deep_view().len() as int) =~= tags.deep_view());
    }
    out
}

} // verus!
