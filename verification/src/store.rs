//! The selection store: opaque identifiers mapped to catalog file paths,
//! grouped in batches. One batch is minted per search reply; consuming any
//! selection of a batch purges the whole batch.

use vstd::prelude::*;
use crate::text::str_eq;

verus! {

/// True for the characters a minted identifier is made of.
pub open spec fn is_lower_hex(c: char) -> bool {
    ('0' <= c && c <= '9') || ('a' <= c && c <= 'f')
}

/// A minted identifier: 32 lowercase hex digits, so it is URL-safe and,
/// with the one-character tag appended, well under the 64-byte callback
/// payload limit.
pub open spec fn valid_selection_id(s: Seq<char>) -> bool {
    s.len() == 32 && (forall|i: int| 0 <= i < s.len() ==> is_lower_hex(#[trigger] s[i]))
}

/// Relies on `uuid::Uuid::now_v7` and its simple formatting: a version-7
/// (time-ordered) identifier rendered as exactly 32 lowercase hex digits.
/// The value depends on the clock and on randomness, so nothing is
/// promised beyond that shape.
#[verifier::external_body]
pub(crate) fn mint_selection_id() -> (id: String)
    ensures
        valid_selection_id(id@),
{
    uuid::Uuid::now_v7().as_simple().to_string()
}

/// One live selection: an identifier, the catalog file path it stands
/// for, and the batch it was minted in.
pub struct StoreEntry {
    pub id: String,
    pub file: String,
    pub generation: u64,
}

impl StoreEntry {
    /// The entry as plain values: identifier, file path, batch.
    pub open spec fn model(self) -> (Seq<char>, Seq<char>, u64) {
        (self.id@, self.file@, self.generation)
    }
}

/// What an identifier resolves to in a sequence of entries: the file path
/// and batch of the latest entry carrying it, if any. A later entry for
/// the same identifier shadows an earlier one.
pub open spec fn lookup(s: Seq<(Seq<char>, Seq<char>, u64)>, id: Seq<char>) -> Option<
    (Seq<char>, u64),
>
    decreases s.len(),
{
    if s.len() == 0 {
        None
    } else if s.last().0 == id {
        Some((s.last().1, s.last().2))
    } else {
        lookup(s.drop_last(), id)
    }
}

/// The entries that survive purging batch `g`, in their original order.
pub open spec fn purge_generation(s: Seq<(Seq<char>, Seq<char>, u64)>, g: u64) -> Seq<
    (Seq<char>, Seq<char>, u64),
>
    decreases s.len(),
{
    if s.len() == 0 {
        Seq::empty()
    } else if s.last().2 == g {
        purge_generation(s.drop_last(), g)
    } else {
        purge_generation(s.drop_last(), g).push(s.last())
    }
}

/// What an identifier resolves to once the entries of batch `g` are
/// disregarded: the latest entry carrying it outside that batch.
pub open spec fn lookup_excluding(
    s: Seq<(Seq<char>, Seq<char>, u64)>,
    id: Seq<char>,
    g: u64,
) -> Option<(Seq<char>, u64)>
    decreases s.len(),
{
    if s.len() == 0 {
        None
    } else if s.last().2 != g && s.last().0 == id {
        Some((s.last().1, s.last().2))
    } else {
        lookup_excluding(s.drop_last(), id, g)
    }
}

/// Law: purging a batch leaves every identifier resolving to its latest
/// entry outside that batch.
pub proof fn lemma_purge_lookup(s: Seq<(Seq<char>, Seq<char>, u64)>, g: u64, id: Seq<char>)
    ensures
        lookup(purge_generation(s, g), id) == lookup_excluding(s, id, g),
    decreases s.len(),
{
    if s.len() == 0 {
    } else {
        lemma_purge_lookup(s.drop_last(), g, id);
        if s.last().2 != g {
            assert(purge_generation(s.drop_last(), g).push(s.last()).drop_last()
                =~= purge_generation(s.drop_last(), g));
        }
    }
}

/// Law: after a purge of batch `g`, no identifier that only ever stood in
/// batch `g` resolves. Minted identifiers are globally unique, so every
/// identifier emitted with a search reply stands in exactly one batch.
pub proof fn lemma_sibling_unresolvable(s: Seq<(Seq<char>, Seq<char>, u64)>, g: u64, id: Seq<char>)
    requires
        forall|i: int| 0 <= i < s.len() && (#[trigger] s[i]).0 == id ==> s[i].2 == g,
    ensures
        lookup_excluding(s, id, g) is None,
    decreases s.len(),
{
    if s.len() == 0 {
    } else {
        assert(s.last() == s[s.len() - 1]);
        lemma_sibling_unresolvable(s.drop_last(), g, id);
    }
}

/// Law: a purge of batch `g` does not touch an identifier whose latest
/// entry sits in another batch.
pub proof fn lemma_other_batch_kept(s: Seq<(Seq<char>, Seq<char>, u64)>, g: u64, id: Seq<char>)
    requires
        match lookup(s, id) {
            Some((_, gen)) => gen != g,
            None => true,
        },
    ensures
        lookup_excluding(s, id, g) == lookup(s, id),
    decreases s.len(),
{
    if s.len() == 0 {
    } else if s.last().0 == id {
        // both sides resolve to the last entry, which sits outside batch g
    } else {
        lemma_other_batch_kept(s.drop_last(), g, id);
    }
}

/// The selection store: entries live in insertion order; `generation`
/// is the batch that `put` currently files entries under.
pub struct SelectionStore {
    entries: Vec<StoreEntry>,
    generation: u64,
}

impl SelectionStore {
    /// The stored entries as plain values, oldest first.
    pub closed spec fn model(self) -> Seq<(Seq<char>, Seq<char>, u64)> {
        self.entries@.map_values(|e: StoreEntry| e.model())
    }

    /// What `id` resolves to: the stored file path and its batch.
    pub open spec fn entry(self, id: Seq<char>) -> Option<(Seq<char>, u64)> {
        lookup(self.model(), id)
    }

    /// The batch new entries are filed under.
    pub closed spec fn current_generation(self) -> u64 {
        self.generation
    }

    /// A store with no entries, filing under batch zero.
    pub fn new() -> (s: SelectionStore)
        ensures
            forall|id: Seq<char>| s.entry(id) is None,
            s.current_generation() == 0,
    {
        let s = SelectionStore { entries: Vec::new(), generation: 0 };
        proof {
            assert(s.model() =~= Seq::<(Seq<char>, Seq<char>, u64)>::empty());
        }
        s
    }

    /// The batch new entries are filed under, as a value callers can
    /// test before opening another batch.
    pub fn generation(&self) -> (g: u64)
        ensures
            g == self.current_generation(),
    {
        self.generation
    }

    /// Opens a new batch: selections put from now on form one generation,
    /// purged together once any of them is consumed.
    pub fn begin_batch(&mut self)
        requires
            old(self).current_generation() < u64::MAX,
        ensures
            final(self).current_generation() == old(self).current_generation() + 1,
            forall|id: Seq<char>| final(self).entry(id) == old(self).entry(id),
    {
        self.generation = self.generation + 1;
        proof {
            assert(self.model() =~= old(self).model());
        }
    }

    /// Files `id -> file` under the current batch. An entry already held
    /// under the same identifier is shadowed; every other entry is kept.
    pub fn put(&mut self, id: String, file: String)
        ensures
            final(self).entry(id@) == Some((file@, old(self).current_generation())),
            forall|x: Seq<char>| x != id@ ==> final(self).entry(x) == old(self).entry(x),
            final(self).current_generation() == old(self).current_generation(),
            final(self).model() == old(self).model().push(
                (id@, file@, old(self).current_generation()),
            ),
    {
        let generation: u64 = self.generation;
        self.entries.push(StoreEntry { id, file, generation });
        proof {
            assert(self.model() =~= old(self).model().push((id@, file@, generation)));
            assert(self.model().drop_last() =~= old(self).model());
        }
    }

    /// Resolves an identifier to its stored file path.
    pub fn get(&self, id: &str) -> (r: Option<String>)
        ensures
            match self.entry(id@) {
                Some((file, _)) => r matches Some(f) && f@ == file,
                None => r is None,
            },
    {
        match self.find_index(id) {
            Some(i) => Some(self.entries[i].file.clone()),
            None => None,
        }
    }

    /// Consumes a selection: purges the whole batch that `id` belongs to.
    /// Afterwards every identifier resolves to its latest entry outside
    /// that batch; for a minted identifier, which stands in exactly one
    /// batch, that means no sibling of the batch resolves any more. An
    /// unknown `id` changes nothing.
    pub fn drop_generation(&mut self, id: &str)
        ensures
            final(self).current_generation() == old(self).current_generation(),
            match old(self).entry(id@) {
                Some((_, g)) => forall|x: Seq<char>|
                    final(self).entry(x) == lookup_excluding(old(self).model(), x, g),
                None => forall|x: Seq<char>| final(self).entry(x) == old(self).entry(x),
            },
    {
        let i: usize = match self.find_index(id) {
            Some(i) => i,
            None => {
                return ;
            },
        };
        let g: u64 = self.entries[i].generation;
        let mut kept: Vec<StoreEntry> = Vec::new();
        let mut j: usize = 0;
        proof {
            assert(self.entries@.map_values(|e: StoreEntry| e.model()).take(0) =~= Seq::<
                (Seq<char>, Seq<char>, u64),
            >::empty());
            assert(kept@.map_values(|e: StoreEntry| e.model()) =~= Seq::<
                (Seq<char>, Seq<char>, u64),
            >::empty());
        }
        while j < self.entries.len()
            invariant
                j <= self.entries@.len(),
                kept@.map_values(|e: StoreEntry| e.model()) == purge_generation(
                    self.entries@.map_values(|e: StoreEntry| e.model()).take(j as int),
                    g,
                ),
            decreases self.entries@.len() - j,
        {
            proof {
                let m = self.entries@.map_values(|e: StoreEntry| e.model());
                assert(m.take(j + 1 as int).last() == m[j as int]);
                assert(m.take(j + 1 as int).drop_last() =~= m.take(j as int));
            }
            let e = &self.entries[j];
            if e.generation != g {
                let kept_entry = StoreEntry {
                    id: e.id.clone(),
                    file: e.file.clone(),
                    generation: e.generation,
                };
                let ghost kept_before = kept@;
                kept.push(kept_entry);
                proof {
                    assert(kept@.map_values(|x: StoreEntry| x.model()) =~= kept_before.map_values(
                        |x: StoreEntry| x.model(),
                    ).push((e.id@, e.file@, e.generation)));
                }
            }
            j = j + 1;
        }
        proof {
            let m = self.entries@.map_values(|e: StoreEntry| e.model());
            assert(m.take(m.len() as int) =~= m);
        }
        self.entries = kept;
        proof {
            assert forall|x: Seq<char>|
                self.entry(x) == lookup_excluding(old(self).model(), x, g) by {
                lemma_purge_lookup(old(self).model(), g, x);
            }
        }
    }

    /// The index of the latest entry carrying `id`.
    fn find_index(&self, id: &str) -> (r: Option<usize>)
        ensures
            match r {
                Some(i) => {
                    &&& i < self.entries@.len()
                    &&& self.entries@[i as int].id@ == id@
                    &&& self.entry(id@) == Some(
                        (self.entries@[i as int].file@, self.entries@[i as int].generation),
                    )
                },
                None => self.entry(id@) is None,
            },
    {
        let mut i: usize = self.entries.len();
        proof {
            assert(self.model().take(self.model().len() as int) =~= self.model());
        }
        while i > 0
            invariant
                i <= self.entries@.len(),
                lookup(self.model(), id@) == lookup(self.model().take(i as int), id@),
            decreases i,
        {
            i = i - 1;
            proof {
                assert(self.model().take(i + 1 as int).last() == self.model()[i as int]);
                assert(self.model().take(i + 1 as int).drop_last() =~= self.model().take(i as int));
            }
            if str_eq(id, self.entries[i].id.as_str()) {
                return Some(i);
            }
        }
        proof {
            assert(self.model().take(0) =~= Seq::<(Seq<char>, Seq<char>, u64)>::empty());
        }
        None
    }
}

} // verus!
