//! The character roster: an immutable mapping from character identifier to
//! display data, built once at startup and only read afterwards.

use vstd::prelude::*;

verus! {

/// One character of the roster: its identifier, the link to its image, and
/// its quotes. A character with no quotes is a valid roster member but never
/// yields a post.
#[derive(Clone, Debug)]
pub struct CharacterEntry {
    pub id: String,
    pub gif: String,
    pub quotes: Vec<String>,
}

/// The mathematical model of one roster entry.
#[verifier::ext_equal]
pub struct EntryModel {
    pub id: Seq<char>,
    pub gif: Seq<char>,
    pub quotes: Seq<Seq<char>>,
}

impl View for CharacterEntry {
    type V = EntryModel;

    open spec fn view(&self) -> EntryModel {
        EntryModel { id: self.id@, gif: self.gif@, quotes: self.quotes.deep_view() }
    }
}

/// Whether some entry of `entries` has identifier `id`.
pub open spec fn has_id(entries: Seq<EntryModel>, id: Seq<char>) -> bool {
    exists|i: int| 0 <= i < entries.len() && entries[i].id == id
}

/// The entry of `entries` with identifier `id`; meaningful when `has_id`
/// holds and identifiers are unique.
pub open spec fn entry_for(entries: Seq<EntryModel>, id: Seq<char>) -> EntryModel {
    entries[choose|i: int| 0 <= i < entries.len() && entries[i].id == id]
}

/// Whether the entries carry pairwise distinct identifiers.
pub open spec fn unique_ids(entries: Seq<EntryModel>) -> bool {
    forall|i: int, j: int| 0 <= i < j < entries.len() ==> entries[i].id != entries[j].id
}

/// The roster. Its identifiers are unique keys, and nothing in the library
/// ever mutates a catalog after it is built.
#[derive(Clone, Debug)]
pub struct Catalog {
    entries: Vec<CharacterEntry>,
}

impl View for Catalog {
    type V = Seq<EntryModel>;

    closed spec fn view(&self) -> Seq<EntryModel> {
        self.entries@.map_values(|e: CharacterEntry| e@)
    }
}

impl Catalog {
    /// Wraps already-built entries; only the loader calls this.
    pub(crate) fn from_entries(entries: Vec<CharacterEntry>) -> (r: Catalog)
        ensures
            r@ == entries@.map_values(|e: CharacterEntry| e@),
    {
        Catalog { entries }
    }

    /// Well-formedness: identifiers are unique keys.
    pub open spec fn wf(&self) -> bool {
        unique_ids(self@)
    }

    /// The number of characters in the roster.
    pub fn len(&self) -> (n: usize)
        ensures
            n == self@.len(),
    {
        self.entries.len()
    }

    /// The entry for `id`, if the roster has one.
    pub fn find(&self, id: &str) -> (r: Option<&CharacterEntry>)
        ensures
            r is Some <==> has_id(self@, id@),
            r matches Some(e) ==> e@.id == id@ && self@.contains(e@),
            self.wf() ==> (r matches Some(e) ==> e@ == entry_for(self@, id@)),
    {
        let key = id.to_string();
        let n = self.entries.len();
        let mut i: usize = 0;
        while i < n
            invariant
                n == self@.len(),
                i <= n,
                key@ == id@,
                forall|j: int| 0 <= j < i ==> self@[j].id != id@,
            decreases n - i,
        {
            let e = &self.entries[i];
            if e.id == key {
                assert(self@[i as int].id == id@);
                proof {
                    if self.wf() {
                        let c = choose|k: int|
                            0 <= k < self@.len() && self@[k].id == id@;
                        assert(self@[c].id == id@);
                        if c != i {
                            assert(self@[c].id != self@[i as int].id);
                        }
                    }
                }
                return Some(e);
            }
            i += 1;
        }
        None
    }
}

} // verus!
