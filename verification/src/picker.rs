//! The quote picker: looks a character up in the roster and pairs its image
//! link with one of its quotes, drawn at random.

use vstd::prelude::*;
use crate::catalog::{Catalog, EntryModel, entry_for, has_id};
use rand::Rng;

verus! {

/// Whether `id` can be posted from `entries`: present, with at least one
/// quote.
pub open spec fn postable(entries: Seq<EntryModel>, id: Seq<char>) -> bool {
    has_id(entries, id) && entry_for(entries, id).quotes.len() > 0
}

/// Relies on `rand::Rng::gen_range` on the thread-local generator over the
/// range `0..len`: its documentation guarantees a result inside the range,
/// and a panic exactly when the range is empty.
#[verifier::external_body]
fn draw_index(len: usize) -> (r: usize)
    requires
        0 < len,
    ensures
        r < len,
{
    rand::thread_rng().gen_range(0..len)
}

/// The image link of `character` and its quote at `index`, if the roster has
/// such a character and it has that many quotes.
pub fn quote_at(catalog: &Catalog, character: &str, index: usize) -> (r: Option<(String, String)>)
    requires
        catalog.wf(),
    ensures
        r is Some <==> (has_id(catalog@, character@) && index < entry_for(
            catalog@,
            character@,
        ).quotes.len()),
        r matches Some(p) ==> p.0@ == entry_for(catalog@, character@).gif && p.1@ == entry_for(
            catalog@,
            character@,
        ).quotes[index as int],
{
    match catalog.find(character) {
        None => None,
        Some(entry) => {
            if index < entry.quotes.len() {
                assert(entry.quotes.deep_view()[index as int] == entry.quotes@[index as int]@);
                Some((entry.gif.clone(), entry.quotes[index].clone()))
            } else {
                None
            }
        },
    }
}

/// Looks `character` up in the roster and returns its image link together
/// with one quote drawn uniformly at random; nothing when the character is
/// absent or has no quotes.
pub fn gif_and_quote(catalog: &Catalog, character: &str) -> (r: Option<(String, String)>)
    requires
        catalog.wf(),
    ensures
        r is Some <==> postable(catalog@, character@),
        r matches Some(p) ==> p.0@ == entry_for(catalog@, character@).gif && entry_for(
            catalog@,
            character@,
        ).quotes.contains(p.1@),
{
    match catalog.find(character) {
        None => None,
        Some(entry) => {
            if entry.quotes.len() == 0 {
                None
            } else {
                let index = draw_index(entry.quotes.len());
                assert(entry.quotes.deep_view()[index as int] == entry.quotes@[index as int]@);
                let quote = entry.quotes[index].clone();
                assert(entry_for(catalog@, character@).quotes.contains(quote@)) by {
                    assert(entry_for(catalog@, character@).quotes[index as int] == quote@);
                }
                Some((entry.gif.clone(), quote))
            }
        },
    }
}

} // verus!
