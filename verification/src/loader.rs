//! The catalog loader: checks the shape of a parsed document and builds the
//! roster from it, all-or-nothing.
//!
//! A well-formed document is a JSON object whose every member is one
//! character: an object with a string field `gif` and a field `quotes`
//! holding a list of strings.

use vstd::prelude::*;
use crate::catalog::{Catalog, CharacterEntry, EntryModel, unique_ids};
use crate::document::{
    JsonTree, json_model, list_items, object_members, parse_document, parsed_doc, string_content,
};

verus! {

/// Why a catalog document was rejected. Loading is all-or-nothing: no
/// partial catalog is ever produced.
#[derive(Clone, Copy, PartialEq, Eq, Structural, Debug)]
pub enum LoadError {
    /// The text is not valid JSON.
    Syntax,
    /// The JSON is not a catalog document of the shape described in
    /// [`crate::loader`].
    Structure,
}

/// Whether some member of `fields` is named `name`.
pub open spec fn has_field(fields: Seq<(Seq<char>, JsonTree)>, name: Seq<char>) -> bool {
    exists|i: int| 0 <= i < fields.len() && fields[i].0 == name
}

/// The member of `fields` named `name`; meaningful when `has_field` holds
/// and the names are unique.
pub open spec fn field_named(fields: Seq<(Seq<char>, JsonTree)>, name: Seq<char>) -> JsonTree {
    fields[choose|i: int| 0 <= i < fields.len() && fields[i].0 == name].1
}

/// Whether the member names of `fields` are pairwise distinct.
pub open spec fn unique_keys(fields: Seq<(Seq<char>, JsonTree)>) -> bool {
    forall|i: int, j: int| 0 <= i < j < fields.len() ==> fields[i].0 != fields[j].0
}

/// Whether every item of `items` is a JSON string.
pub open spec fn all_texts(items: Seq<JsonTree>) -> bool {
    forall|i: int| 0 <= i < items.len() ==> items[i] is Text
}

/// The texts of a sequence of JSON strings.
pub open spec fn texts_of(items: Seq<JsonTree>) -> Seq<Seq<char>> {
    items.map_values(|t: JsonTree| t->Text_0)
}

/// Whether `n` is one well-formed character entry: an object with a string
/// field `gif` and a field `quotes` holding a list of strings.
pub open spec fn entry_shape_ok(n: JsonTree) -> bool {
    &&& n matches JsonTree::Object(fields)
    &&& has_field(fields, "gif"@)
    &&& field_named(fields, "gif"@) is Text
    &&& has_field(fields, "quotes"@)
    &&& field_named(fields, "quotes"@) matches JsonTree::List(items)
    &&& all_texts(items)
}

/// The entry model read from a well-formed entry node keyed by `id`.
pub open spec fn entry_of(id: Seq<char>, n: JsonTree) -> EntryModel {
    EntryModel {
        id: id,
        gif: field_named(n->Object_0, "gif"@)->Text_0,
        quotes: texts_of(field_named(n->Object_0, "quotes"@)->List_0),
    }
}

/// Whether `n` is a well-formed catalog document: an object whose every
/// member is a well-formed character entry.
pub open spec fn doc_ok(n: JsonTree) -> bool {
    &&& n matches JsonTree::Object(ms)
    &&& forall|i: int| 0 <= i < ms.len() ==> entry_shape_ok((#[trigger] ms[i]).1)
}

/// The roster read from a well-formed document, one entry per member, in
/// member order.
pub open spec fn catalog_of(n: JsonTree) -> Seq<EntryModel> {
    n->Object_0.map_values(|m: (Seq<char>, JsonTree)| entry_of(m.0, m.1))
}

/// The document tree that writes `e` down as one entry: an object with its
/// image link under `gif` and its quotes under `quotes`.
pub open spec fn entry_doc(e: EntryModel) -> JsonTree {
    JsonTree::Object(
        seq![
            ("gif"@, JsonTree::Text(e.gif)),
            ("quotes"@, JsonTree::List(e.quotes.map_values(|q: Seq<char>| JsonTree::Text(q)))),
        ],
    )
}

/// The document tree that writes a roster down, one member per entry, in
/// entry order.
pub open spec fn doc_of(entries: Seq<EntryModel>) -> JsonTree {
    JsonTree::Object(entries.map_values(|e: EntryModel| (e.id, entry_doc(e))))
}

/// Round trip, one entry: written down, an entry is well-formed and reads
/// back unchanged.
pub proof fn lemma_entry_round_trip(e: EntryModel)
    ensures
        entry_shape_ok(entry_doc(e)),
        entry_of(e.id, entry_doc(e)) == e,
{
    reveal_strlit("gif");
    reveal_strlit("quotes");
    let fields = entry_doc(e)->Object_0;
    assert(fields[0].0 == "gif"@ && fields[0].1 == JsonTree::Text(e.gif));
    assert(fields[1].0 == "quotes"@);
    assert("gif"@ != "quotes"@);
    assert(has_field(fields, "gif"@));
    assert(has_field(fields, "quotes"@));
    let g = choose|i: int| 0 <= i < fields.len() && fields[i].0 == "gif"@;
    assert(g == 0);
    let q = choose|i: int| 0 <= i < fields.len() && fields[i].0 == "quotes"@;
    assert(q == 1);
    let items = field_named(fields, "quotes"@)->List_0;
    assert(items == e.quotes.map_values(|t: Seq<char>| JsonTree::Text(t)));
    assert forall|j: int| 0 <= j < items.len() implies (#[trigger] items[j]) is Text by {
        assert(items[j] == JsonTree::Text(e.quotes[j]));
    }
    assert(all_texts(items));
    assert forall|j: int| 0 <= j < items.len() implies texts_of(items)[j] == e.quotes[j] by {
        assert(items[j] == JsonTree::Text(e.quotes[j]));
    }
    assert(texts_of(items) =~= e.quotes);
    assert(entry_of(e.id, entry_doc(e)) =~= e);
}

/// Round trip: a roster written down as a document is a well-formed catalog
/// document, and loading it reproduces the same roster — same identifiers,
/// same image links, same quotes, in the same order.
pub proof fn lemma_catalog_round_trip(entries: Seq<EntryModel>)
    ensures
        doc_ok(doc_of(entries)),
        catalog_of(doc_of(entries)) == entries,
{
    let ms = doc_of(entries)->Object_0;
    assert forall|i: int| 0 <= i < ms.len() implies entry_shape_ok((#[trigger] ms[i]).1) by {
        assert(ms[i] == (entries[i].id, entry_doc(entries[i])));
        lemma_entry_round_trip(entries[i]);
    }
    assert(doc_ok(doc_of(entries)));
    assert forall|i: int| 0 <= i < entries.len() implies catalog_of(doc_of(entries))[i]
        == entries[i] by {
        assert(ms[i] == (entries[i].id, entry_doc(entries[i])));
        lemma_entry_round_trip(entries[i]);
    }
    assert(catalog_of(doc_of(entries)) =~= entries);
}

/// The model of a member list handed over by the document boundary.
pub open spec fn members_model(ms: Seq<(String, serde_json::Value)>) -> Seq<
    (Seq<char>, JsonTree),
> {
    ms.map_values(|p: (String, serde_json::Value)| (p.0@, json_model(p.1)))
}

/// The member of `fields` named `name`, as a parsed value.
fn find_field<'a>(fields: &'a Vec<(String, serde_json::Value)>, name: &str) -> (r: Option<
    &'a serde_json::Value,
>)
    requires
        unique_keys(members_model(fields@)),
    ensures
        r is Some <==> has_field(members_model(fields@), name@),
        r matches Some(v) ==> json_model(*v) == field_named(members_model(fields@), name@),
{
    let key = name.to_string();
    let n = fields.len();
    let mut i: usize = 0;
    while i < n
        invariant
            n == fields@.len(),
            i <= n,
            key@ == name@,
            unique_keys(members_model(fields@)),
            forall|j: int| 0 <= j < i ==> members_model(fields@)[j].0 != name@,
        decreases n - i,
    {
        let p = &fields[i];
        if p.0 == key {
            proof {
                let mm = members_model(fields@);
                assert(mm[i as int].0 == name@);
                let c = choose|k: int| 0 <= k < mm.len() && mm[k].0 == name@;
                assert(mm[c].0 == name@);
                if c != i {
                    assert(mm[c].0 != mm[i as int].0);
                }
            }
            return Some(&p.1);
        }
        proof {
            assert(members_model(fields@)[i as int].0 == fields@[i as int].0@);
        }
        i += 1;
    }
    None
}

/// Reads one character entry from its identifier and its node; nothing
/// exactly when the node does not have the entry shape.
#[verifier::loop_isolation(false)]
fn read_entry(id: &String, node: &serde_json::Value) -> (r: Option<CharacterEntry>)
    ensures
        r is Some <==> entry_shape_ok(json_model(*node)),
        r matches Some(e) ==> e@ == entry_of(id@, json_model(*node)),
{
    let fields = match object_members(node) {
        None => { return None; },
        Some(fs) => fs,
    };
    let ghost fmodel = json_model(*node)->Object_0;
    proof {
        assert forall|i: int| 0 <= i < fields@.len() implies members_model(fields@)[i]
            == fmodel[i] by {
            assert(fields@[i].0@ == fmodel[i].0);
        }
        assert(members_model(fields@) =~= fmodel);
    }
    let gif_node = match find_field(&fields, "gif") {
        None => { return None; },
        Some(v) => v,
    };
    let gif = match string_content(gif_node) {
        None => { return None; },
        Some(t) => t,
    };
    let quotes_node = match find_field(&fields, "quotes") {
        None => { return None; },
        Some(v) => v,
    };
    let items = match list_items(quotes_node) {
        None => { return None; },
        Some(xs) => xs,
    };
    let ghost imodel = field_named(fmodel, "quotes"@)->List_0;
    let mut quotes: Vec<String> = Vec::new();
    let n = items.len();
    let mut k: usize = 0;
    while k < n
        invariant
            n == items@.len(),
            n == imodel.len(),
            forall|i: int| 0 <= i < n ==> json_model(#[trigger] items@[i]) == imodel[i],
            k <= n,
            quotes@.len() == k,
            forall|i: int| 0 <= i < k ==> #[trigger] imodel[i] is Text,
            forall|i: int| 0 <= i < k ==> (#[trigger] quotes@[i])@ == imodel[i]->Text_0,
        decreases n - k,
    {
        let q = match string_content(&items[k]) {
            None => {
                proof {
                    assert(!(imodel[k as int] is Text));
                    assert(!all_texts(imodel));
                }
                return None;
            },
            Some(t) => t,
        };
        quotes.push(q);
        k += 1;
    }
    let entry = CharacterEntry { id: id.clone(), gif, quotes };
    proof {
        assert(entry_shape_ok(json_model(*node)));
        assert(entry.quotes.deep_view() =~= texts_of(imodel));
        assert(entry@ =~= entry_of(id@, json_model(*node)));
    }
    Some(entry)
}

impl Catalog {
    /// Loads the roster from the document text. Fails with `Syntax` exactly
    /// when the text is not valid JSON, with `Structure` exactly when the
    /// JSON is not a well-formed catalog document; otherwise the roster holds
    /// one character per member of the document, in member order, with
    /// unique identifiers.
    #[verifier::loop_isolation(false)]
    pub fn load(source: &str) -> (r: Result<Catalog, LoadError>)
        ensures
            match r {
                Ok(c) => {
                    &&& parsed_doc(source@) matches Some(n)
                    &&& doc_ok(n)
                    &&& c@ == catalog_of(n)
                    &&& c.wf()
                },
                Err(LoadError::Syntax) => parsed_doc(source@) is None,
                Err(LoadError::Structure) => parsed_doc(source@) matches Some(n) && !doc_ok(n),
            },
    {
        let doc = match parse_document(source) {
            None => { return Err(LoadError::Syntax); },
            Some(v) => v,
        };
        let ghost n = json_model(doc);
        let members = match object_members(&doc) {
            None => { return Err(LoadError::Structure); },
            Some(ms) => ms,
        };
        let ghost mmodel = n->Object_0;
        proof {
            assert forall|i: int| 0 <= i < members@.len() implies members_model(members@)[i]
                == mmodel[i] by {
                assert(members@[i].0@ == mmodel[i].0);
            }
            assert(members_model(members@) =~= mmodel);
        }
        let mut entries: Vec<CharacterEntry> = Vec::new();
        let count = members.len();
        let mut k: usize = 0;
        while k < count
            invariant
                count == members@.len(),
                count == mmodel.len(),
                forall|i: int|
                    0 <= i < count ==> (#[trigger] members@[i]).0@ == mmodel[i].0 && json_model(
                        members@[i].1,
                    ) == mmodel[i].1,
                k <= count,
                entries@.len() == k,
                forall|i: int| 0 <= i < k ==> entry_shape_ok((#[trigger] mmodel[i]).1),
                forall|i: int|
                    0 <= i < k ==> (#[trigger] entries@[i])@ == entry_of(mmodel[i].0, mmodel[i].1),
            decreases count - k,
        {
            let m = &members[k];
            let entry = match read_entry(&m.0, &m.1) {
                None => {
                    proof {
                        assert(!entry_shape_ok((n->Object_0)[k as int].1));
                        assert(!doc_ok(n));
                    }
                    return Err(LoadError::Structure);
                },
                Some(e) => e,
            };
            entries.push(entry);
            k += 1;
        }
        let catalog = Catalog::from_entries(entries);
        proof {
            assert(doc_ok(n));
            assert forall|i: int| 0 <= i < count implies catalog@[i] == catalog_of(n)[i] by {
                assert(catalog@[i] == entries@[i]@);
            }
            assert(catalog@ =~= catalog_of(n));
            assert forall|i: int, j: int| 0 <= i < j < catalog@.len() implies catalog@[i].id
                != catalog@[j].id by {
                assert(mmodel[i].0 != mmodel[j].0);
            }
            assert(unique_ids(catalog@));
        }
        Ok(catalog)
    }
}

} // verus!
