use daily_cast::catalog::Catalog;
use daily_cast::loader::LoadError;
use daily_cast::picker::{gif_and_quote, quote_at};

const SMALL_DOC: &str = r#"{"misato": {"gif": "g1", "quotes": ["q1"]}}"#;

#[test]
fn load_one_entry() {
    let catalog = Catalog::load(SMALL_DOC).unwrap();
    assert_eq!(catalog.len(), 1);
    let entry = catalog.find("misato").unwrap();
    assert_eq!(entry.id, "misato");
    assert_eq!(entry.gif, "g1");
    assert_eq!(entry.quotes, vec!["q1".to_string()]);
}

#[test]
fn load_tolerates_extra_fields_and_empty_quotes() {
    let doc = r#"{"rei": {"gif": "g", "quotes": [], "note": 3}}"#;
    let catalog = Catalog::load(doc).unwrap();
    let entry = catalog.find("rei").unwrap();
    assert_eq!(entry.gif, "g");
    assert!(entry.quotes.is_empty());
}

#[test]
fn load_rejects_invalid_json() {
    assert_eq!(Catalog::load("{not json").unwrap_err(), LoadError::Syntax);
    assert_eq!(Catalog::load("").unwrap_err(), LoadError::Syntax);
}

#[test]
fn load_rejects_wrong_shapes() {
    // Top level is not an object.
    assert_eq!(Catalog::load(r#"["misato"]"#).unwrap_err(), LoadError::Structure);
    // An entry is not an object.
    assert_eq!(Catalog::load(r#"{"misato": 5}"#).unwrap_err(), LoadError::Structure);
    // The gif field is missing.
    assert_eq!(
        Catalog::load(r#"{"misato": {"quotes": ["q"]}}"#).unwrap_err(),
        LoadError::Structure
    );
    // The gif field is not a string.
    assert_eq!(
        Catalog::load(r#"{"misato": {"gif": 1, "quotes": ["q"]}}"#).unwrap_err(),
        LoadError::Structure
    );
    // The quotes field is missing.
    assert_eq!(
        Catalog::load(r#"{"misato": {"gif": "g"}}"#).unwrap_err(),
        LoadError::Structure
    );
    // The quotes field is not a list.
    assert_eq!(
        Catalog::load(r#"{"misato": {"gif": "g", "quotes": "q"}}"#).unwrap_err(),
        LoadError::Structure
    );
    // A quote is not a string.
    assert_eq!(
        Catalog::load(r#"{"misato": {"gif": "g", "quotes": ["q", 2]}}"#).unwrap_err(),
        LoadError::Structure
    );
}

#[test]
fn load_is_all_or_nothing() {
    // One good entry does not save a document with one bad entry.
    let doc = r#"{"misato": {"gif": "g", "quotes": ["q"]}, "rei": {"gif": 0, "quotes": []}}"#;
    assert_eq!(Catalog::load(doc).unwrap_err(), LoadError::Structure);
}

#[test]
fn reordered_document_loads_to_equivalent_catalog() {
    let a = r#"{"misato": {"gif": "g1", "quotes": ["q1", "q2"]}, "rei": {"gif": "g2", "quotes": ["q3"]}}"#;
    let b = r#"{
        "rei":    {"quotes": ["q3"], "gif": "g2"},
        "misato": {"quotes": ["q1", "q2"], "gif": "g1"}
    }"#;
    let ca = Catalog::load(a).unwrap();
    let cb = Catalog::load(b).unwrap();
    assert_eq!(ca.len(), cb.len());
    for id in ["misato", "rei"] {
        let ea = ca.find(id).unwrap();
        let eb = cb.find(id).unwrap();
        assert_eq!(ea.gif, eb.gif);
        assert_eq!(ea.quotes, eb.quotes);
    }
}

#[test]
fn pick_returns_member_quote_when_quotes_exist() {
    let doc = r#"{"asuka": {"gif": "ga", "quotes": ["one", "two", "three"]}}"#;
    let catalog = Catalog::load(doc).unwrap();
    for _ in 0..100 {
        let (gif, quote) = gif_and_quote(&catalog, "asuka").unwrap();
        assert_eq!(gif, "ga");
        assert!(["one", "two", "three"].contains(&quote.as_str()));
    }
}

#[test]
fn pick_returns_none_for_absent_character() {
    let catalog = Catalog::load(SMALL_DOC).unwrap();
    assert!(gif_and_quote(&catalog, "penpen").is_none());
}

#[test]
fn pick_returns_none_for_character_without_quotes() {
    let doc = r#"{"kaworu": {"gif": "gk", "quotes": []}}"#;
    let catalog = Catalog::load(doc).unwrap();
    assert!(gif_and_quote(&catalog, "kaworu").is_none());
}

#[test]
fn quote_at_is_exact() {
    let doc = r#"{"misato": {"gif": "g1", "quotes": ["q1", "q2"]}}"#;
    let catalog = Catalog::load(doc).unwrap();
    assert_eq!(
        quote_at(&catalog, "misato", 1),
        Some(("g1".to_string(), "q2".to_string()))
    );
    assert_eq!(quote_at(&catalog, "misato", 2), None);
    assert_eq!(quote_at(&catalog, "rei", 0), None);
}
