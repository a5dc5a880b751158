use isletmap::catalog::{Catalog, CatalogItem, RemotePolicy};

fn item(label: &str, glyph: &str, key: Option<&str>) -> CatalogItem {
    CatalogItem {
        label: label.to_string(),
        glyph: glyph.to_string(),
        policy: match key {
            Some(k) => RemotePolicy::RemoteKey(k.to_string()),
            None => RemotePolicy::NoRemoteData,
        },
    }
}

fn sample_table() -> Vec<CatalogItem> {
    vec![
        item("ashfall", "🌋", Some("a81f")),
        item("brinepool", "🌊", Some("77c2")),
        item("cinderholm", "🔥", None),
        item("driftwood", "🪵", Some("d901")),
    ]
}

#[test]
fn catalog_keeps_order_and_entries() {
    let catalog = Catalog::new(sample_table()).unwrap();
    assert_eq!(catalog.len(), 4);
    assert_eq!(catalog.get(0).label, "ashfall");
    assert_eq!(catalog.get(3).label, "driftwood");
}

#[test]
fn resolve_glyph_matches_table() {
    let catalog = Catalog::new(sample_table()).unwrap();
    assert_eq!(catalog.resolve_glyph(0).as_str(), "🌋");
    assert_eq!(catalog.resolve_glyph(1).as_str(), "🌊");
    assert_eq!(catalog.resolve_glyph(2).as_str(), "🔥");
    assert_eq!(catalog.resolve_glyph(3).as_str(), "🪵");
}

#[test]
fn resolve_matches_table() {
    let catalog = Catalog::new(sample_table()).unwrap();
    assert!(matches!(catalog.resolve(0), RemotePolicy::RemoteKey(k) if k.as_str() == "a81f"));
    assert!(matches!(catalog.resolve(1), RemotePolicy::RemoteKey(k) if k.as_str() == "77c2"));
    assert!(matches!(catalog.resolve(2), RemotePolicy::NoRemoteData));
    assert!(matches!(catalog.resolve(3), RemotePolicy::RemoteKey(k) if k.as_str() == "d901"));
}

#[test]
fn resolution_is_deterministic() {
    let catalog = Catalog::new(sample_table()).unwrap();
    for i in 0..catalog.len() {
        let first_glyph = catalog.resolve_glyph(i).clone();
        assert_eq!(catalog.resolve_glyph(i), &first_glyph);
        let first_key = match catalog.resolve(i) {
            RemotePolicy::RemoteKey(k) => Some(k.clone()),
            RemotePolicy::NoRemoteData => None,
        };
        let second_key = match catalog.resolve(i) {
            RemotePolicy::RemoteKey(k) => Some(k.clone()),
            RemotePolicy::NoRemoteData => None,
        };
        assert_eq!(first_key, second_key);
    }
}

#[test]
fn sidebar_rows_lowercase_labels_in_order() {
    let table = vec![
        item("Ashfall", "🌋", Some("a81f")),
        item("BrinePool", "🌊", None),
    ];
    let catalog = Catalog::new(table).unwrap();
    let rows = catalog.sidebar_rows();
    assert_eq!(rows.len(), 2);
    assert_eq!(rows[0].0.as_str(), "🌋");
    assert_eq!(rows[0].1.as_str(), "ashfall");
    assert_eq!(rows[1].0.as_str(), "🌊");
    assert_eq!(rows[1].1.as_str(), "brinepool");
}

#[test]
fn empty_remote_key_is_rejected() {
    let table = vec![item("ashfall", "🌋", Some(""))];
    assert!(Catalog::new(table).is_none());
}

#[test]
fn duplicate_labels_are_rejected() {
    let table = vec![
        item("ashfall", "🌋", Some("a81f")),
        item("ashfall", "🌊", Some("77c2")),
    ];
    assert!(Catalog::new(table).is_none());
}

#[test]
fn empty_catalog_is_valid() {
    let catalog = Catalog::new(Vec::new());
    assert!(catalog.is_some());
    assert_eq!(catalog.unwrap().len(), 0);
}
