//! Tests of qualified names, the name-keyed table, and GraphQL name
//! validation.

use metadata_resolve::graphql_names::mk_graphql_name;
use metadata_resolve::names::QualifiedName;
use metadata_resolve::qmap::QualifiedMap;

#[test]
fn qualified_names_compare_by_subgraph_and_name() {
    let a = QualifiedName::new("default", "genre");
    let b = QualifiedName::new("default", "genre");
    let c = QualifiedName::new("other", "genre");
    let d = QualifiedName::new("default", "movie");
    assert_eq!(a, b);
    assert_ne!(a, c);
    assert_ne!(a, d);
}

#[test]
fn map_lookup_finds_inserted_values() {
    let mut map: QualifiedMap<u64> = QualifiedMap::new();
    map.insert(QualifiedName::new("s1", "a"), 1);
    map.insert(QualifiedName::new("s2", "a"), 2);
    assert_eq!(map.get(&QualifiedName::new("s1", "a")), Some(&1));
    assert_eq!(map.get(&QualifiedName::new("s2", "a")), Some(&2));
    assert_eq!(map.get(&QualifiedName::new("s3", "a")), None);
    assert!(map.contains_key(&QualifiedName::new("s1", "a")));
    assert!(!map.contains_key(&QualifiedName::new("s1", "b")));
}

#[test]
fn later_insertion_shadows_earlier_one() {
    let mut map: QualifiedMap<u64> = QualifiedMap::new();
    map.insert(QualifiedName::new("s", "k"), 1);
    map.insert(QualifiedName::new("s", "k"), 2);
    assert_eq!(map.get(&QualifiedName::new("s", "k")), Some(&2));
}

#[test]
fn legal_graphql_names_are_accepted() {
    assert_eq!(mk_graphql_name("Genre_Bool_Exp").unwrap(), "Genre_Bool_Exp");
    assert_eq!(mk_graphql_name("_private").unwrap(), "_private");
    assert_eq!(mk_graphql_name("a1").unwrap(), "a1");
}

#[test]
fn illegal_graphql_names_are_rejected() {
    assert!(mk_graphql_name("").is_err());
    assert!(mk_graphql_name("1abc").is_err());
    assert!(mk_graphql_name("has-dash").is_err());
    assert!(mk_graphql_name("with space").is_err());
    assert!(mk_graphql_name("ümlaut").is_err());
}
