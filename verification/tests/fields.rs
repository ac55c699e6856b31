use ccb::FieldMap;

fn pairs(map: &FieldMap) -> Vec<(String, String)> {
    let mut out = Vec::new();
    let mut i = 0;
    while let Some((k, v)) = map.get_index(i) {
        out.push((k.clone(), v.clone()));
        i += 1;
    }
    out
}

fn owned(items: &[(&str, &str)]) -> Vec<(String, String)> {
    items.iter().map(|(k, v)| (k.to_string(), v.to_string())).collect()
}

#[test]
fn new_field_map_is_empty() {
    let map = FieldMap::new();
    assert!(map.is_empty());
    assert_eq!(map.len(), 0);
    assert_eq!(map.get("a"), None);
    assert!(!map.contains_key("a"));
    assert!(map.get_index(0).is_none());
}

#[test]
fn insert_appends_new_keys_in_order() {
    let mut map = FieldMap::new();
    map.insert("b".to_string(), "2".to_string());
    map.insert("a".to_string(), "1".to_string());
    assert_eq!(map.len(), 2);
    assert!(!map.is_empty());
    assert_eq!(pairs(&map), owned(&[("b", "2"), ("a", "1")]));
    assert_eq!(map.get("a"), Some(&"1".to_string()));
    assert_eq!(map.get("b"), Some(&"2".to_string()));
    assert_eq!(map.get("c"), None);
    assert!(map.contains_key("a"));
    assert!(!map.contains_key("c"));
}

#[test]
fn insert_overwrites_in_place() {
    let mut map = FieldMap::new();
    map.insert("a".to_string(), "1".to_string());
    map.insert("b".to_string(), "2".to_string());
    map.insert("a".to_string(), "10".to_string());
    assert_eq!(map.len(), 2);
    assert_eq!(pairs(&map), owned(&[("a", "10"), ("b", "2")]));
}

#[test]
fn get_index_ends_with_the_pairs() {
    let mut map = FieldMap::new();
    map.insert("a".to_string(), "1".to_string());
    let first = map.get_index(0);
    assert_eq!(first, Some((&"a".to_string(), &"1".to_string())));
    assert!(map.get_index(1).is_none());
    assert!(map.get_index(usize::MAX).is_none());
}

#[test]
fn overlaid_merges_context_and_fields() {
    let mut base = FieldMap::new();
    base.insert("a".to_string(), "1".to_string());
    base.insert("b".to_string(), "2".to_string());
    let merged = base.overlaid(&[("b", "20"), ("c", "3")]);
    assert_eq!(merged.len(), 3);
    assert_eq!(merged.get("a"), Some(&"1".to_string()));
    assert_eq!(merged.get("b"), Some(&"20".to_string()));
    assert_eq!(merged.get("c"), Some(&"3".to_string()));
    assert_eq!(pairs(&merged), owned(&[("a", "1"), ("b", "20"), ("c", "3")]));
    // the base is left as it was
    assert_eq!(pairs(&base), owned(&[("a", "1"), ("b", "2")]));
}

#[test]
fn overlaid_lets_the_last_duplicate_win() {
    let base = FieldMap::new();
    let merged = base.overlaid(&[("k", "first"), ("other", "x"), ("k", "last")]);
    assert_eq!(pairs(&merged), owned(&[("k", "last"), ("other", "x")]));
}

#[test]
fn overlaid_with_nothing_is_a_copy() {
    let mut base = FieldMap::new();
    base.insert("a".to_string(), "1".to_string());
    let merged = base.overlaid(&[]);
    assert_eq!(pairs(&merged), pairs(&base));
}

#[test]
fn clone_is_independent() {
    let mut base = FieldMap::new();
    base.insert("a".to_string(), "1".to_string());
    let mut copy = base.clone();
    copy.insert("a".to_string(), "2".to_string());
    copy.insert("b".to_string(), "3".to_string());
    assert_eq!(pairs(&base), owned(&[("a", "1")]));
    assert_eq!(pairs(&copy), owned(&[("a", "2"), ("b", "3")]));
}

#[test]
fn keys_are_compared_by_their_characters() {
    let mut map = FieldMap::new();
    map.insert("key".to_string(), "1".to_string());
    map.insert("Key".to_string(), "2".to_string());
    map.insert("".to_string(), "3".to_string());
    map.insert("ke".to_string(), "4".to_string());
    assert_eq!(map.len(), 4);
    assert_eq!(map.get(""), Some(&"3".to_string()));
    assert_eq!(map.get("ke"), Some(&"4".to_string()));
}
