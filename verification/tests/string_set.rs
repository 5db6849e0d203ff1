use biome_service::string_set::StringSet;

fn strings(items: &[&str]) -> Vec<String> {
    items.iter().map(|s| s.to_string()).collect()
}

#[test]
fn from_vec_keeps_first_occurrences_in_order() {
    let s = StringSet::from_vec(strings(&["b", "a", "b", "c", "a"]));
    assert_eq!(s.to_vec(), strings(&["b", "a", "c"]));
    assert_eq!(s.len(), 3);
    assert_eq!(s.get(1), "a");
}

#[test]
fn insert_adds_only_new_entries() {
    let mut s = StringSet::new();
    assert!(s.is_empty());
    assert!(s.insert("x".to_string()));
    assert!(!s.insert("x".to_string()));
    assert!(s.insert("y".to_string()));
    assert_eq!(s.to_vec(), strings(&["x", "y"]));
    assert!(s.contains(&"x".to_string()));
    assert!(!s.contains(&"z".to_string()));
}

#[test]
fn extend_appends_missing_entries_in_order() {
    let mut s = StringSet::from_vec(strings(&["a", "b"]));
    s.extend(StringSet::from_vec(strings(&["c", "b", "d"])));
    assert_eq!(s.to_vec(), strings(&["a", "b", "c", "d"]));
    let copy = s.clone();
    s.extend(copy.clone());
    assert_eq!(s, copy);
}

#[test]
fn union_is_associative_on_an_example() {
    let a = || StringSet::from_vec(strings(&["a", "b"]));
    let b = || StringSet::from_vec(strings(&["c", "a"]));
    let c = || StringSet::from_vec(strings(&["d", "c", "b"]));
    let mut left = a();
    left.extend(b());
    left.extend(c());
    let mut bc = b();
    bc.extend(c());
    let mut right = a();
    right.extend(bc);
    assert_eq!(left, right);
    assert_eq!(left.to_vec(), strings(&["a", "b", "c", "d"]));
}
