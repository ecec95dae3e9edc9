use movies_api::registry::{resolve_ids, IdRegistry, IdTable, UniqueStrings};

fn strings(v: &[&str]) -> Vec<String> {
    v.iter().map(|s| s.to_string()).collect()
}

#[test]
fn unique_strings_keep_first_insertion_order() {
    let mut u = UniqueStrings::new();
    u.insert("b".to_string());
    u.insert("a".to_string());
    u.insert("b".to_string());
    assert_eq!(u.items(), &strings(&["b", "a"]));
    assert_eq!(u.len(), 2);
    assert!(u.contains("a"));
    assert!(!u.contains("c"));
}

#[test]
fn registry_numbers_from_one() {
    let mut r = IdRegistry::new();
    assert_eq!(r.register("Drama".to_string()), 1);
    assert_eq!(r.register("Comedy".to_string()), 2);
    assert_eq!(r.id_of("Drama"), Some(1));
    assert_eq!(r.id_of("Comedy"), Some(2));
    assert_eq!(r.id_of("Short"), None);
}

#[test]
fn assign_ids_registers_new_names_in_order() {
    let mut r = IdRegistry::new();
    r.register("Drama".to_string());
    let fields = strings(&["Short", "\\N", "Drama", "Short", "Animation"]);
    assert_eq!(r.count_fresh(&fields), 2);
    let ids = r.assign_ids(&fields);
    assert_eq!(ids, vec![2, 1, 2, 3]);
    assert_eq!(r.names(), &strings(&["Drama", "Short", "Animation"]));
}

#[test]
fn assign_ids_keeps_existing_ids() {
    let mut r = IdRegistry::new();
    r.assign_ids(&strings(&["a", "b"]));
    r.assign_ids(&strings(&["c", "a"]));
    assert_eq!(r.id_of("a"), Some(1));
    assert_eq!(r.id_of("b"), Some(2));
    assert_eq!(r.id_of("c"), Some(3));
}

#[test]
fn id_table_last_insert_wins() {
    let mut t: IdTable<u64> = IdTable::new();
    t.insert("tt1".to_string(), 1);
    t.insert("tt1".to_string(), 5);
    assert_eq!(t.get("tt1"), Some(5));
    assert_eq!(t.get("tt2"), None);
}

#[test]
fn resolve_ids_collects_unknown() {
    let mut t: IdTable<u64> = IdTable::new();
    t.insert("nm1".to_string(), 10);
    let mut unknown = UniqueStrings::new();
    let ids = resolve_ids(&t, &strings(&["nm1", "\\N", "nm9", "nm1", "nm9"]), &mut unknown);
    assert_eq!(ids, vec![10, 10]);
    assert_eq!(unknown.items(), &strings(&["nm9"]));
}
