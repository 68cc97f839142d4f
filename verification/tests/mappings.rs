use std::collections::{BTreeMap, HashMap};

use shallowclone::{CoCow, MakeOwned, ShallowClone};

#[test]
fn hash_map_detaches_entries() {
    let text = String::from("v1");
    let mut m: HashMap<String, CoCow<String>> = HashMap::new();
    m.insert("k1".to_string(), CoCow::Borrowed(&text));
    m.insert("k2".to_string(), CoCow::Owned(String::from("v2")));
    let o = m.make_owned();
    assert_eq!(o.len(), 2);
    for (_, v) in &o {
        assert!(v.is_owned());
    }
    assert_eq!(o["k1"].get(), "v1");
    assert_eq!(o["k2"].get(), "v2");

    let empty: HashMap<String, u32> = HashMap::new();
    assert_eq!(empty.make_owned().len(), 0);
}

#[test]
fn hash_map_shallow_view_borrows_values() {
    let mut m: HashMap<String, CoCow<String>> = HashMap::new();
    m.insert("k".to_string(), CoCow::Owned(String::from("v")));
    let t = m.shallow_clone();
    assert_eq!(t.len(), 1);
    // the view's value borrows the subject's payload instead of copying it
    assert!(t["k"].is_borrowed());
    assert_eq!(t["k"].get(), "v");
}

#[test]
fn btree_map_detaches_entries() {
    let text = String::from("w1");
    let mut m: BTreeMap<String, CoCow<String>> = BTreeMap::new();
    m.insert("a".to_string(), CoCow::Borrowed(&text));
    m.insert("b".to_string(), CoCow::Owned(String::from("w2")));
    let o = m.make_owned();
    assert_eq!(o.len(), 2);
    for (_, v) in &o {
        assert!(v.is_owned());
    }
    assert_eq!(o["a"].get(), "w1");

    let empty: BTreeMap<String, u32> = BTreeMap::new();
    assert_eq!(empty.make_owned().len(), 0);
}

#[test]
fn btree_map_shallow_view_borrows_values() {
    let mut m: BTreeMap<String, CoCow<String>> = BTreeMap::new();
    m.insert("a".to_string(), CoCow::Owned(String::from("w")));
    let t = m.shallow_clone();
    assert_eq!(t.len(), 1);
    assert!(t["a"].is_borrowed());
    assert_eq!(t["a"].get(), "w");
}
