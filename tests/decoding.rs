use serde_json::Value;
use serde_legacy::{
    decode_field, Collect, CollectDefaultKey, Compose, Legacy, OldOrNew, ParseOrDefault,
    Precedence, TryConvertOrDefault,
};
use std::collections::{BTreeMap, HashMap};

/// The field `name` of a JSON object, or its field `alias` where `name` is absent.
fn field(doc: &str, name: &str, alias: &str) -> Value {
    let v: Value = serde_json::from_str(doc).unwrap();
    match v.get(name) {
        Some(f) => f.clone(),
        None => v.get(alias).unwrap().clone(),
    }
}

fn old_foo(val: u64) -> String {
    let mut m = serde_json::Map::new();
    m.insert("val".to_string(), Value::from(val));
    serde_json::to_string(&Value::Object(m)).unwrap()
}

type ListFromScalar = Compose<TryConvertOrDefault<u64, u32>, Collect<u32, Vec<u32>>>;

fn decode_vals(doc: &str) -> Option<Vec<u32>> {
    let f = field(doc, "vals", "val");
    let new_attempt = serde_json::from_value::<Vec<u32>>(f.clone()).ok();
    let old_attempt = serde_json::from_value::<u64>(f).ok();
    decode_field::<ListFromScalar>(Precedence::NewFirst, new_attempt, old_attempt)
}

#[test]
fn simple_test() {
    let old_foo_string = old_foo(5);
    let new_foo = decode_vals(&old_foo_string);
    assert_eq!(new_foo, Some(vec![5]));
}

#[test]
fn legacy_test() {
    let text = r#""5""#;
    let new_attempt = serde_json::from_str::<u32>(text).ok();
    let old_attempt = serde_json::from_str::<String>(text).ok();
    let x = Legacy::<ParseOrDefault<u32>, u32>::resolve(Precedence::NewFirst, new_attempt, old_attempt)
        .unwrap();
    assert_eq!(*x, 5);
}

#[test]
fn new_shape_list_round_trips() {
    let doc = serde_json::to_string(&serde_json::from_str::<Value>(r#"{"vals":[1,2,3]}"#).unwrap())
        .unwrap();
    assert_eq!(decode_vals(&doc), Some(vec![1, 2, 3]));
}

#[test]
fn legacy_scalar_too_large_becomes_default() {
    assert_eq!(decode_vals(&old_foo(5_000_000_000)), Some(vec![0]));
}

#[test]
fn neither_shape_fails() {
    assert_eq!(decode_vals(r#"{"val":"five"}"#), None);
}

#[test]
fn legacy_unparsable_text_gives_default() {
    let text = r#""five""#;
    let new_attempt = serde_json::from_str::<u32>(text).ok();
    let old_attempt = serde_json::from_str::<String>(text).ok();
    let x = Legacy::<ParseOrDefault<u32>, u32>::resolve(Precedence::NewFirst, new_attempt, old_attempt)
        .unwrap();
    assert_eq!(Legacy::into_inner(x), 0);
}

#[test]
fn legacy_new_shape_kept() {
    let text = "17";
    let new_attempt = serde_json::from_str::<u32>(text).ok();
    let old_attempt = serde_json::from_str::<String>(text).ok();
    let x = Legacy::<ParseOrDefault<u32>, u32>::resolve(Precedence::NewFirst, new_attempt, old_attempt)
        .unwrap();
    assert_eq!(*x, 17);
}

fn decode_hash_map(text: &str) -> Option<HashMap<String, i32>> {
    let new_attempt = serde_json::from_str::<HashMap<String, i32>>(text).ok();
    let old_attempt = serde_json::from_str::<i32>(text).ok();
    decode_field::<CollectDefaultKey<String, i32, HashMap<String, i32>>>(
        Precedence::NewFirst,
        new_attempt,
        old_attempt,
    )
}

fn decode_btree_map(text: &str) -> Option<BTreeMap<String, i32>> {
    let new_attempt = serde_json::from_str::<BTreeMap<String, i32>>(text).ok();
    let old_attempt = serde_json::from_str::<i32>(text).ok();
    decode_field::<CollectDefaultKey<String, i32, BTreeMap<String, i32>>>(
        Precedence::NewFirst,
        new_attempt,
        old_attempt,
    )
}

#[test]
fn bare_scalar_into_hash_map() {
    let m = decode_hash_map("7").unwrap();
    assert_eq!(m.len(), 1);
    assert_eq!(m.get(""), Some(&7));
}

#[test]
fn bare_scalar_into_btree_map() {
    let m = decode_btree_map("7").unwrap();
    assert_eq!(m.len(), 1);
    assert_eq!(m.get(""), Some(&7));
}

#[test]
fn full_map_kept() {
    let m = decode_btree_map(r#"{"a":1,"b":2}"#).unwrap();
    assert_eq!(m.len(), 2);
    assert_eq!(m.get("a"), Some(&1));
    assert_eq!(m.get("b"), Some(&2));
    let h = decode_hash_map(r#"{"a":1}"#).unwrap();
    assert_eq!(h.len(), 1);
    assert_eq!(h.get("a"), Some(&1));
}

#[test]
fn precedence_decides_ambiguous_input() {
    let new_first = OldOrNew::<u64, u64>::resolve(Precedence::NewFirst, Some(1), Some(2));
    let old_first = OldOrNew::<u64, u64>::resolve(Precedence::OldFirst, Some(1), Some(2));
    assert_eq!(new_first.unwrap().into_new(|o| o * 10), 1);
    assert_eq!(old_first.unwrap().into_new(|o| o * 10), 20);
    let only_new = OldOrNew::<u64, u64>::resolve(Precedence::OldFirst, Some(1), None);
    assert_eq!(only_new.unwrap().into_new(|o| o * 10), 1);
    assert!(OldOrNew::<u64, u64>::resolve(Precedence::OldFirst, None, None).is_none());
}
