use serde_legacy::{
    normalize, Collect, CollectDefaultKey, Compose, Conversion, Convert, FromText, Identity,
    Legacy, MapEach, OldOrNew, Parse, ParseOrDefault, ToString, ToText, TryConvert,
    TryConvertOrDefault,
};
use std::collections::{BTreeMap, BTreeSet, HashMap, HashSet};

#[test]
fn identity_keeps_value() {
    assert_eq!(Identity::<String>::convert("abc".to_string()), "abc");
    assert_eq!(Identity::<i64>::convert(-3), -3);
}

#[test]
fn convert_widens() {
    assert_eq!(Convert::<u32, u64>::convert(4_000_000_000), 4_000_000_000u64);
}

#[test]
fn try_convert_reports_failure() {
    assert_eq!(TryConvert::<u64, u32>::convert(9).unwrap(), 9u32);
    assert!(TryConvert::<u64, u32>::convert(1u64 << 40).is_err());
    assert!(TryConvert::<i32, u8>::convert(-1).is_err());
}

#[test]
fn try_convert_or_default_never_fails() {
    assert_eq!(TryConvertOrDefault::<u64, u32>::convert(77), 77u32);
    assert_eq!(TryConvertOrDefault::<u64, u32>::convert(u64::MAX), 0u32);
    assert_eq!(TryConvertOrDefault::<i64, i32>::convert(-5), -5i32);
}

#[test]
fn parse_reads_decimal() {
    assert_eq!(Parse::<u32>::convert("42".to_string()).unwrap(), 42);
    assert_eq!(Parse::<u32>::convert("+7".to_string()).unwrap(), 7);
    assert_eq!(Parse::<u64>::convert("4294967296".to_string()).unwrap(), 4294967296);
    assert_eq!(u64::from_text("0012").unwrap(), 12);
}

#[test]
fn parse_refuses_bad_text() {
    assert!(Parse::<u32>::convert("".to_string()).is_err());
    assert!(Parse::<u32>::convert("+".to_string()).is_err());
    assert!(Parse::<u32>::convert("-1".to_string()).is_err());
    assert!(Parse::<u32>::convert(" 1".to_string()).is_err());
    assert!(Parse::<u32>::convert("4294967296".to_string()).is_err());
}

#[test]
fn parse_or_default_never_fails() {
    assert_eq!(ParseOrDefault::<u32>::convert("123".to_string()), 123);
    assert_eq!(ParseOrDefault::<u32>::convert("abc".to_string()), 0);
    assert_eq!(ParseOrDefault::<u64>::convert("".to_string()), 0);
}

#[test]
fn collect_makes_one_element() {
    assert_eq!(Collect::<u8, Vec<u8>>::convert(3), vec![3u8]);
    assert_eq!(Collect::<String, Vec<String>>::convert("x".to_string()), vec!["x".to_string()]);
}

#[test]
fn collect_default_key_makes_one_entry() {
    assert_eq!(
        CollectDefaultKey::<String, i32, Vec<(String, i32)>>::convert(7),
        vec![(String::new(), 7)]
    );
    let m = CollectDefaultKey::<u64, &str, BTreeMap<u64, &str>>::convert("v");
    assert_eq!(m.len(), 1);
    assert_eq!(m.get(&0), Some(&"v"));
    let h = CollectDefaultKey::<i64, u8, HashMap<i64, u8>>::convert(4);
    assert_eq!(h.len(), 1);
    assert_eq!(h.get(&0), Some(&4));
}

#[test]
fn map_each_keeps_order() {
    let out = MapEach::<TryConvertOrDefault<u64, u32>>::convert(vec![1, u64::MAX, 3]);
    assert_eq!(out, vec![1u32, 0, 3]);
    assert_eq!(MapEach::<Identity<u8>>::convert(vec![]), Vec::<u8>::new());
}

#[test]
fn to_string_writes_decimal() {
    assert_eq!(ToString::<u32>::convert(0), "0");
    assert_eq!(ToString::<u64>::convert(1234567890123), "1234567890123");
    assert_eq!(42u32.to_text(), "42");
}

#[test]
fn compose_applies_in_order() {
    type P = Compose<ParseOrDefault<u64>, TryConvertOrDefault<u64, u32>>;
    assert_eq!(P::convert("12".to_string()), 12u32);
    assert_eq!(P::convert("99999999999".to_string()), 0u32);
    assert_eq!(P::convert("x".to_string()), 0u32);
    type Q = Compose<ToString<u32>, Parse<u32>>;
    assert_eq!(Q::convert(5).unwrap(), 5);
}

#[test]
fn compose_to_list_of_text() {
    type R = Compose<ToString<u64>, Collect<String, Vec<String>>>;
    assert_eq!(R::convert(8), vec!["8".to_string()]);
}

#[test]
fn normalize_converts_old_only() {
    let old: OldOrNew<String, u32> = OldOrNew::Old("31".to_string());
    let new: OldOrNew<String, u32> = OldOrNew::New(4);
    assert_eq!(normalize::<ParseOrDefault<u32>>(old), 31);
    assert_eq!(normalize::<ParseOrDefault<u32>>(new), 4);
}

#[test]
fn legacy_is_transparent() {
    let a = Legacy::<Identity<u32>, u32>::from(9);
    let b = Legacy::<Identity<u32>, u32>::from(9);
    assert!(a == b);
    assert_eq!(*a, 9);
    assert!(a != Legacy::<Identity<u32>, u32>::from(10));
    let c = a.clone();
    assert_eq!(*c.get(), 9);
    assert_eq!(*AsRef::<u32>::as_ref(&c), 9);
}

#[test]
fn legacy_write_access() {
    let mut a = Legacy::<Identity<String>, String>::from("x".to_string());
    a.get_mut().push('y');
    a.push('z');
    AsMut::<String>::as_mut(&mut a).push('w');
    assert_eq!(Legacy::into_inner(a), "xyzw");
}

#[test]
fn legacy_orders_and_defaults_like_value() {
    let a = Legacy::<Identity<u32>, u32>::from(1);
    let b = Legacy::<Identity<u32>, u32>::from(2);
    assert!(a < b);
    assert_eq!(a.partial_cmp(&b), Some(std::cmp::Ordering::Less));
    let d: Legacy<Identity<u32>, u32> = Default::default();
    assert_eq!(*d, 0);
    let s: Legacy<Identity<String>, String> = Default::default();
    assert_eq!(Legacy::into_inner(s), "");
}

#[test]
fn collect_into_sets() {
    let s = Collect::<i32, BTreeSet<i32>>::convert(7);
    assert_eq!(s, BTreeSet::from([7]));
    let h = Collect::<i32, HashSet<i32>>::convert(7);
    assert_eq!(h.len(), 1);
    assert!(h.contains(&7));
    assert_eq!(Collect::<i32, Vec<i32>>::convert(7), vec![7]);
}

#[test]
fn signed_text() {
    assert_eq!(ToString::<i32>::convert(42), "42");
    assert_eq!(ToString::<i32>::convert(-7), "-7");
    assert_eq!(ToString::<i64>::convert(i64::MIN), "-9223372036854775808");
    assert_eq!(ToString::<i32>::convert(0), "0");
    assert_eq!(Parse::<i32>::convert("-5".to_string()).unwrap(), -5);
    assert_eq!(Parse::<i32>::convert("+5".to_string()).unwrap(), 5);
    assert_eq!(Parse::<i32>::convert("-2147483648".to_string()).unwrap(), i32::MIN);
    assert!(Parse::<i32>::convert("-".to_string()).is_err());
    assert!(Parse::<i32>::convert("-+5".to_string()).is_err());
    assert!(Parse::<i32>::convert("2147483648".to_string()).is_err());
    assert_eq!(Parse::<i64>::convert("-2147483649".to_string()).unwrap(), -2147483649);
    assert_eq!(ParseOrDefault::<i64>::convert("x".to_string()), 0);
}

#[test]
fn map_each_renders_signed() {
    assert_eq!(
        MapEach::<ToString<i32>>::convert(vec![1, -2, 30]),
        vec!["1".to_string(), "-2".to_string(), "30".to_string()]
    );
    assert_eq!(MapEach::<ToString<i32>>::convert(vec![]), Vec::<String>::new());
}

#[test]
fn narrowing_defaults() {
    assert_eq!(TryConvertOrDefault::<u64, u8>::convert(300), 0u8);
    assert_eq!(TryConvertOrDefault::<u64, u8>::convert(200), 200u8);
    assert_eq!(TryConvertOrDefault::<i64, i8>::convert(-129), 0i8);
    assert_eq!(TryConvertOrDefault::<i32, usize>::convert(-1), 0usize);
}

#[test]
fn legacy_copy_clone_and_write_through() {
    let a = Legacy::<Identity<i32>, i32>::from(5);
    let b = a;
    assert_eq!(*a, 5);
    assert_eq!(*b, 5);
    let mut s = Legacy::<Identity<String>, String>::from("old".to_string());
    let c = s.clone();
    *s = "new".to_string();
    assert_eq!(*c, "old");
    assert_eq!(Legacy::into_inner(s), "new");
    assert_eq!(Legacy::into_inner(Legacy::<Identity<Vec<u8>>, Vec<u8>>::from(vec![1, 2])), vec![1, 2]);
}
