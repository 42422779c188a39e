use emit::and::And;
use emit::empty::Empty;
use emit::props::{bytes_less, Dedup, Props};
use emit::str::Str;

fn pairs(items: &[(&'static str, i32)]) -> Vec<(Str<'static>, i32)> {
    items.iter().map(|(k, v)| (Str::new(k), *v)).collect()
}

fn entries<P: Props<i32>>(props: &P) -> Vec<(String, i32)> {
    (0..props.len())
        .map(|i| (props.key_at(i).to_string(), *props.value_at(i)))
        .collect()
}

#[test]
fn get_finds_first_value() {
    let props = pairs(&[("a", 1), ("b", 2), ("a", 3)]);
    assert_eq!(props.get("a"), Some(&1));
    assert_eq!(props.get("b"), Some(&2));
    assert_eq!(props.get("c"), None);
    assert!(!props.is_unique());
}

#[test]
fn single_and_empty_props() {
    let one = (Str::new("k"), 5);
    assert_eq!(one.get("k"), Some(&5));
    assert_eq!(one.get("x"), None);
    assert!(one.is_unique());
    assert_eq!(Props::<i32>::len(&Empty), 0);
    assert_eq!(Props::<i32>::get(&Empty, "k"), None);
    assert_eq!(Some(one).get("k"), Some(&5));
    assert_eq!(None::<(Str<'static>, i32)>.get("k"), None);
}

#[test]
fn and_props_prefers_left() {
    let left = pairs(&[("a", 1)]);
    let right = pairs(&[("a", 2), ("b", 3)]);
    let both = And::new(left, right);
    assert_eq!(both.get("a"), Some(&1));
    assert_eq!(both.get("b"), Some(&3));
    assert_eq!(both.len(), 3);
    assert_eq!(
        entries(&both),
        vec![("a".to_string(), 1), ("a".to_string(), 2), ("b".to_string(), 3)]
    );
    let joined = pairs(&[("x", 9)]).and_props((Str::new("y"), 8));
    assert_eq!(joined.get("y"), Some(&8));
}

#[test]
fn dedup_keeps_first_value_sorted_by_key() {
    let props = pairs(&[("c", 1), ("a", 2), ("c", 3), ("b", 4), ("a", 5)]);
    let dedup = Dedup::new(&props);
    assert_eq!(
        entries(&dedup),
        vec![("a".to_string(), 2), ("b".to_string(), 4), ("c".to_string(), 1)]
    );
    assert!(dedup.is_unique());
    assert_eq!(dedup.get("c"), Some(&1));
    assert_eq!(dedup.get("z"), None);
}

#[test]
fn dedup_of_unique_props_keeps_order() {
    let one = (Str::new("only"), 7);
    let dedup = Dedup::new(&one);
    assert_eq!(entries(&dedup), vec![("only".to_string(), 7)]);
}

#[test]
fn dedup_sorts_by_bytes() {
    let props = pairs(&[("ab", 1), ("a", 2), ("B", 3), ("é", 4), ("z", 5)]);
    let dedup = Dedup::new(&props);
    let keys: Vec<String> = entries(&dedup).into_iter().map(|(k, _)| k).collect();
    assert_eq!(keys, vec!["B", "a", "ab", "z", "é"]);
}

#[test]
fn byte_order() {
    assert!(bytes_less(b"a", b"b"));
    assert!(bytes_less(b"a", b"ab"));
    assert!(!bytes_less(b"ab", b"a"));
    assert!(!bytes_less(b"a", b"a"));
    assert!(bytes_less(b"", b"a"));
    assert!(!bytes_less(b"", b""));
}
