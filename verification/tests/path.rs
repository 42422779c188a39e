use std::borrow::Cow;
use emit::path::Path;

#[test]
fn is_child_of() {
    let a = Path::new("a");
    let aa = Path::new("aa");
    let b = Path::new("b");
    let a_b = Path::new("a::b");

    assert!(!aa.is_child_of(&a));
    assert!(!b.is_child_of(&a));
    assert!(!a.is_child_of(&a_b));

    assert!(a.is_child_of(&a));
    assert!(a_b.is_child_of(&a));
}

#[test]
fn is_child_of_requires_separator() {
    let a = Path::new("a");
    assert!(!Path::new("a:b").is_child_of(&a));
    assert!(!Path::new("a:").is_child_of(&a));
    assert!(Path::new("a::").is_child_of(&a));
    assert!(!Path::new("c::a::b").is_child_of(&a));
    assert!(Path::new("a::b::c").is_child_of(&Path::new("a::b")));
}

#[test]
fn segments_split_on_separator() {
    let p = Path::new("a::b::c");
    let segs: Vec<String> = p.segments().iter().map(|s| s.get().to_string()).collect();
    assert_eq!(segs, vec!["a", "b", "c"]);

    let p = Path::new("::c");
    let segs: Vec<String> = p.segments().iter().map(|s| s.get().to_string()).collect();
    assert_eq!(segs, vec!["", "c"]);

    let p = Path::new(":::x");
    let segs: Vec<String> = p.segments().iter().map(|s| s.get().to_string()).collect();
    assert_eq!(segs, vec!["", ":x"]);

    let p = Path::new("a");
    let segs: Vec<String> = p.segments().iter().map(|s| s.get().to_string()).collect();
    assert_eq!(segs, vec!["a"]);
}

#[test]
fn path_equality_is_by_text() {
    let owned = Path::new_owned(String::from("a::b"));
    assert!(owned == Path::new("a::b"));
    assert!(owned.to_owned() == Path::new_ref("a::b"));
    assert!(owned != Path::new("a::c"));
}

#[test]
fn segments_join_back_to_path() {
    for text in ["a::b::c", "::c", ":::x", "a::", "a", "", "a:b::::c"] {
        let p = Path::new(text);
        let segs: Vec<String> = p.segments().iter().map(|s| s.get().to_string()).collect();
        assert_eq!(segs.join("::"), text);
    }
}

#[test]
fn to_cow_borrows_only_static_paths() {
    assert!(matches!(Path::new("a::b").to_cow(), Cow::Borrowed("a::b")));
    assert!(matches!(Path::new("a::b").by_ref().to_cow(), Cow::Borrowed("a::b")));
    assert!(matches!(Path::new("a::b").to_owned().to_cow(), Cow::Borrowed("a::b")));
    let text = String::from("a::b");
    let owned = Path::new_owned(text.clone()).to_cow();
    assert!(matches!(owned, Cow::Owned(_)));
    assert_eq!(&*owned, "a::b");
    assert!(matches!(Path::new_ref(&text).to_cow(), Cow::Owned(_)));
    assert!(matches!(Path::new_cow_ref(Cow::Borrowed(text.as_str())).to_cow(), Cow::Owned(_)));
}
