use emit::str::Str;
use emit::template::{Fragment, Part, Template};

#[test]
fn template_eq() {
    let a = [
        Part::text("a"),
        Part::text("b"),
        Part::hole("c"),
        Part::text(""),
        Part::text("de"),
    ];
    let a = Template::new_ref(&a);

    let b = [
        Part::text(""),
        Part::text("ab"),
        Part::hole("c"),
        Part::text("de"),
        Part::text(""),
    ];
    let b = Template::new_ref(&b);

    assert_eq!(a, b);
}

#[test]
fn template_eq_needs_same_holes_in_same_places() {
    let a = [Part::text("a"), Part::hole("b")];
    let b = [Part::text("a"), Part::hole("c")];
    assert!(Template::new_ref(&a) != Template::new_ref(&b));

    let c = [Part::hole("b"), Part::text("a")];
    assert!(Template::new_ref(&a) != Template::new_ref(&c));

    let d = [Part::text("ab")];
    assert!(Template::new_ref(&a) != Template::new_ref(&d));
}

#[test]
fn template_eq_compares_all_text() {
    let a = [Part::text("hello "), Part::hole("who")];
    let b = [Part::text("hello"), Part::hole("who")];
    assert!(Template::new_ref(&a) != Template::new_ref(&b));

    let c = [Part::text("hel"), Part::text("lo "), Part::hole("who"), Part::text("")];
    assert!(Template::new_ref(&a) == Template::new_ref(&c));

    let d = [Part::text("hello "), Part::hole("who"), Part::text("!")];
    assert!(Template::new_ref(&a) != Template::new_ref(&d));
}

#[test]
fn template_eq_ignores_empty_text_before_holes() {
    let a = [Part::text(""), Part::hole("c")];
    let b = [Part::hole("c")];
    assert_eq!(Template::new_ref(&a), Template::new_ref(&b));
}

#[test]
fn template_eq_across_multibyte_text() {
    let a = [Part::text("aé"), Part::text("ö")];
    let b = [Part::text("a"), Part::text("éö")];
    assert_eq!(Template::new_ref(&a), Template::new_ref(&b));
    let c = [Part::text("aéo")];
    assert!(Template::new_ref(&a) != Template::new_ref(&c));
}

#[test]
fn template_literals() {
    assert_eq!(Template::literal("text"), Template::literal_ref("text"));
    assert!(Template::literal("a") != Template::literal("b"));
    assert_eq!(Template::literal("").as_literal().map(|s| s.get()), Some(""));
    let parts = [Part::text("a"), Part::hole("b")];
    assert!(Template::new_ref(&parts).as_literal().is_none());
    let empty: [Part<'static>; 0] = [];
    assert_eq!(Template::new_ref(&empty), Template::literal(""));
}

#[test]
fn template_owned_and_borrowed() {
    let label = String::from("user");
    let parts = [Part::text_ref("Hello, "), Part::hole_ref(&label), Part::text_str(Str::new("."))];
    let tpl = Template::new_ref(&parts);
    let owned = tpl.to_owned();
    assert_eq!(owned, tpl);
    assert_eq!(tpl.by_ref(), tpl);
    let built = Template::new_owned(vec![
        Part::text_owned(String::from("Hello, ")),
        Part::hole_owned(String::from("user")),
        Part::text("."),
    ]);
    assert_eq!(built, owned);
    assert!(Part::hole("x").as_text().is_none());
    assert_eq!(Part::text("x").by_ref().as_text().map(|s| s.get()), Some("x"));
    assert_eq!(Part::hole_str(Str::new("y")).as_text().map(|s| s.get()), None);
}

static PARTS: [Part<'static>; 0] = [];

#[test]
fn template_from_static_parts() {
    assert_eq!(Template::new(&PARTS), Template::literal(""));
}

#[test]
fn render_fragments_interpolate_first_values() {
    let parts = [Part::text("Hello, "), Part::hole("user"), Part::text(" and "), Part::hole("other")];
    let tpl = Template::new_ref(&parts);
    let props = vec![(Str::new("user"), 1), (Str::new("user"), 2)];
    let render = tpl.render(props);
    let fragments = render.fragments::<i32>();
    assert_eq!(fragments.len(), 4);
    assert!(matches!(fragments[0], Fragment::Text("Hello, ")));
    assert!(matches!(fragments[1], Fragment::Value { label: "user", value: &1 }));
    assert!(matches!(fragments[2], Fragment::Text(" and ")));
    assert!(matches!(fragments[3], Fragment::Missing("other")));
    assert!(render.as_literal().is_none());
    let lit = Template::literal("plain");
    assert_eq!(lit.render(emit::empty::Empty).as_literal().map(|s| s.get()), Some("plain"));
}
