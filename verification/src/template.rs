//! Templates: text with named holes that properties are interpolated into,
//! like `Hello, {user}.`
//!
//! Two templates are equal when they render the same: the same holes in the
//! same positions, with the same text around them, however that text is
//! split into parts.

use vstd::prelude::*;
use vstd::string::StringSliceAdditionalSpecFns;
use vstd::utf8::encode_utf8;
use crate::props::{find_first, Props};
use crate::str::Str;

verus! {

/// What a part of a template is: a fragment of text, or a hole with a label.
pub enum PartView {
    /// Literal text.
    Text(Seq<char>),
    /// A hole, by its label.
    Hole(Seq<char>),
}

/// A unit of a template's rendering: a byte of text, or a hole.
pub enum Token {
    /// A byte of UTF-8 text.
    Byte(u8),
    /// A hole, by its label.
    Hole(Seq<char>),
}

/// The rendering of text: each of its UTF-8 bytes.
pub open spec fn text_tokens(bytes: Seq<u8>) -> Seq<Token> {
    bytes.map_values(|b: u8| Token::Byte(b))
}

/// The rendering of a single part.
pub open spec fn part_tokens(p: PartView) -> Seq<Token> {
    match p {
        PartView::Text(t) => text_tokens(encode_utf8(t)),
        PartView::Hole(label) => seq![Token::Hole(label)],
    }
}

/// The rendering of a sequence of parts: the renderings of each in turn.
pub open spec fn rendering(parts: Seq<PartView>) -> Seq<Token>
    decreases parts.len(),
{
    if parts.len() == 0 {
        Seq::empty()
    } else {
        part_tokens(parts[0]) + rendering(parts.drop_first())
    }
}

/// What remains to be rendered from the `off`th token of part `i` onwards.
pub open spec fn rest(parts: Seq<PartView>, i: int, off: int) -> Seq<Token> {
    if 0 <= i < parts.len() {
        part_tokens(parts[i]).skip(off) + rendering(parts.skip(i + 1))
    } else {
        Seq::empty()
    }
}

/// The rendering of parts from `i` onwards starts with the rendering of part `i`.
proof fn lemma_rendering_skip(parts: Seq<PartView>, i: int)
    requires
        0 <= i < parts.len(),
    ensures
        rendering(parts.skip(i)) == part_tokens(parts[i]) + rendering(parts.skip(i + 1)),
{
    let s = parts.skip(i);
    assert(s[0] == parts[i]);
    assert(s.drop_first() =~= parts.skip(i + 1));
}

/// Rendering everything from the first part is the whole rendering.
proof fn lemma_rest_start(parts: Seq<PartView>)
    ensures
        rest(parts, 0, 0) == rendering(parts),
{
    if parts.len() > 0 {
        lemma_rendering_skip(parts, 0);
        assert(parts.skip(0) =~= parts);
        assert(part_tokens(parts[0]).skip(0) =~= part_tokens(parts[0]));
    }
}

/// Once a part is fully rendered, what remains starts at the next part.
proof fn lemma_rest_next_part(parts: Seq<PartView>, i: int)
    requires
        0 <= i < parts.len(),
    ensures
        rest(parts, i, part_tokens(parts[i]).len() as int) == rest(parts, i + 1, 0),
{
    let pt = part_tokens(parts[i]);
    assert(pt.skip(pt.len() as int) =~= Seq::<Token>::empty());
    assert(rest(parts, i, pt.len() as int) =~= rendering(parts.skip(i + 1)));
    if i + 1 < parts.len() {
        lemma_rendering_skip(parts, i + 1);
        assert(part_tokens(parts[i + 1]).skip(0) =~= part_tokens(parts[i + 1]));
    } else {
        assert(parts.skip(i + 1) =~= Seq::<PartView>::empty());
    }
}

/// Two remainders that start the same way are equal exactly when what
/// follows the common start is.
proof fn lemma_common_prefix(x: Seq<Token>, y: Seq<Token>, n: int)
    requires
        0 <= n <= x.len(),
        n <= y.len(),
        x.take(n) == y.take(n),
    ensures
        (x == y) == (x.skip(n) == y.skip(n)),
{
    assert(x =~= x.take(n) + x.skip(n));
    assert(y =~= y.take(n) + y.skip(n));
    if x.skip(n) == y.skip(n) {
        assert(x =~= y);
    }
}

/// Two sequences differing somewhere in their first `n` elements differ.
proof fn lemma_differing_prefix(x: Seq<Token>, y: Seq<Token>, n: int)
    requires
        0 <= n <= x.len(),
        n <= y.len(),
        x.take(n) != y.take(n),
    ensures
        x != y,
{
    if x == y {
        assert(x.take(n) =~= y.take(n));
    }
}

/// The UTF-8 encoding of joined text is the encodings of each joined.
proof fn lemma_encode_utf8_append(x: Seq<char>, y: Seq<char>)
    ensures
        encode_utf8(x + y) == encode_utf8(x) + encode_utf8(y),
    decreases x.len(),
{
    if x.len() > 0 {
        assert((x + y).drop_first() =~= x.drop_first() + y);
        lemma_encode_utf8_append(x.drop_first(), y);
        assert(encode_utf8(x + y) =~= encode_utf8(x) + encode_utf8(y));
    } else {
        assert(x + y =~= y);
        assert(encode_utf8(x) + encode_utf8(y) =~= encode_utf8(y));
    }
}

/// The rendering of joined parts is the renderings of each joined.
proof fn lemma_rendering_append(s1: Seq<PartView>, s2: Seq<PartView>)
    ensures
        rendering(s1 + s2) == rendering(s1) + rendering(s2),
    decreases s1.len(),
{
    if s1.len() > 0 {
        assert((s1 + s2).drop_first() =~= s1.drop_first() + s2);
        assert((s1 + s2)[0] == s1[0]);
        lemma_rendering_append(s1.drop_first(), s2);
        assert(rendering(s1 + s2) =~= rendering(s1) + rendering(s2));
    } else {
        assert(s1 + s2 =~= s2);
        assert(rendering(s1) + rendering(s2) =~= rendering(s2));
    }
}

/// Splitting a fragment of literal text into two fragments doesn't change
/// how a template renders, so the two templates are equal.
pub proof fn lemma_split_text_renders_same(
    before: Seq<PartView>,
    x: Seq<char>,
    y: Seq<char>,
    after: Seq<PartView>,
)
    ensures
        rendering(before + seq![PartView::Text(x + y)] + after) == rendering(
            before + seq![PartView::Text(x), PartView::Text(y)] + after,
        ),
{
    let one = seq![PartView::Text(x + y)];
    let two = seq![PartView::Text(x), PartView::Text(y)];
    lemma_rendering_append(before + one, after);
    lemma_rendering_append(before, one);
    lemma_rendering_append(before + two, after);
    lemma_rendering_append(before, two);
    lemma_encode_utf8_append(x, y);
    let nothing = Seq::<PartView>::empty();
    let last = seq![PartView::Text(y)];
    assert(two.drop_first() =~= last);
    assert(last.drop_first() =~= nothing);
    assert(one.drop_first() =~= nothing);
    assert(rendering(nothing) =~= Seq::<Token>::empty());
    assert(rendering(last) =~= text_tokens(encode_utf8(y)));
    assert(rendering(one) =~= text_tokens(encode_utf8(x + y)));
    assert(rendering(two) =~= text_tokens(encode_utf8(x)) + text_tokens(encode_utf8(y)));
    assert(text_tokens(encode_utf8(x) + encode_utf8(y)) =~= text_tokens(encode_utf8(x)) + text_tokens(
        encode_utf8(y),
    ));
}

/// An empty fragment of literal text doesn't change how a template renders,
/// so it can be added or removed anywhere without changing equality.
pub proof fn lemma_empty_text_renders_nothing(before: Seq<PartView>, after: Seq<PartView>)
    ensures
        rendering(before + seq![PartView::Text(Seq::empty())] + after) == rendering(before + after),
{
    let empty = seq![PartView::Text(Seq::<char>::empty())];
    lemma_rendering_append(before + empty, after);
    lemma_rendering_append(before, empty);
    lemma_rendering_append(before, after);
    assert(empty.drop_first() =~= Seq::<PartView>::empty());
    assert(rendering(Seq::<PartView>::empty()) =~= Seq::<Token>::empty());
    assert(encode_utf8(Seq::<char>::empty()) =~= Seq::<u8>::empty());
    assert(text_tokens(Seq::<u8>::empty()) =~= Seq::<Token>::empty());
    assert(rendering(empty) =~= Seq::<Token>::empty());
    assert(rendering(before) + rendering(empty) =~= rendering(before));
}

/// A part of a template.
#[derive(Debug)]
enum PartKind<'a> {
    Text { value: Str<'a> },
    Hole { label: Str<'a> },
}

/// An individual part of a template: a fragment of literal text or a hole.
#[derive(Debug)]
pub struct Part<'a>(PartKind<'a>);

impl<'a> View for Part<'a> {
    type V = PartView;

    closed spec fn view(&self) -> PartView {
        match self.0 {
            PartKind::Text { value } => PartView::Text(value@),
            PartKind::Hole { label } => PartView::Hole(label@),
        }
    }
}

/// The views of a sequence of parts.
pub open spec fn views<'a>(parts: Seq<Part<'a>>) -> Seq<PartView> {
    parts.map_values(|p: Part<'a>| p@)
}

impl Part<'static> {
    /// A fragment of literal text.
    pub fn text(text: &'static str) -> (r: Self)
        ensures
            r@ == PartView::Text(text@),
    {
        Part::text_str(Str::new(text))
    }

    /// A hole to interpolate a value into.
    pub fn hole(label: &'static str) -> (r: Self)
        ensures
            r@ == PartView::Hole(label@),
    {
        Part::hole_str(Str::new(label))
    }

    /// An owned fragment of literal text.
    pub fn text_owned(text: String) -> (r: Self)
        ensures
            r@ == PartView::Text(text@),
    {
        Part::text_str(Str::new_owned(text))
    }

    /// A hole with an owned label.
    pub fn hole_owned(label: String) -> (r: Self)
        ensures
            r@ == PartView::Hole(label@),
    {
        Part::hole_str(Str::new_owned(label))
    }
}

impl<'a> Part<'a> {
    /// A borrowed fragment of literal text.
    pub fn text_ref(text: &'a str) -> (r: Self)
        ensures
            r@ == PartView::Text(text@),
    {
        Part::text_str(Str::new_ref(text))
    }

    /// A hole with a borrowed label.
    pub fn hole_ref(label: &'a str) -> (r: Self)
        ensures
            r@ == PartView::Hole(label@),
    {
        Part::hole_str(Str::new_ref(label))
    }

    /// A fragment of literal text from a [`Str`].
    pub fn text_str(text: Str<'a>) -> (r: Self)
        ensures
            r@ == PartView::Text(text@),
    {
        Part(PartKind::Text { value: text })
    }

    /// A hole with a label from a [`Str`].
    pub fn hole_str(label: Str<'a>) -> (r: Self)
        ensures
            r@ == PartView::Hole(label@),
    {
        Part(PartKind::Hole { label })
    }

    /// The part's text, if it's literal text.
    pub fn as_text(&self) -> (r: Option<&Str<'a>>)
        ensures
            match self@ {
                PartView::Text(t) => r matches Some(s) && s@ == t,
                PartView::Hole(_) => r is None,
            },
    {
        match &self.0 {
            PartKind::Text { value } => Some(value),
            PartKind::Hole { .. } => None,
        }
    }

    /// A part borrowing its data from this one.
    pub fn by_ref<'b>(&'b self) -> (r: Part<'b>)
        ensures
            r@ == self@,
    {
        match &self.0 {
            PartKind::Text { value } => Part(PartKind::Text { value: value.by_ref() }),
            PartKind::Hole { label } => Part(PartKind::Hole { label: label.by_ref() }),
        }
    }

    /// A part owning its data.
    fn to_owned(&self) -> (r: Part<'static>)
        ensures
            r@ == self@,
    {
        match &self.0 {
            PartKind::Text { value } => Part(PartKind::Text { value: value.to_owned() }),
            PartKind::Hole { label } => Part(PartKind::Hole { label: label.to_owned() }),
        }
    }
}

/// How a template holds its parts.
#[derive(Debug)]
enum TemplateKind<'a> {
    Literal([Part<'a>; 1]),
    Parts(&'a [Part<'a>]),
    Owned(Vec<Part<'static>>),
}

/// A text template with named holes for interpolating properties into.
#[derive(Debug)]
pub struct Template<'a>(TemplateKind<'a>);

impl<'a> View for Template<'a> {
    type V = Seq<PartView>;

    closed spec fn view(&self) -> Seq<PartView> {
        match self.0 {
            TemplateKind::Literal(parts) => views(parts@),
            TemplateKind::Parts(parts) => views(parts@),
            TemplateKind::Owned(parts) => views(parts@),
        }
    }
}

impl Template<'static> {
    /// A template from a static set of parts.
    pub fn new(parts: &'static [Part<'static>]) -> (r: Self)
        ensures
            r@ == views(parts@),
    {
        Template(TemplateKind::Parts(parts))
    }

    /// A template of a single text literal with no holes.
    pub fn literal(text: &'static str) -> (r: Self)
        ensures
            r@ == seq![PartView::Text(text@)],
    {
        let r = Template(TemplateKind::Literal([Part::text(text)]));
        assert(r@ =~= seq![PartView::Text(text@)]);
        r
    }

    /// A template from a set of owned parts.
    pub fn new_owned(parts: Vec<Part<'static>>) -> (r: Self)
        ensures
            r@ == views(parts@),
    {
        Template(TemplateKind::Owned(parts))
    }
}

impl<'a> Template<'a> {
    /// A template from a borrowed set of parts.
    pub fn new_ref(parts: &'a [Part<'a>]) -> (r: Self)
        ensures
            r@ == views(parts@),
    {
        Template(TemplateKind::Parts(parts))
    }

    /// A template of a single borrowed text literal with no holes.
    pub fn literal_ref(text: &'a str) -> (r: Self)
        ensures
            r@ == seq![PartView::Text(text@)],
    {
        let r = Template(TemplateKind::Literal([Part::text_ref(text)]));
        assert(r@ =~= seq![PartView::Text(text@)]);
        r
    }

    /// The parts of the template.
    fn parts(&self) -> (r: &[Part<'a>])
        ensures
            views(r@) == self@,
    {
        match &self.0 {
            TemplateKind::Literal(parts) => parts.as_slice(),
            TemplateKind::Parts(parts) => parts,
            TemplateKind::Owned(parts) => parts.as_slice(),
        }
    }

    /// A template borrowing its data from this one.
    pub fn by_ref<'b>(&'b self) -> (r: Template<'b>)
        ensures
            r@ == self@,
    {
        match &self.0 {
            TemplateKind::Literal(parts) => {
                let r = Template(TemplateKind::Literal([parts[0].by_ref()]));
                assert(r@ =~= self@);
                r
            },
            TemplateKind::Parts(parts) => Template(TemplateKind::Parts(parts)),
            TemplateKind::Owned(parts) => Template(TemplateKind::Parts(parts.as_slice())),
        }
    }

    /// The template's text, if it's a single part of literal text.
    pub fn as_literal(&self) -> (r: Option<&Str<'a>>)
        ensures
            (self@.len() == 1 && self@[0] is Text) == r is Some,
            r matches Some(s) ==> self@[0] == PartView::Text(s@),
    {
        let parts = self.parts();
        if parts.len() == 1 {
            parts[0].as_text()
        } else {
            None
        }
    }

    /// A template owning its data.
    pub fn to_owned(&self) -> (r: Template<'static>)
        ensures
            r@ == self@,
    {
        let parts = self.parts();
        let mut dst: Vec<Part<'static>> = Vec::new();
        let mut i: usize = 0;
        while i < parts.len()
            invariant
                i <= parts@.len(),
                dst@.len() == i,
                forall|j: int| 0 <= j < i ==> dst@[j]@ == parts@[j]@,
            decreases parts@.len() - i,
        {
            dst.push(parts[i].to_owned());
            i = i + 1;
        }
        assert(views(dst@) =~= views(parts@));
        Template::new_owned(dst)
    }
}

impl<'a> Template<'a> {
    /// Lazily render the template, interpolating `props` into its holes.
    pub fn render<'b, P>(&'b self, props: P) -> (r: Render<'b, P>)
        ensures
            r.spec_template() == self@,
            r.spec_props() == props,
    {
        Render { tpl: self.by_ref(), props }
    }
}

/// What a part of a rendered template becomes.
pub enum FragmentView<V> {
    /// Literal text.
    Text(Seq<char>),
    /// A hole, by its label, with the value of the matching property.
    Value(Seq<char>, V),
    /// A hole, by its label, with no matching property.
    Missing(Seq<char>),
}

/// What `part` becomes when rendered with the properties `props`: text
/// stays text, and a hole takes the first value of the property matching
/// its label, if there is one.
pub open spec fn fragment<V>(part: PartView, props: Seq<(Seq<char>, V)>) -> FragmentView<V> {
    match part {
        PartView::Text(t) => FragmentView::Text(t),
        PartView::Hole(label) => match find_first(props, label) {
            Some(v) => FragmentView::Value(label, v),
            None => FragmentView::Missing(label),
        },
    }
}

/// A part of a rendered template, to be written out.
pub enum Fragment<'b, V> {
    /// Literal text.
    Text(&'b str),
    /// A hole with the value of the matching property.
    Value { label: &'b str, value: &'b V },
    /// A hole with no matching property.
    Missing(&'b str),
}

impl<'b, V> Fragment<'b, V> {
    /// What the fragment is.
    pub open spec fn view_fragment(&self) -> FragmentView<V> {
        match self {
            Fragment::Text(t) => FragmentView::Text(t@),
            Fragment::Value { label, value } => FragmentView::Value(label@, **value),
            Fragment::Missing(label) => FragmentView::Missing(label@),
        }
    }
}

/// A template together with the properties to interpolate into it.
pub struct Render<'a, P> {
    tpl: Template<'a>,
    props: P,
}

impl<'a, P> Render<'a, P> {
    /// The parts of the template.
    pub closed spec fn spec_template(&self) -> Seq<PartView> {
        self.tpl@
    }

    /// The properties interpolated.
    pub closed spec fn spec_props(&self) -> P {
        self.props
    }

    /// Interpolate other properties instead.
    pub fn with_props<U>(self, props: U) -> (r: Render<'a, U>)
        ensures
            r.spec_template() == self.spec_template(),
            r.spec_props() == props,
    {
        Render { tpl: self.tpl, props }
    }

    /// The template's text, if it's a single part of literal text.
    pub fn as_literal(&self) -> (r: Option<&Str<'a>>)
        ensures
            (self.spec_template().len() == 1 && self.spec_template()[0] is Text) == r is Some,
            r matches Some(s) ==> self.spec_template()[0] == PartView::Text(s@),
    {
        self.tpl.as_literal()
    }

    /// The fragments to write, one for each part of the template in order:
    /// text as it is, and each hole with the first value of the property
    /// matching its label, or as missing if there's none.
    pub fn fragments<V>(&self) -> (r: Vec<Fragment<'_, V>>)
        where
            P: Props<V>,
        requires
            self.spec_props().spec_props().len() <= usize::MAX,
        ensures
            r@.len() == self.spec_template().len(),
            forall|i: int|
                0 <= i < r@.len() ==> (#[trigger] r@[i]).view_fragment() == fragment(
                    self.spec_template()[i],
                    self.spec_props().spec_props(),
                ),
    {
        let parts = self.tpl.parts();
        let mut out: Vec<Fragment<'_, V>> = Vec::new();
        let mut i: usize = 0;
        while i < parts.len()
            invariant
                i <= parts@.len(),
                views(parts@) == self.spec_template(),
                self.spec_props().spec_props().len() <= usize::MAX,
                out@.len() == i,
                forall|k: int|
                    0 <= k < i ==> (#[trigger] out@[k]).view_fragment() == fragment(
                        self.spec_template()[k],
                        self.spec_props().spec_props(),
                    ),
            decreases parts@.len() - i,
        {
            let f = match &parts[i].0 {
                PartKind::Text { value } => Fragment::Text(value.get()),
                PartKind::Hole { label } => {
                    let label = label.get();
                    match self.props.get(label) {
                        Some(value) => Fragment::Value { label, value },
                        None => Fragment::Missing(label),
                    }
                },
            };
            assert(views(parts@)[i as int] == parts@[i as int]@);
            out.push(f);
            i = i + 1;
        }
        out
    }
}

/// Whether `a[ai..ai + len]` and `b[bi..bi + len]` hold the same bytes.
fn bytes_range_eq(a: &[u8], ai: usize, b: &[u8], bi: usize, len: usize) -> (r: bool)
    requires
        ai + len <= a@.len(),
        bi + len <= b@.len(),
    ensures
        r == (a@.subrange(ai as int, ai + len) == b@.subrange(bi as int, bi + len)),
{
    let mut k: usize = 0;
    while k < len
        invariant
            k <= len,
            ai + len <= a.len(),
            bi + len <= b.len(),
            forall|j: int| 0 <= j < k ==> #[trigger] a@[ai + j] == b@[bi + j],
        decreases len - k,
    {
        if a[ai + k] != b[bi + k] {
            assert(a@.subrange(ai as int, ai + len)[k as int] != b@.subrange(bi as int, bi + len)[k as int]);
            return false;
        }
        k = k + 1;
    }
    assert forall|j: int| 0 <= j < len implies #[trigger] a@.subrange(ai as int, ai + len)[j]
        == b@.subrange(bi as int, bi + len)[j] by {
        assert(a@[ai + j] == b@[bi + j]);
    }
    assert(a@.subrange(ai as int, ai + len) =~= b@.subrange(bi as int, bi + len));
    true
}

/// Comparing `len` bytes of two text parts from their offsets compares the
/// first `len` tokens of what remains of each rendering.
proof fn lemma_text_window(
    av: Seq<PartView>,
    ai: int,
    ati: int,
    x: Seq<u8>,
    bv: Seq<PartView>,
    bi: int,
    bti: int,
    y: Seq<u8>,
    len: int,
)
    requires
        0 <= ai < av.len(),
        0 <= bi < bv.len(),
        av[ai] matches PartView::Text(t) && encode_utf8(t) == x,
        bv[bi] matches PartView::Text(t) && encode_utf8(t) == y,
        0 <= ati,
        0 <= bti,
        0 <= len,
        ati + len <= x.len(),
        bti + len <= y.len(),
    ensures
        (x.subrange(ati, ati + len) == y.subrange(bti, bti + len)) == (rest(av, ai, ati).take(len) == rest(
            bv,
            bi,
            bti,
        ).take(len)),
        rest(av, ai, ati).len() >= len,
        rest(bv, bi, bti).len() >= len,
        rest(av, ai, ati).skip(len) == rest(av, ai, ati + len),
        rest(bv, bi, bti).skip(len) == rest(bv, bi, bti + len),
{
    let ra = rest(av, ai, ati);
    let rb = rest(bv, bi, bti);
    let xs = x.subrange(ati, ati + len);
    let ys = y.subrange(bti, bti + len);
    assert(ra.take(len) =~= text_tokens(xs));
    assert(rb.take(len) =~= text_tokens(ys));
    assert(ra.skip(len) =~= rest(av, ai, ati + len));
    assert(rb.skip(len) =~= rest(bv, bi, bti + len));
    if xs == ys {
        assert(text_tokens(xs) == text_tokens(ys));
    } else {
        if text_tokens(xs) == text_tokens(ys) {
            assert forall|j: int| 0 <= j < len implies xs[j] == ys[j] by {
                assert(text_tokens(xs)[j] == text_tokens(ys)[j]);
            }
            assert(xs =~= ys);
        }
    }
}

/// Whether two templates render the same: the same holes in the same
/// positions, with the same text around them, however it's split into parts.
fn parts_eq<'a, 'b>(a: &[Part<'a>], b: &[Part<'b>]) -> (r: bool)
    ensures
        r == (rendering(views(a@)) == rendering(views(b@))),
{
    let ghost av = views(a@);
    let ghost bv = views(b@);
    let mut ai: usize = 0;
    let mut ati: usize = 0;
    let mut bi: usize = 0;
    let mut bti: usize = 0;
    proof {
        lemma_rest_start(av);
        lemma_rest_start(bv);
    }
    while ai < a.len() || bi < b.len()
        invariant
            av == views(a@),
            bv == views(b@),
            ai <= a@.len(),
            bi <= b@.len(),
            ai < a@.len() ==> ati <= part_tokens(av[ai as int]).len(),
            bi < b@.len() ==> bti <= part_tokens(bv[bi as int]).len(),
            ai < a@.len() && av[ai as int] is Hole ==> ati == 0,
            bi < b@.len() && bv[bi as int] is Hole ==> bti == 0,
            (rendering(av) == rendering(bv)) == (rest(av, ai as int, ati as int) == rest(
                bv,
                bi as int,
                bti as int,
            )),
        decreases a@.len() - ai + b@.len() - bi,
    {
        // Skip past text whose bytes are all compared.
        if ai < a.len() {
            if let PartKind::Text { value } = &a[ai].0 {
                if ati == value.get().as_bytes().len() {
                    proof {
                        lemma_rest_next_part(av, ai as int);
                    }
                    ai = ai + 1;
                    ati = 0;
                    continue;
                }
            }
        }
        if bi < b.len() {
            if let PartKind::Text { value } = &b[bi].0 {
                if bti == value.get().as_bytes().len() {
                    proof {
                        lemma_rest_next_part(bv, bi as int);
                    }
                    bi = bi + 1;
                    bti = 0;
                    continue;
                }
            }
        }
        // One side is done: the other has a hole or unseen text left.
        if ai == a.len() || bi == b.len() {
            proof {
                if ai < a@.len() {
                    assert(rest(av, ai as int, ati as int).len() > 0);
                }
                if bi < b@.len() {
                    assert(rest(bv, bi as int, bti as int).len() > 0);
                }
            }
            return ai == a.len() && bi == b.len();
        }
        match (&a[ai].0, &b[bi].0) {
            (PartKind::Text { value: va }, PartKind::Text { value: vb }) => {
                let x = va.get().as_bytes();
                let y = vb.get().as_bytes();
                let ra = x.len() - ati;
                let rb = y.len() - bti;
                let len = if ra < rb {
                    ra
                } else {
                    rb
                };
                proof {
                    lemma_text_window(
                        av,
                        ai as int,
                        ati as int,
                        x@,
                        bv,
                        bi as int,
                        bti as int,
                        y@,
                        len as int,
                    );
                }
                if !bytes_range_eq(x, ati, y, bti, len) {
                    proof {
                        lemma_differing_prefix(
                            rest(av, ai as int, ati as int),
                            rest(bv, bi as int, bti as int),
                            len as int,
                        );
                    }
                    return false;
                }
                proof {
                    lemma_common_prefix(
                        rest(av, ai as int, ati as int),
                        rest(bv, bi as int, bti as int),
                        len as int,
                    );
                }
                ati = ati + len;
                bti = bti + len;
                if ati == x.len() {
                    proof {
                        lemma_rest_next_part(av, ai as int);
                    }
                    ai = ai + 1;
                    ati = 0;
                }
                if bti == y.len() {
                    proof {
                        lemma_rest_next_part(bv, bi as int);
                    }
                    bi = bi + 1;
                    bti = 0;
                }
            },
            (PartKind::Hole { label: la }, PartKind::Hole { label: lb }) => {
                let ghost ra = rest(av, ai as int, ati as int);
                let ghost rb = rest(bv, bi as int, bti as int);
                proof {
                    assert(ra[0] == Token::Hole(la@));
                    assert(rb[0] == Token::Hole(lb@));
                }
                if !crate::text::str_eq(la.get(), lb.get()) {
                    proof {
                        assert(ra[0] != rb[0]);
                    }
                    return false;
                }
                proof {
                    assert(ra.take(1) =~= rb.take(1));
                    lemma_common_prefix(ra, rb, 1);
                    assert(ra.skip(1) =~= rest(av, ai as int, 1));
                    assert(rb.skip(1) =~= rest(bv, bi as int, 1));
                    lemma_rest_next_part(av, ai as int);
                    lemma_rest_next_part(bv, bi as int);
                }
                ai = ai + 1;
                bi = bi + 1;
            },
            _ => {
                proof {
                    let ra = rest(av, ai as int, ati as int);
                    let rb = rest(bv, bi as int, bti as int);
                    assert(ra.len() > 0 && rb.len() > 0);
                    assert(ra[0] is Byte != rb[0] is Byte);
                }
                return false;
            },
        }
    }
    proof {
        assert(rest(av, ai as int, ati as int) =~= Seq::<Token>::empty());
        assert(rest(bv, bi as int, bti as int) =~= Seq::<Token>::empty());
    }
    true
}

impl<'a> PartialEq for Template<'a> {
    fn eq(&self, other: &Template<'a>) -> (r: bool) {
        parts_eq(self.parts(), other.parts())
    }
}

impl<'a> vstd::std_specs::cmp::PartialEqSpecImpl for Template<'a> {
    open spec fn obeys_eq_spec() -> bool {
        true
    }

    open spec fn eq_spec(&self, other: &Template<'a>) -> bool {
        rendering(self@) == rendering(other@)
    }
}

impl<'a> Eq for Template<'a> {}

} // verus!
