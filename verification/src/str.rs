//! A string value that may be static, borrowed, owned or shared.

use vstd::prelude::*;
use std::borrow::Cow;
use std::sync::Arc;
use crate::text::str_eq;

verus! {

/// Calls `Arc::clone`, which gives another pointer to the same value.
#[verifier::external_body]
fn arc_string_clone(a: &Arc<String>) -> (r: Arc<String>)
    ensures
        r@ == a@,
{
    a.clone()
}

/// How a [`Str`] holds its characters.
pub enum StrKind {
    /// A `'static` borrow.
    Static,
    /// A borrow for a shorter lifetime.
    Borrowed,
    /// An owned copy.
    Owned,
    /// A reference-counted copy.
    Shared,
}

#[derive(Debug)]
enum StrValue<'k> {
    Static(&'static str),
    Borrowed(&'k str),
    Owned(String),
    Shared(Arc<String>),
}

/// A string value that may be static, borrowed, owned or shared.
#[derive(Debug)]
pub struct Str<'k> {
    value: StrValue<'k>,
}

impl<'k> View for Str<'k> {
    type V = Seq<char>;

    closed spec fn view(&self) -> Seq<char> {
        match self.value {
            StrValue::Static(s) => s@,
            StrValue::Borrowed(s) => s@,
            StrValue::Owned(s) => s@,
            StrValue::Shared(s) => s@,
        }
    }
}

impl<'k> Str<'k> {
    /// How the value holds its characters.
    pub closed spec fn kind(&self) -> StrKind {
        match self.value {
            StrValue::Static(_) => StrKind::Static,
            StrValue::Borrowed(_) => StrKind::Borrowed,
            StrValue::Owned(_) => StrKind::Owned,
            StrValue::Shared(_) => StrKind::Shared,
        }
    }
}

impl Str<'static> {
    /// Create a string from a `'static` value.
    pub fn new(k: &'static str) -> (r: Self)
        ensures
            r@ == k@,
            r.kind() == StrKind::Static,
    {
        Str { value: StrValue::Static(k) }
    }

    /// Create a string from an owned value.
    pub fn new_owned(key: String) -> (r: Self)
        ensures
            r@ == key@,
            r.kind() == StrKind::Owned,
    {
        Str { value: StrValue::Owned(key) }
    }

    /// Create a string from a value that will be shared by reference counting.
    pub fn new_shared(key: String) -> (r: Self)
        ensures
            r@ == key@,
            r.kind() == StrKind::Shared,
    {
        Str { value: StrValue::Shared(Arc::new(key)) }
    }
}

impl<'k> Str<'k> {
    /// Create a string from a borrowed value.
    ///
    /// [`Str::new`] should be preferred where possible.
    pub fn new_ref(k: &'k str) -> (r: Str<'k>)
        ensures
            r@ == k@,
            r.kind() == StrKind::Borrowed,
    {
        Str { value: StrValue::Borrowed(k) }
    }

    /// Get a string borrowing from this one; a `'static` value stays `'static`.
    pub fn by_ref<'b>(&'b self) -> (r: Str<'b>)
        ensures
            r@ == self@,
            r.kind() == (if self.kind() == StrKind::Static {
                StrKind::Static
            } else {
                StrKind::Borrowed
            }),
    {
        match &self.value {
            StrValue::Static(s) => Str { value: StrValue::Static(s) },
            StrValue::Borrowed(s) => Str { value: StrValue::Borrowed(s) },
            StrValue::Owned(s) => Str { value: StrValue::Borrowed(s.as_str()) },
            StrValue::Shared(s) => Str { value: StrValue::Borrowed(s.as_str()) },
        }
    }

    /// The characters of the value.
    pub fn get(&self) -> (r: &str)
        ensures
            r@ == self@,
    {
        match &self.value {
            StrValue::Static(s) => s,
            StrValue::Borrowed(s) => s,
            StrValue::Owned(s) => s.as_str(),
            StrValue::Shared(s) => s.as_str(),
        }
    }

    /// The value as a `'static` string, if it is one.
    pub fn get_static(&self) -> (r: Option<&'static str>)
        ensures
            r is Some == (self.kind() == StrKind::Static),
            r matches Some(s) ==> s@ == self@,
    {
        match &self.value {
            StrValue::Static(s) => Some(*s),
            _ => None,
        }
    }

    /// Create a string from a potentially owned value: a borrow stays
    /// borrowed, an owned value is owned.
    pub fn new_cow_ref(key: Cow<'k, str>) -> (r: Self)
        ensures
            r@ == key@,
            r.kind() == (match key {
                Cow::Borrowed(_) => StrKind::Borrowed,
                Cow::Owned(_) => StrKind::Owned,
            }),
    {
        match key {
            Cow::Borrowed(key) => Str::new_ref(key),
            Cow::Owned(key) => Str { value: StrValue::Owned(key) },
        }
    }

    /// The value as a potentially owned string: borrowed when it's `'static`,
    /// otherwise an owned copy.
    pub fn to_cow(&self) -> (r: Cow<'static, str>)
        ensures
            r@ == self@,
            r is Borrowed == (self.kind() == StrKind::Static),
    {
        match &self.value {
            StrValue::Static(key) => Cow::Borrowed(*key),
            _ => Cow::Owned(self.get().to_owned()),
        }
    }

    /// A `'static` copy of the value: a `'static` or shared value is kept as
    /// it is, anything else is copied into an owned value.
    pub fn to_owned(&self) -> (r: Str<'static>)
        ensures
            r@ == self@,
            r.kind() == (match self.kind() {
                StrKind::Borrowed => StrKind::Owned,
                k => k,
            }),
    {
        match &self.value {
            StrValue::Static(s) => Str::new(s),
            StrValue::Owned(s) => Str::new_owned(s.clone()),
            StrValue::Shared(s) => Str { value: StrValue::Shared(arc_string_clone(s)) },
            StrValue::Borrowed(s) => Str::new_owned((*s).to_owned()),
        }
    }

    /// A `'static` copy of the value that is cheap to clone: a `'static`
    /// value is kept as it is, anything else becomes shared.
    pub fn to_shared(&self) -> (r: Str<'static>)
        ensures
            r@ == self@,
            r.kind() == (if self.kind() == StrKind::Static {
                StrKind::Static
            } else {
                StrKind::Shared
            }),
    {
        match &self.value {
            StrValue::Static(s) => Str::new(s),
            StrValue::Shared(s) => Str { value: StrValue::Shared(arc_string_clone(s)) },
            StrValue::Owned(s) => Str::new_shared(s.clone()),
            StrValue::Borrowed(s) => Str::new_shared((*s).to_owned()),
        }
    }
}

impl<'k> Clone for Str<'k> {
    fn clone(&self) -> (r: Self)
        ensures
            r@ == self@,
            r.kind() == self.kind(),
    {
        match &self.value {
            StrValue::Static(s) => Str { value: StrValue::Static(s) },
            StrValue::Borrowed(s) => Str { value: StrValue::Borrowed(s) },
            StrValue::Owned(s) => Str { value: StrValue::Owned(s.clone()) },
            StrValue::Shared(s) => Str { value: StrValue::Shared(arc_string_clone(s)) },
        }
    }
}

impl<'a> PartialEq for Str<'a> {
    fn eq(&self, other: &Str<'a>) -> (r: bool) {
        str_eq(self.get(), other.get())
    }
}

impl<'a> vstd::std_specs::cmp::PartialEqSpecImpl for Str<'a> {
    open spec fn obeys_eq_spec() -> bool {
        true
    }

    open spec fn eq_spec(&self, other: &Str<'a>) -> bool {
        self@ == other@
    }
}

impl<'a> Eq for Str<'a> {}

/// Convert a value into a [`Str`].
pub trait ToStr {
    /// Perform the conversion.
    fn to_str(&self) -> Str<'_>;
}

impl<'a, T: ToStr> ToStr for &'a T {
    /// The conversion of the referenced value.
    fn to_str(&self) -> (r: Str<'_>)
        ensures
            call_ensures(T::to_str, (*self,), r),
    {
        (**self).to_str()
    }
}

impl<'k> ToStr for Str<'k> {
    fn to_str(&self) -> (r: Str<'_>)
        ensures
            r@ == self@,
    {
        self.by_ref()
    }
}

impl ToStr for String {
    fn to_str(&self) -> (r: Str<'_>)
        ensures
            r@ == self@,
    {
        Str::new_ref(self.as_str())
    }
}

} // verus!
