//! The key of a property: a string that may be static, borrowed or owned.

use vstd::prelude::*;
use std::borrow::Cow;
use crate::text::str_eq;

verus! {

enum KeyValue<'k> {
    Static(&'static str),
    Borrowed(&'k str),
    Owned(String),
}

/// The key of a property.
pub struct Key<'k> {
    value: KeyValue<'k>,
}

impl<'k> View for Key<'k> {
    type V = Seq<char>;

    closed spec fn view(&self) -> Seq<char> {
        match self.value {
            KeyValue::Static(s) => s@,
            KeyValue::Borrowed(s) => s@,
            KeyValue::Owned(s) => s@,
        }
    }
}

impl<'k> Key<'k> {
    /// Whether the key holds a `'static` string.
    pub closed spec fn is_static(&self) -> bool {
        self.value is Static
    }
}

impl Key<'static> {
    /// Create a key from a `'static` value.
    pub fn new(k: &'static str) -> (r: Self)
        ensures
            r@ == k@,
            r.is_static(),
    {
        Key { value: KeyValue::Static(k) }
    }

    /// Create a key from an owned value.
    pub fn new_owned(key: String) -> (r: Self)
        ensures
            r@ == key@,
            !r.is_static(),
    {
        Key { value: KeyValue::Owned(key) }
    }
}

impl<'k> Key<'k> {
    /// Create a key from a borrowed value.
    ///
    /// [`Key::new`] should be preferred where possible.
    pub fn new_ref(k: &'k str) -> (r: Key<'k>)
        ensures
            r@ == k@,
            !r.is_static(),
    {
        Key { value: KeyValue::Borrowed(k) }
    }

    /// Get a key borrowing from this one; a `'static` key stays `'static`.
    pub fn by_ref<'b>(&'b self) -> (r: Key<'b>)
        ensures
            r@ == self@,
            r.is_static() == self.is_static(),
    {
        match &self.value {
            KeyValue::Static(s) => Key { value: KeyValue::Static(s) },
            KeyValue::Borrowed(s) => Key { value: KeyValue::Borrowed(s) },
            KeyValue::Owned(s) => Key { value: KeyValue::Borrowed(s.as_str()) },
        }
    }

    /// The characters of the key.
    pub fn as_str(&self) -> (r: &str)
        ensures
            r@ == self@,
    {
        match &self.value {
            KeyValue::Static(s) => s,
            KeyValue::Borrowed(s) => s,
            KeyValue::Owned(s) => s.as_str(),
        }
    }

    /// The key as a `'static` string, if it is one.
    pub fn as_static_str(&self) -> (r: Option<&'static str>)
        ensures
            r is Some == self.is_static(),
            r matches Some(s) ==> s@ == self@,
    {
        match &self.value {
            KeyValue::Static(s) => Some(*s),
            _ => None,
        }
    }

    /// Create a key from a potentially owned value.
    pub fn new_cow_ref(key: Cow<'k, str>) -> (r: Self)
        ensures
            r@ == key@,
            !r.is_static(),
    {
        match key {
            Cow::Borrowed(key) => Key::new_ref(key),
            Cow::Owned(key) => Key { value: KeyValue::Owned(key) },
        }
    }

    /// The key as a potentially owned string: borrowed when it's `'static`,
    /// otherwise an owned copy.
    pub fn to_cow(&self) -> (r: Cow<'static, str>)
        ensures
            r@ == self@,
            r is Borrowed == self.is_static(),
    {
        match &self.value {
            KeyValue::Static(key) => Cow::Borrowed(*key),
            _ => Cow::Owned(self.as_str().to_owned()),
        }
    }

    /// A `'static` copy of the key: a `'static` key is kept as it is,
    /// anything else is copied into an owned value.
    pub fn to_owned(&self) -> (r: Key<'static>)
        ensures
            r@ == self@,
            r.is_static() == self.is_static(),
    {
        match &self.value {
            KeyValue::Static(key) => Key::new(key),
            _ => Key::new_owned(self.as_str().to_owned()),
        }
    }
}

impl<'k> Clone for Key<'k> {
    fn clone(&self) -> (r: Self)
        ensures
            r@ == self@,
            r.is_static() == self.is_static(),
    {
        match &self.value {
            KeyValue::Static(s) => Key { value: KeyValue::Static(s) },
            KeyValue::Borrowed(s) => Key { value: KeyValue::Borrowed(s) },
            KeyValue::Owned(s) => Key { value: KeyValue::Owned(s.clone()) },
        }
    }
}

impl<'a> PartialEq for Key<'a> {
    fn eq(&self, other: &Key<'a>) -> (r: bool) {
        str_eq(self.as_str(), other.as_str())
    }
}

impl<'a> vstd::std_specs::cmp::PartialEqSpecImpl for Key<'a> {
    open spec fn obeys_eq_spec() -> bool {
        true
    }

    open spec fn eq_spec(&self, other: &Key<'a>) -> bool {
        self@ == other@
    }
}

impl<'a> Eq for Key<'a> {}

/// Convert a value into a [`Key`].
pub trait ToKey {
    /// Perform the conversion.
    fn to_key(&self) -> Key<'_>;
}

impl<'a, T: ToKey> ToKey for &'a T {
    /// The conversion of the referenced value.
    fn to_key(&self) -> (r: Key<'_>)
        ensures
            call_ensures(T::to_key, (*self,), r),
    {
        (**self).to_key()
    }
}

impl<'k> ToKey for Key<'k> {
    fn to_key(&self) -> (r: Key<'_>)
        ensures
            r@ == self@,
    {
        self.by_ref()
    }
}

impl ToKey for String {
    fn to_key(&self) -> (r: Key<'_>)
        ensures
            r@ == self@,
    {
        Key::new_ref(self.as_str())
    }
}

} // verus!
