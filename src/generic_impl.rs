//! A container generic over what it holds, with methods that every
//! instantiation has and methods that only the text instantiations have, beside
//! a container that holds text only.

use vstd::prelude::*;
use vstd::std_specs::convert::FromSpec;

verus! {

/// The upper-case form of a text, by the Unicode rules that std applies.
pub uninterp spec fn upper_of(s: Seq<char>) -> Seq<char>;

/// Relies on `str::to_uppercase`: the result depends on the characters alone,
/// and an empty text stays empty.
#[verifier::external_body]
fn uppercase(s: &str) -> (r: String)
    ensures
        r@ == upper_of(s@),
        s@.len() == 0 ==> r@.len() == 0,
{
    s.to_uppercase()
}

/// Holds one value of any type.
pub struct Container<T> {
    value: T,
}

impl<T> Container<T> {
    /// The value held.
    pub closed spec fn held(&self) -> T {
        self.value
    }

    pub fn new(value: T) -> (r: Self)
        ensures
            r.held() == value,
    {
        Container { value }
    }

    pub fn get(&self) -> (r: &T)
        ensures
            *r == self.held(),
    {
        &self.value
    }

    /// Moves the value into a container of another type through `From`.
    pub fn convert<U: From<T>>(self) -> (r: Container<U>)
        ensures
            call_ensures(U::from, (self.held(),), r.held()),
            U::obeys_from_spec() ==> r.held() == U::from_spec(self.held()),
    {
        Container { value: U::from(self.value) }
    }
}

impl<'a> Container<&'a str> {
    /// The length of the text held, in bytes of its UTF-8 encoding.
    pub fn len(&self) -> (r: usize)
        ensures
            r == vstd::utf8::encode_utf8(self.held()@).len() as usize,
    {
        self.value.len()
    }
}

impl Container<String> {
    /// The length of the text held, in bytes of its UTF-8 encoding.
    pub fn len(&self) -> (r: usize)
        ensures
            r == vstd::utf8::encode_utf8(self.held()@).len() as usize,
    {
        self.value.as_str().len()
    }

    /// The length of the text held, in bytes of its UTF-8 encoding.
    pub fn string_length(&self) -> (r: usize)
        ensures
            r == vstd::utf8::encode_utf8(self.held()@).len() as usize,
    {
        self.value.as_str().len()
    }
}

/// Holds one text.
pub struct StringContainer {
    value: String,
}

impl View for StringContainer {
    type V = Seq<char>;

    closed spec fn view(&self) -> Seq<char> {
        self.value@
    }
}

impl StringContainer {
    pub fn new(value: String) -> (r: Self)
        ensures
            r@ == value@,
    {
        StringContainer { value }
    }

    pub fn get_value(&self) -> (r: &String)
        ensures
            r@ == self@,
    {
        &self.value
    }

    /// The length of the text, in bytes of its UTF-8 encoding.
    pub fn string_length(&self) -> (r: usize)
        ensures
            r == vstd::utf8::encode_utf8(self@).len() as usize,
    {
        self.value.as_str().len()
    }

    /// The text in upper case.
    pub fn to_uppercase(&self) -> (r: String)
        ensures
            r@ == upper_of(self@),
    {
        uppercase(self.value.as_str())
    }
}

} // verus!
