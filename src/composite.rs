//! A text rendering defined once on a value type and forwarded by the
//! ownership wrappers around it, each of which adds its own prefix.

use std::sync::Arc;
use vstd::prelude::*;

use crate::decimal::{decimal, push_decimal};

verus! {

/// Types with a text rendering.
pub trait Stringify {
    /// The rendering, as text.
    spec fn text(&self) -> Seq<char>;

    fn to_string(&self) -> (r: String)
        ensures
            r@ == self.text(),
    ;
}

/// A person with a name and an age in years.
pub struct Person {
    pub name: String,
    pub age: u32,
}

/// "{name} is {age} years old".
pub open spec fn person_text(p: Person) -> Seq<char> {
    p.name@ + " is "@ + decimal(p.age as nat) + " years old"@
}

impl Person {
    pub fn new(name: String, age: u32) -> (r: Self)
        ensures
            r.name@ == name@,
            r.age == age,
    {
        Person { name, age }
    }
}

impl Stringify for Person {
    open spec fn text(&self) -> Seq<char> {
        person_text(*self)
    }

    fn to_string(&self) -> (r: String) {
        let mut r = String::from_str(self.name.as_str());
        r.append(" is ");
        push_decimal(&mut r, self.age);
        r.append(" years old");
        r
    }
}

impl Stringify for Arc<Person> {
    open spec fn text(&self) -> Seq<char> {
        "(Arc) "@ + person_text(**self)
    }

    fn to_string(&self) -> (r: String) {
        let inner: &Person = &**self;
        String::from_str("(Arc) ").concat(inner.to_string().as_str())
    }
}

impl Stringify for Box<Person> {
    open spec fn text(&self) -> Seq<char> {
        "(Box) "@ + person_text(**self)
    }

    fn to_string(&self) -> (r: String) {
        let inner: &Person = &**self;
        String::from_str("(Box) ").concat(inner.to_string().as_str())
    }
}

/// A wrapper of the library's own around any renderable value.
pub struct Wrapper<T> {
    pub inner: T,
}

impl<T> Wrapper<T> {
    pub fn new(inner: T) -> (r: Self)
        ensures
            r.inner == inner,
    {
        Wrapper { inner }
    }
}

impl<T: Stringify> Stringify for Wrapper<T> {
    open spec fn text(&self) -> Seq<char> {
        "(Wrapper) "@ + self.inner.text()
    }

    fn to_string(&self) -> (r: String) {
        String::from_str("(Wrapper) ").concat(self.inner.to_string().as_str())
    }
}

} // verus!
