//! Two ways for a trait to speak of the type it holds: an associated type,
//! fixed once per implementation, and a type parameter of the trait.

use vstd::prelude::*;

verus! {

/// A holder whose item type is fixed by each implementation.
pub trait Container {
    type Item;

    /// The item held.
    spec fn item(&self) -> Self::Item;

    fn get(&self) -> (r: &Self::Item)
        ensures
            *r == self.item(),
    ;

    fn set(&mut self, item: Self::Item)
        ensures
            final(self).item() == item,
    ;
}

/// Holds one value.
pub struct Box<T> {
    pub value: T,
}

impl<T> Container for Box<T> {
    type Item = T;

    open spec fn item(&self) -> T {
        self.value
    }

    fn get(&self) -> (r: &T) {
        &self.value
    }

    fn set(&mut self, item: T) {
        self.value = item;
    }
}

/// A holder for items of the type that the trait is instantiated with.
pub trait Storage<T> {
    /// The item held.
    spec fn stored(&self) -> T;

    fn store(&mut self, item: T)
        ensures
            final(self).stored() == item,
    ;

    fn retrieve(&self) -> (r: &T)
        ensures
            *r == self.stored(),
    ;
}

/// Holds one item.
pub struct Shelf<T> {
    pub item: T,
}

impl<T> Storage<T> for Shelf<T> {
    open spec fn stored(&self) -> T {
        self.item
    }

    fn store(&mut self, item: T) {
        self.item = item;
    }

    fn retrieve(&self) -> (r: &T) {
        &self.item
    }
}

} // verus!
