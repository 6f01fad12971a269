//! Functions and types whose lifetime, type and const parameters come in
//! different orders; the order changes nothing in what they do.

use vstd::prelude::*;

verus! {

/// A borrowed value.
pub struct Container<'a, T> {
    pub value: &'a T,
}

/// A borrowed value; the same shape as `Container`.
pub struct ContainerAlt<'a, T> {
    pub value: &'a T,
}

/// Accepts a borrowed container and leaves it as it is.
pub fn process<'a, T>(_container: &'a Container<'a, T>) {
}

/// Accepts a borrowed container and leaves it as it is.
pub fn process_alt<'a, T>(_container: &'a ContainerAlt<'a, T>) {
}

/// Pairs two borrowed values, each keeping its own lifetime.
pub fn combine<'a, 'b, T>(a: &'a T, b: &'b T) -> (r: (&'a T, &'b T))
    ensures
        *r.0 == *a,
        *r.1 == *b,
{
    (a, b)
}

/// Pairs two borrowed values, each keeping its own lifetime.
pub fn combine_alt<'b, 'a, T>(a: &'a T, b: &'b T) -> (r: (&'a T, &'b T))
    ensures
        *r.0 == *a,
        *r.1 == *b,
{
    (a, b)
}

/// An array of `N` copies of the type's default value.
pub fn create_array<T, const N: usize>() -> (r: [T; N]) where T: Default + Copy
    ensures
        forall|i: int| 0 <= i < N ==> call_ensures(T::default, (), #[trigger] r@[i]),
        forall|i: int| 0 <= i < N ==> #[trigger] r@[i] == r@[0],
{
    let d = T::default();
    [d; N]
}

/// An array of `N` copies of the type's default value.
pub fn create_array_alt<const N: usize, T>() -> (r: [T; N]) where T: Default + Copy
    ensures
        forall|i: int| 0 <= i < N ==> call_ensures(T::default, (), #[trigger] r@[i]),
        forall|i: int| 0 <= i < N ==> #[trigger] r@[i] == r@[0],
{
    let d = T::default();
    [d; N]
}

} // verus!
