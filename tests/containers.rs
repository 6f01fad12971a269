use rust_idioms::generic_impl::{Container, StringContainer};
use rust_idioms::generic_traits::{Box, Container as Holder, Shelf, Storage};
use rust_idioms::parameter_order::{
    combine, combine_alt, create_array, create_array_alt, process, process_alt, ContainerAlt,
    Container as Borrowed,
};

#[test]
fn generic_container_holds_a_number() {
    let c = Container::new(42);
    assert_eq!(*c.get(), 42);
}

#[test]
fn generic_container_holds_text() {
    let c = Container::new("hello".to_string());
    assert_eq!(c.get(), "hello");
    assert_eq!(c.len(), 5);
    assert_eq!(c.string_length(), 5);
    let s = Container::new("héllo");
    assert_eq!(s.len(), 6);
}

#[test]
fn generic_container_converts() {
    let c: Container<u8> = Container::new(200u8);
    let wide: Container<u32> = c.convert();
    assert_eq!(*wide.get(), 200u32);
    let text: Container<String> = Container::new("abc").convert();
    assert_eq!(text.get(), "abc");
}

#[test]
fn string_container_methods() {
    let c = StringContainer::new("world".to_string());
    assert_eq!(c.get_value(), "world");
    assert_eq!(c.string_length(), 5);
    assert_eq!(c.to_uppercase(), "WORLD");
}

#[test]
fn uppercase_of_non_ascii_and_empty() {
    assert_eq!(StringContainer::new("straße".to_string()).to_uppercase(), "STRASSE");
    assert_eq!(StringContainer::new(String::new()).to_uppercase(), "");
}

#[test]
fn box_get_and_set() {
    let mut b = Box { value: 42 };
    assert_eq!(*b.get(), 42);
    b.set(100);
    assert_eq!(*b.get(), 100);
}

#[test]
fn shelf_store_and_retrieve() {
    let mut shelf = Shelf { item: "book" };
    assert_eq!(*shelf.retrieve(), "book");
    shelf.store("magazine");
    assert_eq!(*shelf.retrieve(), "magazine");
}

#[test]
fn combine_keeps_order() {
    let a = 1;
    let b = 2;
    let (x, y) = combine(&a, &b);
    assert_eq!((*x, *y), (1, 2));
    let (x, y) = combine_alt(&a, &b);
    assert_eq!((*x, *y), (1, 2));
}

#[test]
fn arrays_of_defaults() {
    let a1: [i32; 3] = create_array();
    let a2: [i32; 3] = create_array_alt();
    assert_eq!(a1, [0, 0, 0]);
    assert_eq!(a2, [0, 0, 0]);
    let empty: [u8; 0] = create_array();
    assert_eq!(empty.len(), 0);
}

#[test]
fn borrowed_containers_are_accepted() {
    let value = 42;
    let c = Borrowed { value: &value };
    let alt = ContainerAlt { value: &value };
    process(&c);
    process_alt(&alt);
    assert_eq!(*c.value, 42);
    assert_eq!(*alt.value, 42);
}
