use dispair::Debuggable;
use dispair::Dispair;
use dispair::Displayable;
use dispair::ErrorCapable;

use std::collections::hash_map::DefaultHasher;
use std::hash::Hash;
use std::hash::Hasher;

fn hash_of<T: Hash>(v: &T) -> u64 {
    let mut h = DefaultHasher::new();
    v.hash(&mut h);
    h.finish()
}

#[test]
fn display_passes_through() {
    assert_eq!(Dispair(42u64).display_text(), "42");
    assert_eq!(Dispair(42u64).display_text(), 42u64.display_text());
    assert_eq!(Dispair(0u64).display_text(), 0u64.display_text());
}

#[test]
fn debug_shows_wrapper() {
    let d = Dispair(42u64).debug_text();
    assert_eq!(d, "Dispair(42)");
    assert!(d.contains("Dispair"));
    assert!(d.contains(&42u64.debug_text()));
}

#[test]
fn derived_debug_matches_debug_text() {
    let a = Dispair(42u64);
    assert_eq!(format!("{:?}", a), a.debug_text());
}

#[test]
fn equality_delegates() {
    assert!(Dispair(5u64) == Dispair(5u64));
    assert!(Dispair(5u64) != Dispair(6u64));
}

#[test]
fn ordering_delegates() {
    assert!(Dispair(3u64) < Dispair(9u64));
    assert!(Dispair(9u64) > Dispair(3u64));
    assert_eq!(Dispair(3u64).partial_cmp(&Dispair(9u64)), 3u64.partial_cmp(&9u64));
    assert_eq!(Dispair(7u64).partial_cmp(&Dispair(7u64)), 7u64.partial_cmp(&7u64));
}

#[test]
fn copies_are_equal() {
    let a = Dispair(5u64);
    let b = a;
    assert!(a == b);
    assert_eq!(a.display_text(), b.display_text());
}

#[test]
fn scenario_test_struct() {
    // A value whose display and debug renderings are both the literal
    // text `TestStruct`.
    let err = Dispair(String::from("TestStruct"));

    // Display just passes through to the wrapped value.
    assert_eq!(err.display_text(), "TestStruct");

    // Debug, however, does show the wrapper.
    assert_eq!(err.debug_text(), "Dispair(TestStruct)");

    // The wrapper can stand behind a polymorphic error handle, and the
    // handle still displays nicely.
    let boxed: Box<dyn ErrorCapable> = Box::new(err);
    assert_eq!(boxed.display_text(), "TestStruct");
    assert_eq!(boxed.debug_text(), "Dispair(TestStruct)");
}

#[test]
fn polymorphic_handle_over_integers() {
    let boxed: Box<dyn ErrorCapable> = Box::new(Dispair(7u64));
    assert_eq!(boxed.display_text(), "7");
    assert_eq!(boxed.debug_text(), "Dispair(7)");
}

#[test]
fn wrappers_nest() {
    let nested = Dispair(Dispair(7u64));
    assert_eq!(nested.display_text(), "7");
    assert_eq!(nested.debug_text(), "Dispair(Dispair(7))");
}

#[test]
fn equal_values_hash_identically() {
    assert_eq!(hash_of(&Dispair(42u64)), hash_of(&Dispair(42u64)));
    assert_eq!(hash_of(&Dispair(0u64)), hash_of(&Dispair(0u64)));
}

#[test]
fn hash_matches_contained_value() {
    assert_eq!(hash_of(&Dispair(42u64)), hash_of(&42u64));
    assert_eq!(hash_of(&Dispair(0u64)), hash_of(&0u64));
}
