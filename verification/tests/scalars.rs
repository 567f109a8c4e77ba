//! Storing each scalar kind and reading it back through every getter.

use ply_rs::DefaultElement;
use ply_rs::PlyElement;
use ply_rs::PlyElementSet;
use ply_rs::PlyGetChar;
use ply_rs::PlyGetDouble;
use ply_rs::PlyGetFloat;
use ply_rs::PlyGetInt;
use ply_rs::PlyGetListChar;
use ply_rs::PlyGetListDouble;
use ply_rs::PlyGetListFloat;
use ply_rs::PlyGetListInt;
use ply_rs::PlyGetListShort;
use ply_rs::PlyGetListUChar;
use ply_rs::PlyGetListUInt;
use ply_rs::PlyGetListUShort;
use ply_rs::PlyGetShort;
use ply_rs::PlyGetUChar;
use ply_rs::PlyGetUInt;
use ply_rs::PlyGetUShort;
use ply_rs::Property;

/// Asserts that every getter except the ones named by the caller sees
/// nothing under `name`.
fn assert_all_absent(e: &DefaultElement, name: &str) {
    assert_eq!(e.get_char(name), None);
    assert_eq!(e.get_uchar(name), None);
    assert_eq!(e.get_short(name), None);
    assert_eq!(e.get_ushort(name), None);
    assert_eq!(e.get_int(name), None);
    assert_eq!(e.get_uint(name), None);
    assert_eq!(e.get_float(name), None);
    assert_eq!(e.get_double(name), None);
    assert_eq!(e.get_list_char(name), None);
    assert_eq!(e.get_list_uchar(name), None);
    assert_eq!(e.get_list_short(name), None);
    assert_eq!(e.get_list_ushort(name), None);
    assert_eq!(e.get_list_int(name), None);
    assert_eq!(e.get_list_uint(name), None);
    assert_eq!(e.get_list_float(name), None);
    assert_eq!(e.get_list_double(name), None);
}

#[test]
fn char_round_trip() {
    let mut e = DefaultElement::new();
    e.set_property("n".to_string(), Property::Char(-5));
    assert_eq!(e.get_char("n"), Some(-5));
    assert_eq!(e.get_uchar("n"), None);
    assert_eq!(e.get_short("n"), None);
    assert_eq!(e.get_int("n"), None);
    assert_eq!(e.get_list_char("n"), None);
}

#[test]
fn uchar_round_trip() {
    let mut e = DefaultElement::new();
    e.set_property("n".to_string(), Property::UChar(200));
    assert_eq!(e.get_uchar("n"), Some(200));
    assert_eq!(e.get_char("n"), None);
    assert_eq!(e.get_list_uchar("n"), None);
}

#[test]
fn short_round_trip() {
    let mut e = DefaultElement::new();
    e.set_property("n".to_string(), Property::Short(-30000));
    assert_eq!(e.get_short("n"), Some(-30000));
    assert_eq!(e.get_ushort("n"), None);
    assert_eq!(e.get_int("n"), None);
}

#[test]
fn ushort_round_trip() {
    let mut e = DefaultElement::new();
    e.set_property("n".to_string(), Property::UShort(60000));
    assert_eq!(e.get_ushort("n"), Some(60000));
    assert_eq!(e.get_short("n"), None);
    assert_eq!(e.get_uint("n"), None);
}

#[test]
fn int_round_trip() {
    let mut e = DefaultElement::new();
    e.set_property("n".to_string(), Property::Int(-2_000_000_000));
    assert_eq!(e.get_int("n"), Some(-2_000_000_000));
    assert_eq!(e.get_uint("n"), None);
    assert_eq!(e.get_list_int("n"), None);
}

#[test]
fn uint_round_trip() {
    let mut e = DefaultElement::new();
    e.set_property("n".to_string(), Property::UInt(4_000_000_000));
    assert_eq!(e.get_uint("n"), Some(4_000_000_000));
    assert_eq!(e.get_int("n"), None);
}

#[test]
fn float_round_trip() {
    let mut e = DefaultElement::new();
    e.set_property("n".to_string(), Property::Float(1.25f32.to_bits()));
    assert_eq!(e.get_float("n"), Some(1.25f32.to_bits()));
    assert_eq!(f32::from_bits(e.get_float("n").unwrap()), 1.25f32);
    assert_eq!(e.get_double("n"), None);
    assert_eq!(e.get_list_float("n"), None);
}

#[test]
fn double_round_trip() {
    let mut e = DefaultElement::new();
    e.set_property("n".to_string(), Property::Double(2.5f64.to_bits()));
    assert_eq!(e.get_double("n"), Some(2.5f64.to_bits()));
    assert_eq!(f64::from_bits(e.get_double("n").unwrap()), 2.5f64);
    assert_eq!(e.get_float("n"), None);
}

#[test]
fn only_matching_kind_is_seen() {
    // For each scalar kind: the matching getter returns the value, every
    // other getter of the sixteen reports absence.
    let mut e = DefaultElement::new();
    e.set_property("n".to_string(), Property::Int(42));
    assert_eq!(e.get_int("n"), Some(42));
    assert_eq!(e.get_char("n"), None);
    assert_eq!(e.get_uchar("n"), None);
    assert_eq!(e.get_short("n"), None);
    assert_eq!(e.get_ushort("n"), None);
    assert_eq!(e.get_uint("n"), None);
    assert_eq!(e.get_float("n"), None);
    assert_eq!(e.get_double("n"), None);
    assert_eq!(e.get_list_char("n"), None);
    assert_eq!(e.get_list_uchar("n"), None);
    assert_eq!(e.get_list_short("n"), None);
    assert_eq!(e.get_list_ushort("n"), None);
    assert_eq!(e.get_list_int("n"), None);
    assert_eq!(e.get_list_uint("n"), None);
    assert_eq!(e.get_list_float("n"), None);
    assert_eq!(e.get_list_double("n"), None);
}

#[test]
fn absent_name_all_sixteen_getters() {
    let e = DefaultElement::new();
    assert_all_absent(&e, "never_set");
}

#[test]
fn absent_name_on_populated_element() {
    let mut e = DefaultElement::new();
    e.set_property("present".to_string(), Property::UInt(1));
    assert_all_absent(&e, "missing");
}

#[test]
fn float_example() {
    // Insert a 32-bit 3.5 under "x": the float getter sees it, the int
    // getter does not, and "y" holds nothing.
    let mut e = DefaultElement::new();
    e.set_property("x".to_string(), Property::Float(3.5f32.to_bits()));
    assert_eq!(e.get_float("x"), Some(3.5f32.to_bits()));
    assert_eq!(f32::from_bits(e.get_float("x").unwrap()), 3.5f32);
    assert_eq!(e.get_int("x"), None);
    assert_eq!(e.get_float("y"), None);
}
