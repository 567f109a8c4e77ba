//! Replacement, multi-property round trips, and the type descriptors.

use ply_rs::DefaultElement;
use ply_rs::PlyElement;
use ply_rs::PlyElementGet;
use ply_rs::PlyElementSet;
use ply_rs::PlyGetChar;
use ply_rs::PlyGetDouble;
use ply_rs::PlyGetFloat;
use ply_rs::PlyGetInt;
use ply_rs::PlyGetListDouble;
use ply_rs::PlyGetListUInt;
use ply_rs::PlyGetShort;
use ply_rs::PlyGetUChar;
use ply_rs::PlyGetUInt;
use ply_rs::PlyGetUShort;
use ply_rs::Property;
use ply_rs::PropertyType;
use ply_rs::ScalarType;

#[test]
fn second_insert_replaces_first() {
    let mut e = DefaultElement::new();
    e.set_property("n".to_string(), Property::Int(1));
    e.set_property("n".to_string(), Property::Int(2));
    assert_eq!(e.get_int("n"), Some(2));
}

#[test]
fn replacement_may_change_kind() {
    let mut e = DefaultElement::new();
    e.set_property("n".to_string(), Property::Int(1));
    e.set_property("n".to_string(), Property::UShort(9));
    assert_eq!(e.get_int("n"), None);
    assert_eq!(e.get_ushort("n"), Some(9));
}

#[test]
fn replacement_leaves_other_names_alone() {
    let mut e = DefaultElement::new();
    e.set_property("a".to_string(), Property::Char(1));
    e.set_property("b".to_string(), Property::Char(2));
    e.set_property("a".to_string(), Property::Char(3));
    assert_eq!(e.get_char("a"), Some(3));
    assert_eq!(e.get_char("b"), Some(2));
}

#[test]
fn many_kinds_round_trip() {
    // One value of every kind under distinct names; each comes back intact
    // through its matching getter.
    let mut e = DefaultElement::new();
    e.set_property("c".to_string(), Property::Char(-1));
    e.set_property("uc".to_string(), Property::UChar(2));
    e.set_property("s".to_string(), Property::Short(-3));
    e.set_property("us".to_string(), Property::UShort(4));
    e.set_property("i".to_string(), Property::Int(-5));
    e.set_property("ui".to_string(), Property::UInt(6));
    e.set_property("f".to_string(), Property::Float(7.5f32.to_bits()));
    e.set_property("d".to_string(), Property::Double(8.5f64.to_bits()));
    e.set_property("li".to_string(), Property::ListUInt(vec![1, 2]));
    e.set_property("ld".to_string(), Property::ListDouble(vec![]));
    assert_eq!(e.get_char("c"), Some(-1));
    assert_eq!(e.get_uchar("uc"), Some(2));
    assert_eq!(e.get_short("s"), Some(-3));
    assert_eq!(e.get_ushort("us"), Some(4));
    assert_eq!(e.get_int("i"), Some(-5));
    assert_eq!(e.get_uint("ui"), Some(6));
    assert_eq!(e.get_float("f"), Some(7.5f32.to_bits()));
    assert_eq!(e.get_double("d"), Some(8.5f64.to_bits()));
    assert_eq!(e.get_list_uint("li"), Some(&[1u32, 2][..]));
    assert_eq!(e.get_list_double("ld"), Some(&[][..]));
    // and none of them bleeds into a neighbour's name
    assert_eq!(e.get_char("uc"), None);
    assert_eq!(e.get_uint("i"), None);
}

/// Generic reader working through the umbrella capability alone.
fn read_everything<E: PlyElementGet>(e: &E, name: &str) -> Option<i32> {
    e.get_int(name)
}

#[test]
fn umbrella_capability_covers_default_element() {
    let mut e = DefaultElement::new();
    e.set_property("k".to_string(), Property::Int(11));
    assert_eq!(read_everything(&e, "k"), Some(11));
    assert_eq!(read_everything(&e, "other"), None);
}

#[test]
fn property_value_semantics() {
    let p = Property::ListUInt(vec![1, 2, 3]);
    let q = p.clone();
    assert_eq!(p, q);
    assert_ne!(p, Property::ListUInt(vec![1, 2]));
    assert_ne!(p, Property::ListInt(vec![1, 2, 3]));
    assert_eq!(Property::Float(1.0f32.to_bits()), Property::Float(1.0f32.to_bits()));
}

#[test]
fn descriptor_equality_and_clone() {
    let scalar = PropertyType::Scalar(ScalarType::Float);
    let list = PropertyType::List(ScalarType::UChar, ScalarType::Int);
    assert_eq!(scalar, scalar.clone());
    assert_eq!(list, list.clone());
    assert_ne!(scalar, list);
    assert_ne!(
        PropertyType::List(ScalarType::UChar, ScalarType::Int),
        PropertyType::List(ScalarType::UInt, ScalarType::Int)
    );
    assert_eq!(ScalarType::Double, ScalarType::Double.clone());
    assert_ne!(ScalarType::Float, ScalarType::Double);
}
