//! Type descriptors, the tagged property value, and the capability traits.

use vstd::prelude::*;

verus! {

/// Scalar kind used to encode property payloads.
///
/// `Float` and `Double` describe 32-bit and 64-bit IEEE-754 values; inside
/// this crate such payloads are carried as their raw bit patterns (see
/// [`Property`]).
#[derive(Debug, PartialEq, Eq, Clone, Structural)]
pub enum ScalarType {
    /// Signed 8-bit integer.
    Char,
    /// Unsigned 8-bit integer.
    UChar,
    /// Signed 16-bit integer.
    Short,
    /// Unsigned 16-bit integer.
    UShort,
    /// Signed 32-bit integer.
    Int,
    /// Unsigned 32-bit integer.
    UInt,
    /// 32-bit IEEE-754 value.
    Float,
    /// 64-bit IEEE-754 value.
    Double,
}

/// Schema-level type of one declared property.
///
/// A property is either a single scalar or a list of scalars.  A list is
/// encoded on the wire as a leading count followed by its elements; the
/// first field of `List` is the scalar kind of that count (which the
/// external codec requires to be one of the six integer kinds), the second
/// is the kind of the elements.  This crate places no constraint of its own
/// on either field.
#[derive(Debug, PartialEq, Eq, Clone, Structural)]
pub enum PropertyType {
    /// Simple, "one-number" type.
    Scalar(ScalarType),
    /// A sequence of scalars of one kind; the first field sizes the
    /// on-wire length prefix, the second gives the element kind.
    List(ScalarType, ScalarType),
}

/// One concrete property value, tagged with its kind.
///
/// The sixteen variants cover the eight scalar kinds and the eight
/// list-of-scalar kinds.  The `Float`, `Double`, `ListFloat` and
/// `ListDouble` payloads are the raw IEEE-754 bit patterns of the 32-bit
/// and 64-bit values (as produced by the standard `to_bits` conversions);
/// this crate never interprets them numerically, so carrying the bits
/// keeps the value exact while staying within the verified fragment.
#[derive(Debug, PartialEq, Clone)]
pub enum Property {
    Char(i8),
    UChar(u8),
    Short(i16),
    UShort(u16),
    Int(i32),
    UInt(u32),
    /// Raw bits of a 32-bit IEEE-754 value.
    Float(u32),
    /// Raw bits of a 64-bit IEEE-754 value.
    Double(u64),
    ListChar(Vec<i8>),
    ListUChar(Vec<u8>),
    ListShort(Vec<i16>),
    ListUShort(Vec<u16>),
    ListInt(Vec<i32>),
    ListUInt(Vec<u32>),
    /// Raw bits of 32-bit IEEE-754 values.
    ListFloat(Vec<u32>),
    /// Raw bits of 64-bit IEEE-754 values.
    ListDouble(Vec<u64>),
}

/// Mathematical model of a [`Property`]: the same sixteen tags, with each
/// list payload abstracted to the sequence of its elements.
pub enum PropertyModel {
    Char(i8),
    UChar(u8),
    Short(i16),
    UShort(u16),
    Int(i32),
    UInt(u32),
    Float(u32),
    Double(u64),
    ListChar(Seq<i8>),
    ListUChar(Seq<u8>),
    ListShort(Seq<i16>),
    ListUShort(Seq<u16>),
    ListInt(Seq<i32>),
    ListUInt(Seq<u32>),
    ListFloat(Seq<u32>),
    ListDouble(Seq<u64>),
}

impl View for Property {
    type V = PropertyModel;

    open spec fn view(&self) -> PropertyModel {
        match self {
            Property::Char(x) => PropertyModel::Char(*x),
            Property::UChar(x) => PropertyModel::UChar(*x),
            Property::Short(x) => PropertyModel::Short(*x),
            Property::UShort(x) => PropertyModel::UShort(*x),
            Property::Int(x) => PropertyModel::Int(*x),
            Property::UInt(x) => PropertyModel::UInt(*x),
            Property::Float(x) => PropertyModel::Float(*x),
            Property::Double(x) => PropertyModel::Double(*x),
            Property::ListChar(v) => PropertyModel::ListChar(v@),
            Property::ListUChar(v) => PropertyModel::ListUChar(v@),
            Property::ListShort(v) => PropertyModel::ListShort(v@),
            Property::ListUShort(v) => PropertyModel::ListUShort(v@),
            Property::ListInt(v) => PropertyModel::ListInt(v@),
            Property::ListUInt(v) => PropertyModel::ListUInt(v@),
            Property::ListFloat(v) => PropertyModel::ListFloat(v@),
            Property::ListDouble(v) => PropertyModel::ListDouble(v@),
        }
    }
}

/// What an element holds under `name`: the stored model value, or `None`
/// when no property of that name is present.
pub open spec fn spec_get(m: Map<Seq<char>, PropertyModel>, name: Seq<char>) -> Option<
    PropertyModel,
> {
    if m.contains_key(name) {
        Some(m[name])
    } else {
        None
    }
}

/// What the signed 8-bit getter observes: the stored value only when a
/// property of that name exists and holds that exact kind.
pub open spec fn spec_get_char(m: Map<Seq<char>, PropertyModel>, name: Seq<char>) -> Option<i8> {
    match spec_get(m, name) {
        Some(PropertyModel::Char(x)) => Some(x),
        _ => None,
    }
}

/// What the unsigned 8-bit getter observes.
pub open spec fn spec_get_uchar(m: Map<Seq<char>, PropertyModel>, name: Seq<char>) -> Option<u8> {
    match spec_get(m, name) {
        Some(PropertyModel::UChar(x)) => Some(x),
        _ => None,
    }
}

/// What the signed 16-bit getter observes.
pub open spec fn spec_get_short(m: Map<Seq<char>, PropertyModel>, name: Seq<char>) -> Option<i16> {
    match spec_get(m, name) {
        Some(PropertyModel::Short(x)) => Some(x),
        _ => None,
    }
}

/// What the unsigned 16-bit getter observes.
pub open spec fn spec_get_ushort(m: Map<Seq<char>, PropertyModel>, name: Seq<char>) -> Option<
    u16,
> {
    match spec_get(m, name) {
        Some(PropertyModel::UShort(x)) => Some(x),
        _ => None,
    }
}

/// What the signed 32-bit getter observes.
pub open spec fn spec_get_int(m: Map<Seq<char>, PropertyModel>, name: Seq<char>) -> Option<i32> {
    match spec_get(m, name) {
        Some(PropertyModel::Int(x)) => Some(x),
        _ => None,
    }
}

/// What the unsigned 32-bit getter observes.
pub open spec fn spec_get_uint(m: Map<Seq<char>, PropertyModel>, name: Seq<char>) -> Option<u32> {
    match spec_get(m, name) {
        Some(PropertyModel::UInt(x)) => Some(x),
        _ => None,
    }
}

/// What the 32-bit IEEE-754 getter observes (as raw bits).
pub open spec fn spec_get_float(m: Map<Seq<char>, PropertyModel>, name: Seq<char>) -> Option<
    u32,
> {
    match spec_get(m, name) {
        Some(PropertyModel::Float(x)) => Some(x),
        _ => None,
    }
}

/// What the 64-bit IEEE-754 getter observes (as raw bits).
pub open spec fn spec_get_double(m: Map<Seq<char>, PropertyModel>, name: Seq<char>) -> Option<
    u64,
> {
    match spec_get(m, name) {
        Some(PropertyModel::Double(x)) => Some(x),
        _ => None,
    }
}

/// What the signed 8-bit list getter observes.
pub open spec fn spec_get_list_char(m: Map<Seq<char>, PropertyModel>, name: Seq<char>) -> Option<
    Seq<i8>,
> {
    match spec_get(m, name) {
        Some(PropertyModel::ListChar(s)) => Some(s),
        _ => None,
    }
}

/// What the unsigned 8-bit list getter observes.
pub open spec fn spec_get_list_uchar(m: Map<Seq<char>, PropertyModel>, name: Seq<char>) -> Option<
    Seq<u8>,
> {
    match spec_get(m, name) {
        Some(PropertyModel::ListUChar(s)) => Some(s),
        _ => None,
    }
}

/// What the signed 16-bit list getter observes.
pub open spec fn spec_get_list_short(m: Map<Seq<char>, PropertyModel>, name: Seq<char>) -> Option<
    Seq<i16>,
> {
    match spec_get(m, name) {
        Some(PropertyModel::ListShort(s)) => Some(s),
        _ => None,
    }
}

/// What the unsigned 16-bit list getter observes.
pub open spec fn spec_get_list_ushort(m: Map<Seq<char>, PropertyModel>, name: Seq<char>) -> Option<
    Seq<u16>,
> {
    match spec_get(m, name) {
        Some(PropertyModel::ListUShort(s)) => Some(s),
        _ => None,
    }
}

/// What the signed 32-bit list getter observes.
pub open spec fn spec_get_list_int(m: Map<Seq<char>, PropertyModel>, name: Seq<char>) -> Option<
    Seq<i32>,
> {
    match spec_get(m, name) {
        Some(PropertyModel::ListInt(s)) => Some(s),
        _ => None,
    }
}

/// What the unsigned 32-bit list getter observes.
pub open spec fn spec_get_list_uint(m: Map<Seq<char>, PropertyModel>, name: Seq<char>) -> Option<
    Seq<u32>,
> {
    match spec_get(m, name) {
        Some(PropertyModel::ListUInt(s)) => Some(s),
        _ => None,
    }
}

/// What the 32-bit IEEE-754 list getter observes (as raw bits).
pub open spec fn spec_get_list_float(m: Map<Seq<char>, PropertyModel>, name: Seq<char>) -> Option<
    Seq<u32>,
> {
    match spec_get(m, name) {
        Some(PropertyModel::ListFloat(s)) => Some(s),
        _ => None,
    }
}

/// What the 64-bit IEEE-754 list getter observes (as raw bits).
pub open spec fn spec_get_list_double(m: Map<Seq<char>, PropertyModel>, name: Seq<char>) -> Option<
    Seq<u64>,
> {
    match spec_get(m, name) {
        Some(PropertyModel::ListDouble(s)) => Some(s),
        _ => None,
    }
}

/// An element: a container of named property values.
///
/// `props` is the implementor's own model of its contents, the map from
/// property name to stored value; every capability trait below states its
/// contract against this one model.
pub trait PlyElement: Sized {
    /// The name-to-value associations this element currently holds.
    spec fn props(&self) -> Map<Seq<char>, PropertyModel>;

    /// Produces a new, empty element.
    fn new() -> (r: Self)
        ensures
            r.props() == Map::<Seq<char>, PropertyModel>::empty(),
    ;
}

/// Write capability: type-erased insert/replace of a named property.
pub trait PlyElementSet: PlyElement {
    /// Stores `property` under `property_name`, replacing any value the
    /// name already held.
    fn set_property(&mut self, property_name: String, property: Property)
        ensures
            final(self).props() == old(self).props().insert(property_name@, property@),
    ;
}

/// Read capability for signed 8-bit scalars.
pub trait PlyGetChar: PlyElement {
    fn get_char(&self, property_name: &str) -> (r: Option<i8>)
        ensures
            r == spec_get_char(self.props(), property_name@),
    ;
}

/// Read capability for unsigned 8-bit scalars.
pub trait PlyGetUChar: PlyElement {
    fn get_uchar(&self, property_name: &str) -> (r: Option<u8>)
        ensures
            r == spec_get_uchar(self.props(), property_name@),
    ;
}

/// Read capability for signed 16-bit scalars.
pub trait PlyGetShort: PlyElement {
    fn get_short(&self, property_name: &str) -> (r: Option<i16>)
        ensures
            r == spec_get_short(self.props(), property_name@),
    ;
}

/// Read capability for unsigned 16-bit scalars.
pub trait PlyGetUShort: PlyElement {
    fn get_ushort(&self, property_name: &str) -> (r: Option<u16>)
        ensures
            r == spec_get_ushort(self.props(), property_name@),
    ;
}

/// Read capability for signed 32-bit scalars.
pub trait PlyGetInt: PlyElement {
    fn get_int(&self, property_name: &str) -> (r: Option<i32>)
        ensures
            r == spec_get_int(self.props(), property_name@),
    ;
}

/// Read capability for unsigned 32-bit scalars.
pub trait PlyGetUInt: PlyElement {
    fn get_uint(&self, property_name: &str) -> (r: Option<u32>)
        ensures
            r == spec_get_uint(self.props(), property_name@),
    ;
}

/// Read capability for 32-bit IEEE-754 scalars, exposed as raw bits.
pub trait PlyGetFloat: PlyElement {
    fn get_float(&self, property_name: &str) -> (r: Option<u32>)
        ensures
            r == spec_get_float(self.props(), property_name@),
    ;
}

/// Read capability for 64-bit IEEE-754 scalars, exposed as raw bits.
pub trait PlyGetDouble: PlyElement {
    fn get_double(&self, property_name: &str) -> (r: Option<u64>)
        ensures
            r == spec_get_double(self.props(), property_name@),
    ;
}

/// Read capability for lists of signed 8-bit scalars; the returned view
/// borrows from the element.
pub trait PlyGetListChar: PlyElement {
    fn get_list_char(&self, property_name: &str) -> (r: Option<&[i8]>)
        ensures
            (match r {
                Some(v) => spec_get_list_char(self.props(), property_name@) == Some(v@),
                None => spec_get_list_char(self.props(), property_name@) is None,
            }),
    ;
}

/// Read capability for lists of unsigned 8-bit scalars.
pub trait PlyGetListUChar: PlyElement {
    fn get_list_uchar(&self, property_name: &str) -> (r: Option<&[u8]>)
        ensures
            (match r {
                Some(v) => spec_get_list_uchar(self.props(), property_name@) == Some(v@),
                None => spec_get_list_uchar(self.props(), property_name@) is None,
            }),
    ;
}

/// Read capability for lists of signed 16-bit scalars.
pub trait PlyGetListShort: PlyElement {
    fn get_list_short(&self, property_name: &str) -> (r: Option<&[i16]>)
        ensures
            (match r {
                Some(v) => spec_get_list_short(self.props(), property_name@) == Some(v@),
                None => spec_get_list_short(self.props(), property_name@) is None,
            }),
    ;
}

/// Read capability for lists of unsigned 16-bit scalars.
pub trait PlyGetListUShort: PlyElement {
    fn get_list_ushort(&self, property_name: &str) -> (r: Option<&[u16]>)
        ensures
            (match r {
                Some(v) => spec_get_list_ushort(self.props(), property_name@) == Some(v@),
                None => spec_get_list_ushort(self.props(), property_name@) is None,
            }),
    ;
}

/// Read capability for lists of signed 32-bit scalars.
pub trait PlyGetListInt: PlyElement {
    fn get_list_int(&self, property_name: &str) -> (r: Option<&[i32]>)
        ensures
            (match r {
                Some(v) => spec_get_list_int(self.props(), property_name@) == Some(v@),
                None => spec_get_list_int(self.props(), property_name@) is None,
            }),
    ;
}

/// Read capability for lists of unsigned 32-bit scalars.
pub trait PlyGetListUInt: PlyElement {
    fn get_list_uint(&self, property_name: &str) -> (r: Option<&[u32]>)
        ensures
            (match r {
                Some(v) => spec_get_list_uint(self.props(), property_name@) == Some(v@),
                None => spec_get_list_uint(self.props(), property_name@) is None,
            }),
    ;
}

/// Read capability for lists of 32-bit IEEE-754 scalars, as raw bits.
pub trait PlyGetListFloat: PlyElement {
    fn get_list_float(&self, property_name: &str) -> (r: Option<&[u32]>)
        ensures
            (match r {
                Some(v) => spec_get_list_float(self.props(), property_name@) == Some(v@),
                None => spec_get_list_float(self.props(), property_name@) is None,
            }),
    ;
}

/// Read capability for lists of 64-bit IEEE-754 scalars, as raw bits.
pub trait PlyGetListDouble: PlyElement {
    fn get_list_double(&self, property_name: &str) -> (r: Option<&[u64]>)
        ensures
            (match r {
                Some(v) => spec_get_list_double(self.props(), property_name@) == Some(v@),
                None => spec_get_list_double(self.props(), property_name@) is None,
            }),
    ;
}

/// Umbrella capability: satisfied exactly by the types that offer every one
/// of the sixteen getters.
pub trait PlyElementGet: PlyGetChar + PlyGetUChar + PlyGetShort + PlyGetUShort + PlyGetInt
    + PlyGetUInt + PlyGetFloat + PlyGetDouble + PlyGetListChar + PlyGetListUChar + PlyGetListShort
    + PlyGetListUShort + PlyGetListInt + PlyGetListUInt + PlyGetListFloat + PlyGetListDouble {

}

impl<
    E: PlyGetChar + PlyGetUChar + PlyGetShort + PlyGetUShort + PlyGetInt + PlyGetUInt + PlyGetFloat
        + PlyGetDouble + PlyGetListChar + PlyGetListUChar + PlyGetListShort + PlyGetListUShort
        + PlyGetListInt + PlyGetListUInt + PlyGetListFloat + PlyGetListDouble,
> PlyElementGet for E {

}

} // verus!
