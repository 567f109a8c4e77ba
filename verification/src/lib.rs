//! Dynamic-schema data model for a self-describing geometry file format.
//!
//! A file of this format declares, per file, a list of named elements and
//! per-element named properties, each with a scalar or list-of-scalar type
//! that is only known once the file's header has been read.  This crate
//! provides the vocabulary such a reader/writer needs: the scalar and
//! property type descriptors, the tagged [`property::Property`] value, the
//! per-kind capability traits, and [`default_element::DefaultElement`], a
//! ready-made name-to-value container implementing every capability.

pub mod default_element;
pub mod laws;
pub mod property;

pub use default_element::DefaultElement;
pub use property::PlyElement;
pub use property::PlyElementGet;
pub use property::PlyElementSet;
pub use property::PlyGetChar;
pub use property::PlyGetDouble;
pub use property::PlyGetFloat;
pub use property::PlyGetInt;
pub use property::PlyGetListChar;
pub use property::PlyGetListDouble;
pub use property::PlyGetListFloat;
pub use property::PlyGetListInt;
pub use property::PlyGetListShort;
pub use property::PlyGetListUChar;
pub use property::PlyGetListUInt;
pub use property::PlyGetListUShort;
pub use property::PlyGetShort;
pub use property::PlyGetUChar;
pub use property::PlyGetUInt;
pub use property::PlyGetUShort;
pub use property::Property;
pub use property::PropertyModel;
pub use property::PropertyType;
pub use property::ScalarType;
