//! Laws relating the write capability to the sixteen getters.
//!
//! Every element contract in this crate speaks of one model, the map from
//! property name to stored [`PropertyModel`] value, and of the `spec_get`
//! family of observation functions.  The proof functions here state, over
//! that model, what a caller may rely on after storing values through
//! [`crate::property::PlyElementSet::set_property`] and reading them back
//! through the getter capabilities.

use vstd::prelude::*;

use crate::property::PropertyModel;
use crate::property::spec_get;
use crate::property::spec_get_char;
use crate::property::spec_get_double;
use crate::property::spec_get_float;
use crate::property::spec_get_int;
use crate::property::spec_get_list_char;
use crate::property::spec_get_list_double;
use crate::property::spec_get_list_float;
use crate::property::spec_get_list_int;
use crate::property::spec_get_list_short;
use crate::property::spec_get_list_uchar;
use crate::property::spec_get_list_uint;
use crate::property::spec_get_list_ushort;
use crate::property::spec_get_short;
use crate::property::spec_get_uchar;
use crate::property::spec_get_uint;
use crate::property::spec_get_ushort;

verus! {

/// After storing `v` under `name`, the getter matching `v`'s kind observes
/// exactly `v`'s payload under `name`, and every getter of another kind
/// observes absence there — whatever the element held before.
pub proof fn lemma_insert_then_get(
    m: Map<Seq<char>, PropertyModel>,
    name: Seq<char>,
    v: PropertyModel,
)
    ensures
        spec_get(m.insert(name, v), name) == Some(v),
        spec_get_char(m.insert(name, v), name) == (match v {
            PropertyModel::Char(x) => Some(x),
            _ => None::<i8>,
        }),
        spec_get_uchar(m.insert(name, v), name) == (match v {
            PropertyModel::UChar(x) => Some(x),
            _ => None::<u8>,
        }),
        spec_get_short(m.insert(name, v), name) == (match v {
            PropertyModel::Short(x) => Some(x),
            _ => None::<i16>,
        }),
        spec_get_ushort(m.insert(name, v), name) == (match v {
            PropertyModel::UShort(x) => Some(x),
            _ => None::<u16>,
        }),
        spec_get_int(m.insert(name, v), name) == (match v {
            PropertyModel::Int(x) => Some(x),
            _ => None::<i32>,
        }),
        spec_get_uint(m.insert(name, v), name) == (match v {
            PropertyModel::UInt(x) => Some(x),
            _ => None::<u32>,
        }),
        spec_get_float(m.insert(name, v), name) == (match v {
            PropertyModel::Float(x) => Some(x),
            _ => None::<u32>,
        }),
        spec_get_double(m.insert(name, v), name) == (match v {
            PropertyModel::Double(x) => Some(x),
            _ => None::<u64>,
        }),
        spec_get_list_char(m.insert(name, v), name) == (match v {
            PropertyModel::ListChar(s) => Some(s),
            _ => None::<Seq<i8>>,
        }),
        spec_get_list_uchar(m.insert(name, v), name) == (match v {
            PropertyModel::ListUChar(s) => Some(s),
            _ => None::<Seq<u8>>,
        }),
        spec_get_list_short(m.insert(name, v), name) == (match v {
            PropertyModel::ListShort(s) => Some(s),
            _ => None::<Seq<i16>>,
        }),
        spec_get_list_ushort(m.insert(name, v), name) == (match v {
            PropertyModel::ListUShort(s) => Some(s),
            _ => None::<Seq<u16>>,
        }),
        spec_get_list_int(m.insert(name, v), name) == (match v {
            PropertyModel::ListInt(s) => Some(s),
            _ => None::<Seq<i32>>,
        }),
        spec_get_list_uint(m.insert(name, v), name) == (match v {
            PropertyModel::ListUInt(s) => Some(s),
            _ => None::<Seq<u32>>,
        }),
        spec_get_list_float(m.insert(name, v), name) == (match v {
            PropertyModel::ListFloat(s) => Some(s),
            _ => None::<Seq<u32>>,
        }),
        spec_get_list_double(m.insert(name, v), name) == (match v {
            PropertyModel::ListDouble(s) => Some(s),
            _ => None::<Seq<u64>>,
        }),
{
}

/// A name the element does not hold is observed as absent by every one of
/// the sixteen getters.  In particular, by the construction contract, every
/// getter observes absence of every name on a newly constructed element.
pub proof fn lemma_absent_name(m: Map<Seq<char>, PropertyModel>, name: Seq<char>)
    requires
        !m.contains_key(name),
    ensures
        spec_get(m, name) is None,
        spec_get_char(m, name) is None,
        spec_get_uchar(m, name) is None,
        spec_get_short(m, name) is None,
        spec_get_ushort(m, name) is None,
        spec_get_int(m, name) is None,
        spec_get_uint(m, name) is None,
        spec_get_float(m, name) is None,
        spec_get_double(m, name) is None,
        spec_get_list_char(m, name) is None,
        spec_get_list_uchar(m, name) is None,
        spec_get_list_short(m, name) is None,
        spec_get_list_ushort(m, name) is None,
        spec_get_list_int(m, name) is None,
        spec_get_list_uint(m, name) is None,
        spec_get_list_float(m, name) is None,
        spec_get_list_double(m, name) is None,
{
}

/// Storing a second value under an already-used name replaces the first:
/// the element afterwards is the same as if only the second value had ever
/// been stored, so every subsequent observation sees only the new value.
pub proof fn lemma_insert_replaces(
    m: Map<Seq<char>, PropertyModel>,
    name: Seq<char>,
    first: PropertyModel,
    second: PropertyModel,
)
    ensures
        m.insert(name, first).insert(name, second) == m.insert(name, second),
{
    assert(m.insert(name, first).insert(name, second) =~= m.insert(name, second));
}

/// Storing a value under one name leaves what every getter observes under
/// any other name unchanged.
pub proof fn lemma_insert_preserves_other(
    m: Map<Seq<char>, PropertyModel>,
    name: Seq<char>,
    v: PropertyModel,
    other: Seq<char>,
)
    requires
        name != other,
    ensures
        spec_get(m.insert(name, v), other) == spec_get(m, other),
        spec_get_char(m.insert(name, v), other) == spec_get_char(m, other),
        spec_get_uchar(m.insert(name, v), other) == spec_get_uchar(m, other),
        spec_get_short(m.insert(name, v), other) == spec_get_short(m, other),
        spec_get_ushort(m.insert(name, v), other) == spec_get_ushort(m, other),
        spec_get_int(m.insert(name, v), other) == spec_get_int(m, other),
        spec_get_uint(m.insert(name, v), other) == spec_get_uint(m, other),
        spec_get_float(m.insert(name, v), other) == spec_get_float(m, other),
        spec_get_double(m.insert(name, v), other) == spec_get_double(m, other),
        spec_get_list_char(m.insert(name, v), other) == spec_get_list_char(m, other),
        spec_get_list_uchar(m.insert(name, v), other) == spec_get_list_uchar(m, other),
        spec_get_list_short(m.insert(name, v), other) == spec_get_list_short(m, other),
        spec_get_list_ushort(m.insert(name, v), other) == spec_get_list_ushort(m, other),
        spec_get_list_int(m.insert(name, v), other) == spec_get_list_int(m, other),
        spec_get_list_uint(m.insert(name, v), other) == spec_get_list_uint(m, other),
        spec_get_list_float(m.insert(name, v), other) == spec_get_list_float(m, other),
        spec_get_list_double(m.insert(name, v), other) == spec_get_list_double(m, other),
{
}

/// The element model after storing, in order, every (name, value) pair of
/// `pairs` into an element whose model was `m`.
pub open spec fn insert_all(
    m: Map<Seq<char>, PropertyModel>,
    pairs: Seq<(Seq<char>, PropertyModel)>,
) -> Map<Seq<char>, PropertyModel>
    decreases pairs.len(),
{
    if pairs.len() == 0 {
        m
    } else {
        insert_all(m, pairs.drop_last()).insert(pairs.last().0, pairs.last().1)
    }
}

/// Round trip: after storing any sequence of values under pairwise distinct
/// names, each stored value — of any of the sixteen kinds, empty lists
/// included — is recovered intact under its own name, so the matching
/// getter observes exactly the value that was stored
/// (by [`lemma_insert_then_get`] applied to the recovered value).
pub proof fn lemma_round_trip(
    m: Map<Seq<char>, PropertyModel>,
    pairs: Seq<(Seq<char>, PropertyModel)>,
    i: int,
)
    requires
        0 <= i < pairs.len(),
        forall|p: int, q: int| 0 <= p < q < pairs.len() ==> pairs[p].0 != pairs[q].0,
    ensures
        spec_get(insert_all(m, pairs), pairs[i].0) == Some(pairs[i].1),
    decreases pairs.len(),
{
    if i < pairs.len() - 1 {
        lemma_round_trip(m, pairs.drop_last(), i);
        assert(pairs.last().0 != pairs[i].0);
    }
}

} // verus!
