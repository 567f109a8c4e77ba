//! Ready-made element container implementing every capability trait.

use vstd::prelude::*;

use crate::property::PlyElement;
use crate::property::PlyElementSet;
use crate::property::PlyGetChar;
use crate::property::PlyGetDouble;
use crate::property::PlyGetFloat;
use crate::property::PlyGetInt;
use crate::property::PlyGetListChar;
use crate::property::PlyGetListDouble;
use crate::property::PlyGetListFloat;
use crate::property::PlyGetListInt;
use crate::property::PlyGetListShort;
use crate::property::PlyGetListUChar;
use crate::property::PlyGetListUInt;
use crate::property::PlyGetListUShort;
use crate::property::PlyGetShort;
use crate::property::PlyGetUChar;
use crate::property::PlyGetUInt;
use crate::property::PlyGetUShort;
use crate::property::Property;
use crate::property::PropertyModel;
use crate::property::spec_get;
use crate::property::spec_get_char;
use crate::property::spec_get_double;
use crate::property::spec_get_float;
use crate::property::spec_get_int;
use crate::property::spec_get_list_char;
use crate::property::spec_get_list_double;
use crate::property::spec_get_list_float;
use crate::property::spec_get_list_int;
use crate::property::spec_get_list_short;
use crate::property::spec_get_list_uchar;
use crate::property::spec_get_list_uint;
use crate::property::spec_get_list_ushort;
use crate::property::spec_get_short;
use crate::property::spec_get_uchar;
use crate::property::spec_get_uint;
use crate::property::spec_get_ushort;

verus! {

/// No two entries carry the same property name.
spec fn keys_distinct(s: Seq<(String, Property)>) -> bool {
    forall|i: int, j: int| 0 <= i < j < s.len() ==> s[i].0@ != s[j].0@
}

/// The name-to-value map an entry sequence denotes; a later entry for a
/// name would win, though the container keeps names unique.
spec fn assoc_map(s: Seq<(String, Property)>) -> Map<Seq<char>, PropertyModel>
    decreases s.len(),
{
    if s.len() == 0 {
        Map::empty()
    } else {
        assoc_map(s.drop_last()).insert(s.last().0@, s.last().1@)
    }
}

proof fn lemma_assoc_absent(s: Seq<(String, Property)>, k: Seq<char>)
    requires
        forall|j: int| 0 <= j < s.len() ==> s[j].0@ != k,
    ensures
        !assoc_map(s).contains_key(k),
    decreases s.len(),
{
    if s.len() > 0 {
        lemma_assoc_absent(s.drop_last(), k);
    }
}

proof fn lemma_assoc_find(s: Seq<(String, Property)>, k: Seq<char>, i: int)
    requires
        0 <= i < s.len(),
        s[i].0@ == k,
        forall|j: int| i < j < s.len() ==> s[j].0@ != k,
    ensures
        assoc_map(s).contains_key(k),
        assoc_map(s)[k] == s[i].1@,
    decreases s.len(),
{
    if i < s.len() - 1 {
        lemma_assoc_find(s.drop_last(), k, i);
    }
}

proof fn lemma_assoc_update(s: Seq<(String, Property)>, i: int, p: (String, Property))
    requires
        0 <= i < s.len(),
        p.0@ == s[i].0@,
        forall|j: int| i < j < s.len() ==> s[j].0@ != s[i].0@,
    ensures
        assoc_map(s.update(i, p)) == assoc_map(s).insert(p.0@, p.1@),
    decreases s.len(),
{
    let s2 = s.update(i, p);
    if i == s.len() - 1 {
        assert(s2.drop_last() =~= s.drop_last());
        assert(assoc_map(s).insert(p.0@, p.1@) =~= assoc_map(s2));
    } else {
        let d = s.drop_last();
        assert(s2.drop_last() =~= d.update(i, p));
        lemma_assoc_update(d, i, p);
        assert(s.last().0@ != p.0@);
        assert(assoc_map(s).insert(p.0@, p.1@) =~= assoc_map(s2));
    }
}

/// Index of the first entry named `key`, or `None` when no entry is.
fn find_index(entries: &Vec<(String, Property)>, key: &str) -> (r: Option<usize>)
    ensures
        (match r {
            Some(i) => i < entries@.len() && entries@[i as int].0@ == key@ && (forall|j: int|
                0 <= j < i ==> entries@[j].0@ != key@),
            None => forall|j: int| 0 <= j < entries@.len() ==> entries@[j].0@ != key@,
        }),
{
    let key_string: String = key.to_owned();
    let n = entries.len();
    let mut i: usize = 0;
    while i < n
        invariant
            n == entries@.len(),
            i <= n,
            key_string@ == key@,
            forall|j: int| 0 <= j < i ==> entries@[j].0@ != key@,
        decreases n - i,
    {
        let pair = &entries[i];
        if pair.0 == key_string {
            return Some(i);
        }
        i += 1;
    }
    None
}

/// Ready-to-use container for all kinds of element definitions.
///
/// The element classes a file can declare are only known once its header
/// has been read, so a generic reader needs a container that can hold any
/// set of named properties.  `DefaultElement` is that container: a
/// name-to-value association holding each name at most once, implementing
/// the construction and write capabilities and all sixteen getters.
/// Callers needing a more compact or faster representation can instead
/// implement the capability traits on a structure of their own.
pub struct DefaultElement {
    entries: Vec<(String, Property)>,
}

impl DefaultElement {
    #[verifier::type_invariant]
    spec fn wf(&self) -> bool {
        keys_distinct(self.entries@)
    }

    /// The stored value under `key`, regardless of its kind.
    fn lookup(&self, key: &str) -> (r: Option<&Property>)
        ensures
            (match r {
                Some(p) => spec_get(self@, key@) == Some(p@),
                None => spec_get(self@, key@) is None,
            }),
    {
        proof {
            use_type_invariant(self);
        }
        match find_index(&self.entries, key) {
            Some(i) => {
                proof {
                    lemma_assoc_find(self.entries@, key@, i as int);
                }
                let pair = &self.entries[i];
                Some(&pair.1)
            },
            None => {
                proof {
                    lemma_assoc_absent(self.entries@, key@);
                }
                None
            },
        }
    }
}

impl View for DefaultElement {
    type V = Map<Seq<char>, PropertyModel>;

    closed spec fn view(&self) -> Map<Seq<char>, PropertyModel> {
        assoc_map(self.entries@)
    }
}

impl PlyElement for DefaultElement {
    open spec fn props(&self) -> Map<Seq<char>, PropertyModel> {
        self.view()
    }

    fn new() -> (r: Self)
        ensures
            r@ == Map::<Seq<char>, PropertyModel>::empty(),
    {
        DefaultElement { entries: Vec::new() }
    }
}

impl PlyElementSet for DefaultElement {
    fn set_property(&mut self, property_name: String, property: Property)
        ensures
            final(self)@ == old(self)@.insert(property_name@, property@),
    {
        proof {
            use_type_invariant(&*self);
        }
        let mut entries: Vec<(String, Property)> = Vec::new();
        std::mem::swap(&mut entries, &mut self.entries);
        let ghost s0 = entries@;
        match find_index(&entries, property_name.as_str()) {
            Some(i) => {
                entries[i] = (property_name, property);
                proof {
                    lemma_assoc_update(s0, i as int, entries@[i as int]);
                }
            },
            None => {
                entries.push((property_name, property));
                proof {
                    assert(entries@.drop_last() =~= s0);
                }
            },
        }
        self.entries = entries;
    }
}

impl PlyGetChar for DefaultElement {
    fn get_char(&self, property_name: &str) -> (r: Option<i8>)
        ensures
            r == spec_get_char(self@, property_name@),
    {
        match self.lookup(property_name) {
            Some(p) => match p {
                Property::Char(x) => Some(*x),
                _ => None,
            },
            None => None,
        }
    }
}

impl PlyGetUChar for DefaultElement {
    fn get_uchar(&self, property_name: &str) -> (r: Option<u8>)
        ensures
            r == spec_get_uchar(self@, property_name@),
    {
        match self.lookup(property_name) {
            Some(p) => match p {
                Property::UChar(x) => Some(*x),
                _ => None,
            },
            None => None,
        }
    }
}

impl PlyGetShort for DefaultElement {
    fn get_short(&self, property_name: &str) -> (r: Option<i16>)
        ensures
            r == spec_get_short(self@, property_name@),
    {
        match self.lookup(property_name) {
            Some(p) => match p {
                Property::Short(x) => Some(*x),
                _ => None,
            },
            None => None,
        }
    }
}

impl PlyGetUShort for DefaultElement {
    fn get_ushort(&self, property_name: &str) -> (r: Option<u16>)
        ensures
            r == spec_get_ushort(self@, property_name@),
    {
        match self.lookup(property_name) {
            Some(p) => match p {
                Property::UShort(x) => Some(*x),
                _ => None,
            },
            None => None,
        }
    }
}

impl PlyGetInt for DefaultElement {
    fn get_int(&self, property_name: &str) -> (r: Option<i32>)
        ensures
            r == spec_get_int(self@, property_name@),
    {
        match self.lookup(property_name) {
            Some(p) => match p {
                Property::Int(x) => Some(*x),
                _ => None,
            },
            None => None,
        }
    }
}

impl PlyGetUInt for DefaultElement {
    fn get_uint(&self, property_name: &str) -> (r: Option<u32>)
        ensures
            r == spec_get_uint(self@, property_name@),
    {
        match self.lookup(property_name) {
            Some(p) => match p {
                Property::UInt(x) => Some(*x),
                _ => None,
            },
            None => None,
        }
    }
}

impl PlyGetFloat for DefaultElement {
    fn get_float(&self, property_name: &str) -> (r: Option<u32>)
        ensures
            r == spec_get_float(self@, property_name@),
    {
        match self.lookup(property_name) {
            Some(p) => match p {
                Property::Float(x) => Some(*x),
                _ => None,
            },
            None => None,
        }
    }
}

impl PlyGetDouble for DefaultElement {
    fn get_double(&self, property_name: &str) -> (r: Option<u64>)
        ensures
            r == spec_get_double(self@, property_name@),
    {
        match self.lookup(property_name) {
            Some(p) => match p {
                Property::Double(x) => Some(*x),
                _ => None,
            },
            None => None,
        }
    }
}

impl PlyGetListChar for DefaultElement {
    fn get_list_char(&self, property_name: &str) -> (r: Option<&[i8]>)
        ensures
            (match r {
                Some(v) => spec_get_list_char(self@, property_name@) == Some(v@),
                None => spec_get_list_char(self@, property_name@) is None,
            }),
    {
        match self.lookup(property_name) {
            Some(p) => match p {
                Property::ListChar(x) => Some(x.as_slice()),
                _ => None,
            },
            None => None,
        }
    }
}

impl PlyGetListUChar for DefaultElement {
    fn get_list_uchar(&self, property_name: &str) -> (r: Option<&[u8]>)
        ensures
            (match r {
                Some(v) => spec_get_list_uchar(self@, property_name@) == Some(v@),
                None => spec_get_list_uchar(self@, property_name@) is None,
            }),
    {
        match self.lookup(property_name) {
            Some(p) => match p {
                Property::ListUChar(x) => Some(x.as_slice()),
                _ => None,
            },
            None => None,
        }
    }
}

impl PlyGetListShort for DefaultElement {
    fn get_list_short(&self, property_name: &str) -> (r: Option<&[i16]>)
        ensures
            (match r {
                Some(v) => spec_get_list_short(self@, property_name@) == Some(v@),
                None => spec_get_list_short(self@, property_name@) is None,
            }),
    {
        match self.lookup(property_name) {
            Some(p) => match p {
                Property::ListShort(x) => Some(x.as_slice()),
                _ => None,
            },
            None => None,
        }
    }
}

impl PlyGetListUShort for DefaultElement {
    fn get_list_ushort(&self, property_name: &str) -> (r: Option<&[u16]>)
        ensures
            (match r {
                Some(v) => spec_get_list_ushort(self@, property_name@) == Some(v@),
                None => spec_get_list_ushort(self@, property_name@) is None,
            }),
    {
        match self.lookup(property_name) {
            Some(p) => match p {
                Property::ListUShort(x) => Some(x.as_slice()),
                _ => None,
            },
            None => None,
        }
    }
}

impl PlyGetListInt for DefaultElement {
    fn get_list_int(&self, property_name: &str) -> (r: Option<&[i32]>)
        ensures
            (match r {
                Some(v) => spec_get_list_int(self@, property_name@) == Some(v@),
                None => spec_get_list_int(self@, property_name@) is None,
            }),
    {
        match self.lookup(property_name) {
            Some(p) => match p {
                Property::ListInt(x) => Some(x.as_slice()),
                _ => None,
            },
            None => None,
        }
    }
}

impl PlyGetListUInt for DefaultElement {
    fn get_list_uint(&self, property_name: &str) -> (r: Option<&[u32]>)
        ensures
            (match r {
                Some(v) => spec_get_list_uint(self@, property_name@) == Some(v@),
                None => spec_get_list_uint(self@, property_name@) is None,
            }),
    {
        match self.lookup(property_name) {
            Some(p) => match p {
                Property::ListUInt(x) => Some(x.as_slice()),
                _ => None,
            },
            None => None,
        }
    }
}

impl PlyGetListFloat for DefaultElement {
    fn get_list_float(&self, property_name: &str) -> (r: Option<&[u32]>)
        ensures
            (match r {
                Some(v) => spec_get_list_float(self@, property_name@) == Some(v@),
                None => spec_get_list_float(self@, property_name@) is None,
            }),
    {
        match self.lookup(property_name) {
            Some(p) => match p {
                Property::ListFloat(x) => Some(x.as_slice()),
                _ => None,
            },
            None => None,
        }
    }
}

impl PlyGetListDouble for DefaultElement {
    fn get_list_double(&self, property_name: &str) -> (r: Option<&[u64]>)
        ensures
            (match r {
                Some(v) => spec_get_list_double(self@, property_name@) == Some(v@),
                None => spec_get_list_double(self@, property_name@) is None,
            }),
    {
        match self.lookup(property_name) {
            Some(p) => match p {
                Property::ListDouble(x) => Some(x.as_slice()),
                _ => None,
            },
            None => None,
        }
    }
}

} // verus!
