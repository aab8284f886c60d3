use vstd::prelude::*;

use crate::object_type::{type_of_name, ObjectType};
use crate::text::chars_of;
use crate::text::string_from_chars;

verus! {

/// What a licensed range says, as mathematical values.
pub struct RangeModel {
    pub object_type: ObjectType,
    pub range_from: int,
    pub range_to: int,
    pub permission: Seq<char>,
}

/// What an inventory object says, as mathematical values.
pub struct ObjectModel {
    pub object_type: ObjectType,
    pub id: int,
    pub name: Seq<char>,
}

/// A range of object ids of one type that a license grants, with the license's
/// permission codes, which are carried along and never interpreted.
#[derive(Debug)]
pub struct ObjectRange {
    pub object_type: ObjectType,
    pub quantity: i64,
    pub range_from: i64,
    pub range_to: i64,
    pub permission: String,
}

impl View for ObjectRange {
    type V = RangeModel;

    open spec fn view(&self) -> RangeModel {
        RangeModel {
            object_type: self.object_type,
            range_from: self.range_from as int,
            range_to: self.range_to as int,
            permission: self.permission@,
        }
    }
}

/// Whether a range of these bounds can be held: its bounds are ordered and the
/// number of ids it covers fits in an `i64`.
pub open spec fn valid_bounds(range_from: int, range_to: int) -> bool {
    range_from <= range_to && range_to - range_from + 1 <= i64::MAX
}

impl ObjectRange {
    /// The bounds are ordered and `quantity` is the number of ids they cover.
    pub open spec fn wf(&self) -> bool {
        &&& self.range_from <= self.range_to
        &&& self.quantity == self.range_to - self.range_from + 1
    }

    /// The range of `object_type` from `range_from` to `range_to`, both included.
    pub fn with_type(object_type: ObjectType, range_from: i64, range_to: i64, permission: String)
        -> (r: ObjectRange)
        requires
            valid_bounds(range_from as int, range_to as int),
        ensures
            r.wf(),
            r@ == (RangeModel {
                object_type,
                range_from: range_from as int,
                range_to: range_to as int,
                permission: permission@,
            }),
    {
        ObjectRange {
            object_type,
            quantity: range_to - range_from + 1,
            range_from,
            range_to,
            permission,
        }
    }

    /// The range of the type named `object_type` from `range_from` to `range_to`.
    pub fn new(object_type: &str, range_from: i64, range_to: i64, permission: &str) -> (r: ObjectRange)
        requires
            type_of_name(object_type@) is Some,
            valid_bounds(range_from as int, range_to as int),
        ensures
            r.wf(),
            r@ == (RangeModel {
                object_type: type_of_name(object_type@)->Some_0,
                range_from: range_from as int,
                range_to: range_to as int,
                permission: permission@,
            }),
    {
        let cs = chars_of(permission);
        Self::with_type(ObjectType::from(object_type), range_from, range_to, string_from_chars(cs.as_slice()))
    }
}

/// An object that the inventory defines.
#[derive(Debug)]
pub struct Object {
    pub object_type: ObjectType,
    pub id: i64,
    pub name: String,
}

impl View for Object {
    type V = ObjectModel;

    open spec fn view(&self) -> ObjectModel {
        ObjectModel { object_type: self.object_type, id: self.id as int, name: self.name@ }
    }
}

impl Object {
    /// The object of the type named `object_type`, with the given id and name.
    pub fn new(object_type: &str, id: i64, name: &str) -> (r: Object)
        requires
            type_of_name(object_type@) is Some,
        ensures
            r@ == (ObjectModel {
                object_type: type_of_name(object_type@)->Some_0,
                id: id as int,
                name: name@,
            }),
    {
        let cs = chars_of(name);
        Object { object_type: ObjectType::from(object_type), id, name: string_from_chars(cs.as_slice()) }
    }
}

pub open spec fn range_models(s: Seq<ObjectRange>) -> Seq<RangeModel> {
    s.map_values(|r: ObjectRange| r@)
}

pub open spec fn object_models(s: Seq<Object>) -> Seq<ObjectModel> {
    s.map_values(|o: Object| o@)
}

/// Every range of the sequence is well formed.
pub open spec fn all_wf(s: Seq<ObjectRange>) -> bool {
    forall|i: int| 0 <= i < s.len() ==> (#[trigger] s[i]).wf()
}

/// The built-in allowance for customizations that every license grants.
pub open spec fn seed_models() -> Seq<RangeModel> {
    seq![
        RangeModel { object_type: ObjectType::TableData, range_from: 50000, range_to: 50009, permission: "RIMDX"@ },
        RangeModel { object_type: ObjectType::Page, range_from: 50000, range_to: 50099, permission: "X"@ },
        RangeModel { object_type: ObjectType::Report, range_from: 50000, range_to: 50099, permission: "X"@ },
        RangeModel { object_type: ObjectType::Codeunit, range_from: 50000, range_to: 50099, permission: "X"@ },
        RangeModel { object_type: ObjectType::XMLport, range_from: 50000, range_to: 50099, permission: "X"@ },
        RangeModel { object_type: ObjectType::Query, range_from: 50000, range_to: 50099, permission: "X"@ },
    ]
}

fn seed_range(object_type: ObjectType, range_to: i64, permission: &str) -> (r: ObjectRange)
    requires
        50000 <= range_to <= 50099,
    ensures
        r.wf(),
        r@ == (RangeModel { object_type, range_from: 50000, range_to: range_to as int, permission: permission@ }),
{
    let cs = chars_of(permission);
    ObjectRange::with_type(object_type, 50000, range_to, string_from_chars(cs.as_slice()))
}

/// The built-in ranges (see `seed_models`), in order.
pub fn default_ranges() -> (r: Vec<ObjectRange>)
    ensures
        range_models(r@) == seed_models(),
        all_wf(r@),
{
    let r = vec![
        seed_range(ObjectType::TableData, 50009, "RIMDX"),
        seed_range(ObjectType::Page, 50099, "X"),
        seed_range(ObjectType::Report, 50099, "X"),
        seed_range(ObjectType::Codeunit, 50099, "X"),
        seed_range(ObjectType::XMLport, 50099, "X"),
        seed_range(ObjectType::Query, 50099, "X"),
    ];
    assert(range_models(r@) =~= seed_models());
    r
}

} // verus!
