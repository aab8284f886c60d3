use vstd::prelude::*;

use crate::object_type::requires_license;
use crate::objects::{object_models, range_models, Object, ObjectModel, ObjectRange, RangeModel};

verus! {

/// The lowest id of the band of ids left to customizations.
pub const BAND_FROM: i64 = 50000;

/// The highest id of the band of ids left to customizations.
pub const BAND_TO: i64 = 99999;

/// Whether an id lies in the customization band; ids outside it belong to the
/// platform and are no concern of the license check.
pub open spec fn in_band(id: int) -> bool {
    BAND_FROM <= id && id <= BAND_TO
}

/// Whether the range is of the object's type and its bounds hold the object's id.
pub open spec fn range_covers(r: RangeModel, o: ObjectModel) -> bool {
    r.object_type == o.object_type && r.range_from <= o.id && o.id <= r.range_to
}

/// Whether some range covers the object.
pub open spec fn covered(ranges: Seq<RangeModel>, o: ObjectModel) -> bool {
    exists|i: int| 0 <= i < ranges.len() && range_covers(#[trigger] ranges[i], o)
}

/// Whether the object needs a license permission that no range grants.
pub open spec fn is_violation(ranges: Seq<RangeModel>, o: ObjectModel) -> bool {
    requires_license(o.object_type) && in_band(o.id) && !covered(ranges, o)
}

/// The objects that are violations, in inventory order.
pub open spec fn violations(ranges: Seq<RangeModel>, objects: Seq<ObjectModel>) -> Seq<ObjectModel>
    decreases objects.len(),
{
    if objects.len() == 0 {
        Seq::empty()
    } else {
        let earlier = violations(ranges, objects.drop_last());
        if is_violation(ranges, objects.last()) {
            earlier.push(objects.last())
        } else {
            earlier
        }
    }
}

/// The position of the first range that covers `object`, if any.
pub fn find_range(ranges: &[ObjectRange], object: &Object) -> (r: Option<usize>)
    ensures
        match r {
            Some(i) => {
                &&& i < ranges@.len()
                &&& range_covers(ranges@[i as int]@, object@)
                &&& forall|j: int| 0 <= j < i ==> !range_covers(#[trigger] ranges@[j]@, object@)
            },
            None => !covered(range_models(ranges@), object@),
        },
{
    let mut i: usize = 0;
    while i < ranges.len()
        invariant
            i <= ranges@.len(),
            forall|j: int| 0 <= j < i ==> !range_covers(#[trigger] ranges@[j]@, object@),
        decreases ranges.len() - i,
    {
        let r = &ranges[i];
        if r.object_type == object.object_type && r.range_from <= object.id && object.id <= r.range_to {
            return Some(i);
        }
        i += 1;
    }
    proof {
        let models = range_models(ranges@);
        assert forall|j: int| 0 <= j < models.len() implies !range_covers(#[trigger] models[j], object@) by {
            assert(models[j] == ranges@[j]@);
        }
    }
    None
}

/// The objects that need a license permission, lie in the customization band and
/// are covered by no range, in the order of `objects`.
pub fn find_violations(ranges: &[ObjectRange], objects: &[Object]) -> (r: Vec<Object>)
    ensures
        object_models(r@) == violations(range_models(ranges@), object_models(objects@)),
{
    let ghost models = range_models(ranges@);
    let mut r: Vec<Object> = Vec::new();
    let mut k: usize = 0;
    while k < objects.len()
        invariant
            k <= objects@.len(),
            models == range_models(ranges@),
            object_models(r@) == violations(models, object_models(objects@.subrange(0, k as int))),
        decreases objects.len() - k,
    {
        let o = &objects[k];
        let ghost before = object_models(objects@.subrange(0, k as int));
        let ghost after = object_models(objects@.subrange(0, k + 1));
        assert(after.drop_last() =~= before);
        assert(after.last() == o@);
        if o.object_type.is_licensed() && BAND_FROM <= o.id && o.id <= BAND_TO {
            let found = find_range(ranges, o);
            if found.is_none() {
                let copy = Object { object_type: o.object_type, id: o.id, name: o.name.clone() };
                assert(object_models(r@.push(copy)) =~= object_models(r@).push(copy@));
                r.push(copy);
            } else {
                let i = found.unwrap();
                assert(models[i as int] == ranges@[i as int]@);
                assert(covered(models, o@));
            }
        }
        k += 1;
    }
    assert(objects@.subrange(0, objects@.len() as int) =~= objects@);
    r
}

/// Each violation is an object of the inventory that is a violation.
pub proof fn lemma_violations_sound(ranges: Seq<RangeModel>, objects: Seq<ObjectModel>)
    ensures
        forall|k: int| 0 <= k < violations(ranges, objects).len() ==> {
            &&& is_violation(ranges, #[trigger] violations(ranges, objects)[k])
            &&& objects.contains(violations(ranges, objects)[k])
        },
    decreases objects.len(),
{
    if objects.len() > 0 {
        let rest = objects.drop_last();
        lemma_violations_sound(ranges, rest);
        assert forall|k: int| 0 <= k < violations(ranges, objects).len() implies {
            &&& is_violation(ranges, #[trigger] violations(ranges, objects)[k])
            &&& objects.contains(violations(ranges, objects)[k])
        } by {
            let v = violations(ranges, objects)[k];
            if k < violations(ranges, rest).len() {
                assert(v == violations(ranges, rest)[k]);
                let w = choose|w: int| 0 <= w < rest.len() && rest[w] == v;
                assert(objects[w] == v);
            } else {
                assert(objects[objects.len() - 1] == v);
            }
        }
    }
}

/// Each object of the inventory that is a violation is listed among the violations.
pub proof fn lemma_violations_complete(ranges: Seq<RangeModel>, objects: Seq<ObjectModel>, o: ObjectModel)
    requires
        objects.contains(o),
        is_violation(ranges, o),
    ensures
        violations(ranges, objects).contains(o),
    decreases objects.len(),
{
    let rest = objects.drop_last();
    let vs = violations(ranges, objects);
    if objects.last() == o {
        assert(vs[vs.len() - 1] == o);
    } else {
        let w = choose|w: int| 0 <= w < objects.len() && objects[w] == o;
        assert(rest[w] == o);
        lemma_violations_complete(ranges, rest, o);
        let e = violations(ranges, rest);
        let x = choose|x: int| 0 <= x < e.len() && e[x] == o;
        assert(vs[x] == o);
    }
}

/// An object of a type that needs no license is never a violation, whatever its
/// id and whatever the ranges.
pub proof fn lemma_unlicensed_never_violation(
    ranges: Seq<RangeModel>,
    objects: Seq<ObjectModel>,
    o: ObjectModel,
)
    requires
        !requires_license(o.object_type),
    ensures
        !violations(ranges, objects).contains(o),
{
    lemma_violations_sound(ranges, objects);
}

/// An object whose id lies outside the customization band is never a violation.
pub proof fn lemma_out_of_band_never_violation(
    ranges: Seq<RangeModel>,
    objects: Seq<ObjectModel>,
    o: ObjectModel,
)
    requires
        o.id < BAND_FROM || o.id > BAND_TO,
    ensures
        !violations(ranges, objects).contains(o),
{
    lemma_violations_sound(ranges, objects);
}

/// An inventory object of a licensed type in the customization band is a violation
/// exactly when no range of its type holds its id.
pub proof fn lemma_coverage(ranges: Seq<RangeModel>, objects: Seq<ObjectModel>, o: ObjectModel)
    requires
        objects.contains(o),
        requires_license(o.object_type),
        in_band(o.id),
    ensures
        !violations(ranges, objects).contains(o) <==> exists|i: int|
            0 <= i < ranges.len() && #[trigger] ranges[i].object_type == o.object_type
                && ranges[i].range_from <= o.id && o.id <= ranges[i].range_to,
{
    lemma_violations_sound(ranges, objects);
    if !covered(ranges, o) {
        lemma_violations_complete(ranges, objects, o);
    }
    if exists|i: int| 0 <= i < ranges.len() && #[trigger] ranges[i].object_type == o.object_type
        && ranges[i].range_from <= o.id && o.id <= ranges[i].range_to {
        let i = choose|i: int| 0 <= i < ranges.len() && #[trigger] ranges[i].object_type == o.object_type
            && ranges[i].range_from <= o.id && o.id <= ranges[i].range_to;
        assert(range_covers(ranges[i], o));
    }
}

proof fn lemma_violations_fixed(ranges: Seq<RangeModel>, objects: Seq<ObjectModel>)
    requires
        forall|k: int| 0 <= k < objects.len() ==> is_violation(ranges, #[trigger] objects[k]),
    ensures
        violations(ranges, objects) == objects,
    decreases objects.len(),
{
    if objects.len() > 0 {
        let rest = objects.drop_last();
        assert forall|k: int| 0 <= k < rest.len() implies is_violation(ranges, #[trigger] rest[k]) by {
            assert(rest[k] == objects[k]);
        }
        lemma_violations_fixed(ranges, rest);
        assert(is_violation(ranges, objects[objects.len() - 1]));
        assert(rest.push(objects.last()) =~= objects);
    }
}

/// Reconciling is idempotent and stable: reconciling the violations against the
/// same ranges gives them back unchanged, in the same order.
pub proof fn lemma_reconcile_idempotent(ranges: Seq<RangeModel>, objects: Seq<ObjectModel>)
    ensures
        violations(ranges, violations(ranges, objects)) == violations(ranges, objects),
{
    lemma_violations_sound(ranges, objects);
    lemma_violations_fixed(ranges, violations(ranges, objects));
}

} // verus!
