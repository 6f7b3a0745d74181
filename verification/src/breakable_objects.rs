use vstd::prelude::*;

use std::collections::HashSet;

use crate::gameplay_materials::GameplayMaterial;

verus! {

broadcast use vstd::std_specs::hash::group_hash_axioms;

/// Marks a material body that is replaced by debris after a sufficiently strong impact.
#[derive(Clone, Copy, Debug, Default, PartialEq, Eq, Structural)]
pub struct BreakableObject;

/// Marks ordinary dynamic debris created when a breakable body is destroyed.
#[derive(Clone, Copy, Debug, Default, PartialEq, Eq, Structural)]
pub struct BreakageFragment;

/// How many fragments a broken body of the material leaves behind.
pub open spec fn fragment_count_spec(material: GameplayMaterial) -> nat {
    match material {
        GameplayMaterial::Ceramic => 4,
        GameplayMaterial::Wood => 3,
        GameplayMaterial::Stone => 4,
        GameplayMaterial::Metal => 0,
        GameplayMaterial::Glass => 0,
    }
}

/// The number of predefined fragments of the material.
pub fn fragment_count(material: GameplayMaterial) -> (count: usize)
    ensures
        count == fragment_count_spec(material),
{
    match material {
        GameplayMaterial::Ceramic => 4,
        GameplayMaterial::Wood => 3,
        GameplayMaterial::Stone => 4,
        GameplayMaterial::Metal => 0,
        GameplayMaterial::Glass => 0,
    }
}

/// Claims the break of `entity` this frame. The claim succeeds when the impact
/// exceeded the body's threshold and the entity has not been claimed yet this frame;
/// a successful claim records the entity.
pub fn claim_break(entity: u64, exceeds_threshold: bool, already_broken: &mut HashSet<u64>) -> (claimed: bool)
    ensures
        claimed == (exceeds_threshold && !old(already_broken)@.contains(entity)),
        final(already_broken)@ == (if exceeds_threshold {
            old(already_broken)@.insert(entity)
        } else {
            old(already_broken)@
        }),
{
    if !exceeds_threshold {
        return false;
    }
    already_broken.insert(entity)
}

/// Claims the breaks of a frame's impacts in order; `claims[i]` says whether the
/// body `impacts[i].0`, hit with an impact `impacts[i].1` over its threshold, breaks now.
pub fn claim_breaks(impacts: &Vec<(u64, bool)>) -> (claims: Vec<bool>)
    ensures
        claims@.len() == impacts@.len(),
        forall|i: int|
            0 <= i < impacts@.len() ==> #[trigger] claims@[i] == (impacts@[i].1 && !exists|j: int|
                0 <= j < i && impacts@[j].0 == impacts@[i].0 && impacts@[j].1),
{
    let mut already_broken: HashSet<u64> = HashSet::new();
    let mut claims: Vec<bool> = Vec::new();
    let mut i: usize = 0;
    while i < impacts.len()
        invariant
            0 <= i <= impacts@.len(),
            claims@.len() == i,
            forall|e: u64|
                #![trigger already_broken@.contains(e)]
                already_broken@.contains(e) <==> exists|j: int|
                    0 <= j < i && impacts@[j].0 == e && impacts@[j].1,
            forall|k: int|
                0 <= k < i ==> #[trigger] claims@[k] == (impacts@[k].1 && !exists|j: int|
                    0 <= j < k && impacts@[j].0 == impacts@[k].0 && impacts@[j].1),
        decreases impacts@.len() - i,
    {
        let (entity, exceeds) = impacts[i];
        let ghost before = already_broken@;
        let claimed = claim_break(entity, exceeds, &mut already_broken);
        claims.push(claimed);
        proof {
            assert forall|e: u64| #![trigger already_broken@.contains(e)]
                already_broken@.contains(e) <==> exists|j: int|
                    0 <= j < i + 1 && impacts@[j].0 == e && impacts@[j].1 by {
                if already_broken@.contains(e) {
                    if !before.contains(e) {
                        assert(impacts@[i as int].0 == e && impacts@[i as int].1);
                    }
                }
                if exists|j: int| 0 <= j < i + 1 && impacts@[j].0 == e && impacts@[j].1 {
                    let j = choose|j: int| 0 <= j < i + 1 && impacts@[j].0 == e && impacts@[j].1;
                    if j < i {
                        assert(before.contains(e));
                    }
                }
            }
        }
        i += 1;
    }
    claims
}

/// A body breaks at most once in a frame: once its claim succeeded, every later claim of
/// the same body in that frame fails, whatever its impact.
pub proof fn lemma_body_breaks_once(impacts: Seq<(u64, bool)>, claims: Seq<bool>, a: int, b: int)
    requires
        claims.len() == impacts.len(),
        forall|i: int|
            0 <= i < impacts.len() ==> #[trigger] claims[i] == (impacts[i].1 && !exists|j: int|
                0 <= j < i && impacts[j].0 == impacts[i].0 && impacts[j].1),
        0 <= a < b < impacts.len(),
        impacts[a].0 == impacts[b].0,
        claims[a],
    ensures
        !claims[b],
{
    assert(claims[a]);
    assert(0 <= a < b && impacts[a].0 == impacts[b].0 && impacts[a].1);
}

} // verus!
