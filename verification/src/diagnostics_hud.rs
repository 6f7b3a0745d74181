use vstd::prelude::*;

verus! {

/// What the HUD needs to know of one entity.
#[derive(Clone, Copy, Debug, PartialEq, Eq, Structural)]
pub struct EntityTraits {
    pub dynamic_body: bool,
    pub sleeping: bool,
    pub collider: bool,
}

/// The live counts shown by the diagnostics overlay.
#[derive(Clone, Copy, Debug, Default, PartialEq, Eq, Structural)]
pub struct DiagnosticsSnapshot {
    pub entities: usize,
    pub dynamic_bodies: usize,
    pub sleeping_bodies: usize,
    pub colliders: usize,
}

/// The number of dynamic bodies among the entities.
pub open spec fn count_dynamic(s: Seq<EntityTraits>) -> nat
    decreases s.len(),
{
    if s.len() == 0 {
        0
    } else {
        count_dynamic(s.drop_last()) + if s.last().dynamic_body {
            1nat
        } else {
            0nat
        }
    }
}

/// The number of sleeping dynamic bodies among the entities; only dynamic bodies count.
pub open spec fn count_sleeping(s: Seq<EntityTraits>) -> nat
    decreases s.len(),
{
    if s.len() == 0 {
        0
    } else {
        count_sleeping(s.drop_last()) + if s.last().dynamic_body && s.last().sleeping {
            1nat
        } else {
            0nat
        }
    }
}

/// The number of entities with a collider.
pub open spec fn count_colliders(s: Seq<EntityTraits>) -> nat
    decreases s.len(),
{
    if s.len() == 0 {
        0
    } else {
        count_colliders(s.drop_last()) + if s.last().collider {
            1nat
        } else {
            0nat
        }
    }
}

proof fn lemma_count_bounds(s: Seq<EntityTraits>)
    ensures
        count_sleeping(s) <= count_dynamic(s),
        count_dynamic(s) <= s.len(),
        count_colliders(s) <= s.len(),
    decreases s.len(),
{
    if s.len() > 0 {
        lemma_count_bounds(s.drop_last());
    }
}

/// The snapshot of the counts over all entities.
pub fn count_entities(entities: &Vec<EntityTraits>) -> (snapshot: DiagnosticsSnapshot)
    ensures
        snapshot.entities == entities@.len(),
        snapshot.dynamic_bodies == count_dynamic(entities@),
        snapshot.sleeping_bodies == count_sleeping(entities@),
        snapshot.colliders == count_colliders(entities@),
{
    let mut snapshot = DiagnosticsSnapshot {
        entities: entities.len(),
        dynamic_bodies: 0,
        sleeping_bodies: 0,
        colliders: 0,
    };
    let mut i: usize = 0;
    while i < entities.len()
        invariant
            i <= entities@.len(),
            snapshot.entities == entities@.len(),
            snapshot.dynamic_bodies == count_dynamic(entities@.take(i as int)),
            snapshot.sleeping_bodies == count_sleeping(entities@.take(i as int)),
            snapshot.colliders == count_colliders(entities@.take(i as int)),
        decreases entities@.len() - i,
    {
        let e = entities[i];
        proof {
            let next = entities@.take(i + 1);
            assert(next.drop_last() =~= entities@.take(i as int));
            assert(next.last() == e);
            lemma_count_bounds(entities@.take(i as int));
        }
        if e.dynamic_body {
            snapshot.dynamic_bodies = snapshot.dynamic_bodies + 1;
            if e.sleeping {
                snapshot.sleeping_bodies = snapshot.sleeping_bodies + 1;
            }
        }
        if e.collider {
            snapshot.colliders = snapshot.colliders + 1;
        }
        i += 1;
    }
    proof {
        assert(entities@.take(entities@.len() as int) =~= entities@);
    }
    snapshot
}

/// The counts are consistent: sleeping bodies are among the dynamic ones, and neither
/// dynamic bodies nor colliders outnumber the entities.
pub proof fn lemma_counts_are_consistent(entities: Seq<EntityTraits>)
    ensures
        count_sleeping(entities) <= count_dynamic(entities),
        count_dynamic(entities) <= entities.len(),
        count_colliders(entities) <= entities.len(),
{
    lemma_count_bounds(entities);
}

} // verus!
