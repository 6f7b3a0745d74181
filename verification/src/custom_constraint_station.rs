use vstd::prelude::*;

verus! {

/// Enable state of the custom distance constraint and the entities (id bits) used
/// to reinstall it.
#[derive(Clone, Copy, Debug, PartialEq, Eq, Structural)]
pub struct CustomConstraintState {
    pub constraint_entity: Option<u64>,
    pub anchor: Option<u64>,
    pub body: Option<u64>,
    pub enabled: bool,
}

/// A request to toggle the custom constraint.
#[derive(Clone, Copy, Debug, PartialEq, Eq, Structural)]
pub struct CustomConstraintAction {
    pub toggle: bool,
}

/// What must happen to the constraint component after this frame's toggles.
#[derive(Clone, Copy, Debug, PartialEq, Eq, Structural)]
pub enum ConstraintChange {
    Unchanged,
    /// Insert the constraint between `anchor` and `body` on `constraint_entity`.
    Install { constraint_entity: u64, anchor: u64, body: u64 },
    /// Remove the constraint from `constraint_entity`.
    Remove { constraint_entity: u64 },
}

/// The number of toggle requests among the actions.
pub open spec fn toggle_count(actions: Seq<CustomConstraintAction>) -> nat
    decreases actions.len(),
{
    if actions.len() == 0 {
        0
    } else {
        toggle_count(actions.drop_last()) + if actions.last().toggle { 1nat } else { 0nat }
    }
}

impl CustomConstraintState {
    /// The state before the demonstration is spawned.
    pub fn new() -> (state: CustomConstraintState)
        ensures
            state.constraint_entity.is_none() && state.anchor.is_none() && state.body.is_none() && !state.enabled,
    {
        CustomConstraintState { constraint_entity: None, anchor: None, body: None, enabled: false }
    }

    /// Records the spawned demonstration; the constraint starts enabled.
    pub fn spawned(constraint_entity: u64, anchor: u64, body: u64) -> (state: CustomConstraintState)
        ensures
            state == (CustomConstraintState {
                constraint_entity: Some(constraint_entity),
                anchor: Some(anchor),
                body: Some(body),
                enabled: true,
            }),
    {
        CustomConstraintState {
            constraint_entity: Some(constraint_entity),
            anchor: Some(anchor),
            body: Some(body),
            enabled: true,
        }
    }

    /// Applies this frame's requests: an even number of toggles cancels out; an odd
    /// number flips the constraint, provided the demonstration has been spawned.
    pub fn apply_toggles(&mut self, actions: &Vec<CustomConstraintAction>) -> (change: ConstraintChange)
        ensures
            ({
                let flips = toggle_count(actions@) % 2 == 1 && old(self).constraint_entity.is_some()
                    && old(self).anchor.is_some() && old(self).body.is_some();
                &&& final(self).constraint_entity == old(self).constraint_entity
                &&& final(self).anchor == old(self).anchor
                &&& final(self).body == old(self).body
                &&& final(self).enabled == (if flips { !old(self).enabled } else { old(self).enabled })
                &&& change == (if !flips {
                    ConstraintChange::Unchanged
                } else if !old(self).enabled {
                    ConstraintChange::Install {
                        constraint_entity: old(self).constraint_entity.unwrap(),
                        anchor: old(self).anchor.unwrap(),
                        body: old(self).body.unwrap(),
                    }
                } else {
                    ConstraintChange::Remove { constraint_entity: old(self).constraint_entity.unwrap() }
                })
            }),
    {
        let mut odd = false;
        let mut i: usize = 0;
        while i < actions.len()
            invariant
                0 <= i <= actions@.len(),
                odd == (toggle_count(actions@.take(i as int)) % 2 == 1),
            decreases actions@.len() - i,
        {
            proof {
                assert(actions@.take(i + 1).drop_last() =~= actions@.take(i as int));
            }
            if actions[i].toggle {
                odd = !odd;
            }
            i += 1;
        }
        proof {
            assert(actions@.take(actions@.len() as int) =~= actions@);
        }
        if !odd {
            return ConstraintChange::Unchanged;
        }
        match (self.constraint_entity, self.anchor, self.body) {
            (Some(constraint_entity), Some(anchor), Some(body)) => {
                self.enabled = !self.enabled;
                if self.enabled {
                    ConstraintChange::Install { constraint_entity, anchor, body }
                } else {
                    ConstraintChange::Remove { constraint_entity }
                }
            },
            _ => ConstraintChange::Unchanged,
        }
    }
}

/// Two toggle requests cancel out, and a single one flips a spawned constraint.
pub proof fn lemma_toggle_parity(a: CustomConstraintAction, b: CustomConstraintAction)
    requires
        a.toggle,
        b.toggle,
    ensures
        toggle_count(seq![a, b]) % 2 == 0,
        toggle_count(seq![a]) % 2 == 1,
{
    assert(seq![a, b].drop_last() =~= seq![a]);
    assert(seq![a].drop_last() =~= Seq::<CustomConstraintAction>::empty());
    assert(toggle_count(Seq::<CustomConstraintAction>::empty()) == 0);
    assert(toggle_count(seq![a]) == 1);
    assert(toggle_count(seq![a, b]) == 2);
}

} // verus!
