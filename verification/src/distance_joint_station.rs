use vstd::prelude::*;

verus! {

/// One of the two bodies held apart by the distance joint.
#[derive(Clone, Copy, Debug, PartialEq, Eq, Structural)]
pub enum DistanceJointBody {
    Left,
    Right,
}

impl DistanceJointBody {
    /// The body's label.
    pub fn label(self) -> (s: &'static str)
        ensures
            s@ == (if self == DistanceJointBody::Left {
                "LEFT"@
            } else {
                "RIGHT"@
            }),
    {
        match self {
            DistanceJointBody::Left => "LEFT",
            DistanceJointBody::Right => "RIGHT",
        }
    }
}

/// Marks one of the bodies of the distance-joint demonstration.
#[derive(Clone, Copy, Debug, PartialEq, Eq, Structural)]
pub struct DistanceJointDemoBody {
    pub side: DistanceJointBody,
}

/// The controls of the distance-joint station.
#[derive(Clone, Copy, Debug, PartialEq, Eq, Structural)]
pub enum DistanceJointAction {
    Increase,
    Decrease,
}

/// A request to change the configured distance.
#[derive(Clone, Copy, Debug, PartialEq, Eq, Structural)]
pub struct DistanceJointStationAction {
    pub action: DistanceJointAction,
}

/// The net number of distance steps that the actions ask for: increases minus decreases.
pub open spec fn net_steps_spec(actions: Seq<DistanceJointStationAction>) -> int
    decreases actions.len(),
{
    if actions.len() == 0 {
        0
    } else {
        net_steps_spec(actions.drop_last()) + if actions.last().action
            == DistanceJointAction::Increase {
            1int
        } else {
            -1int
        }
    }
}

/// The net number of distance steps of a frame's actions; zero leaves the joint alone.
pub fn net_distance_steps(actions: &Vec<DistanceJointStationAction>) -> (steps: i64)
    requires
        actions@.len() <= i64::MAX,
    ensures
        steps == net_steps_spec(actions@),
{
    let mut steps: i64 = 0;
    let mut i: usize = 0;
    while i < actions.len()
        invariant
            i <= actions@.len(),
            actions@.len() <= i64::MAX,
            steps == net_steps_spec(actions@.take(i as int)),
            -(i as int) <= steps <= i,
        decreases actions@.len() - i,
    {
        proof {
            assert(actions@.take(i + 1).drop_last() =~= actions@.take(i as int));
        }
        if actions[i].action == DistanceJointAction::Increase {
            steps = steps + 1;
        } else {
            steps = steps - 1;
        }
        i += 1;
    }
    proof {
        assert(actions@.take(actions@.len() as int) =~= actions@);
    }
    steps
}

} // verus!
