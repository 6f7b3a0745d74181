use vstd::prelude::*;

verus! {

/// Whether the hovered body is within the player's grab distance.
#[derive(Clone, Copy, Debug, PartialEq, Eq, Structural)]
pub enum HoverReachability {
    Reachable,
    Unreachable,
}

impl Default for HoverReachability {
    fn default() -> (r: HoverReachability)
        ensures
            r == HoverReachability::Reachable,
    {
        HoverReachability::Reachable
    }
}

impl HoverReachability {
    /// Whether a grab may start on the hovered body.
    pub fn is_reachable(self) -> (reachable: bool)
        ensures
            reachable == (self == HoverReachability::Reachable),
    {
        match self {
            HoverReachability::Reachable => true,
            HoverReachability::Unreachable => false,
        }
    }
}

/// The reachability of the hovered body, given whether it lies within the grab
/// distance of the player; `None` when there is no player or the body has no position,
/// in which case the body counts as reachable.
pub fn reachability_from(within_grab_distance: Option<bool>) -> (r: HoverReachability)
    ensures
        r == (match within_grab_distance {
            Some(false) => HoverReachability::Unreachable,
            _ => HoverReachability::Reachable,
        }),
{
    match within_grab_distance {
        Some(false) => HoverReachability::Unreachable,
        _ => HoverReachability::Reachable,
    }
}

/// The render material a body shows.
#[derive(Clone, Copy, Debug, PartialEq, Eq, Structural)]
pub enum HoverMaterial {
    /// The highlight of a reachable hovered body.
    Highlight,
    /// The warning colour of a hovered body out of reach.
    Unreachable,
    /// The body's own material, remembered when the hover began.
    Original,
}

/// What the hover highlighting does to one body this frame.
#[derive(Clone, Copy, Debug, PartialEq, Eq, Structural)]
pub struct HoverMaterialChange {
    /// The material to put on the body, if it changes.
    pub material: Option<HoverMaterial>,
    /// Remember the body's current material as its original.
    pub remember_original: bool,
    /// Forget the remembered original material.
    pub forget_original: bool,
}

/// The hover highlighting of one body: a hovered body shows the highlight (or the
/// warning colour when out of reach) and its own material is remembered the first
/// time; a body no longer hovered gets its remembered material back.
pub open spec fn hover_material_change_spec(
    hovered: bool,
    reachability: HoverReachability,
    has_original: bool,
) -> HoverMaterialChange {
    if hovered {
        HoverMaterialChange {
            material: Some(
                if reachability == HoverReachability::Reachable {
                    HoverMaterial::Highlight
                } else {
                    HoverMaterial::Unreachable
                },
            ),
            remember_original: !has_original,
            forget_original: false,
        }
    } else if has_original {
        HoverMaterialChange {
            material: Some(HoverMaterial::Original),
            remember_original: false,
            forget_original: true,
        }
    } else {
        HoverMaterialChange { material: None, remember_original: false, forget_original: false }
    }
}

/// The hover highlighting decision for one body (see [`hover_material_change_spec`]).
pub fn hover_material_change(
    hovered: bool,
    reachability: HoverReachability,
    has_original: bool,
) -> (change: HoverMaterialChange)
    ensures
        change == hover_material_change_spec(hovered, reachability, has_original),
{
    if hovered {
        let material = if reachability.is_reachable() {
            HoverMaterial::Highlight
        } else {
            HoverMaterial::Unreachable
        };
        HoverMaterialChange {
            material: Some(material),
            remember_original: !has_original,
            forget_original: false,
        }
    } else if has_original {
        HoverMaterialChange {
            material: Some(HoverMaterial::Original),
            remember_original: false,
            forget_original: true,
        }
    } else {
        HoverMaterialChange { material: None, remember_original: false, forget_original: false }
    }
}

/// Hovering a body and then moving off it gives the body its own material back and
/// leaves nothing remembered: the first hover remembers the original, later hovers keep
/// it, and the first frame without hover restores and forgets it.
pub proof fn lemma_hover_then_leave_restores(
    first: HoverReachability,
    later: HoverReachability,
)
    ensures
        hover_material_change_spec(true, first, false).remember_original,
        !hover_material_change_spec(true, later, true).remember_original,
        !hover_material_change_spec(true, later, true).forget_original,
        hover_material_change_spec(false, later, true).material == Some(HoverMaterial::Original),
        hover_material_change_spec(false, later, true).forget_original,
        hover_material_change_spec(false, later, false).material.is_none(),
{
}

} // verus!
