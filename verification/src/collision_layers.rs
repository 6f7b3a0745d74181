use vstd::prelude::*;

verus! {

/// Membership bit of the reserved fallback layer.
pub const DEFAULT_BIT: u32 = 1;
/// Membership bit of the player category.
pub const PLAYER_BIT: u32 = 2;
/// Membership bit of static world geometry.
pub const WORLD_BIT: u32 = 4;
/// Membership bit of ordinary dynamic objects.
pub const OBJECTS_BIT: u32 = 8;
/// Membership bit of sensor volumes.
pub const SENSORS_BIT: u32 = 16;
/// Membership bit of projectiles.
pub const PROJECTILES_BIT: u32 = 32;
/// Membership bit of ghost geometry.
pub const GHOST_BIT: u32 = 64;

/// Everything the player collides with.
pub const PLAYER_FILTER: u32 = DEFAULT_BIT | WORLD_BIT | OBJECTS_BIT | SENSORS_BIT | PROJECTILES_BIT;
/// Everything world geometry collides with.
pub const WORLD_FILTER: u32 = DEFAULT_BIT | PLAYER_BIT | OBJECTS_BIT | PROJECTILES_BIT;
/// Everything ordinary objects collide with.
pub const OBJECTS_FILTER: u32 = DEFAULT_BIT | PLAYER_BIT | WORLD_BIT | OBJECTS_BIT | SENSORS_BIT
    | PROJECTILES_BIT;
/// Everything sensors detect.
pub const SENSOR_FILTER: u32 = DEFAULT_BIT | PLAYER_BIT | OBJECTS_BIT | PROJECTILES_BIT;
/// Everything projectiles collide with by default.
pub const PROJECTILE_FILTER: u32 = DEFAULT_BIT | PLAYER_BIT | WORLD_BIT | OBJECTS_BIT | SENSORS_BIT;
/// Everything ghost geometry collides with.
pub const GHOST_FILTER: u32 = DEFAULT_BIT | PLAYER_BIT | OBJECTS_BIT | PROJECTILES_BIT;

/// Collision categories used by the sandbox's filtering demonstrations.
///
/// `Default` is the reserved fallback layer. The six variants after it
/// are the categories exposed by the station.
#[derive(Clone, Copy, Debug, PartialEq, Eq, Structural)]
pub enum SandboxLayer {
    Default,
    Player,
    World,
    Objects,
    Sensors,
    Projectiles,
    GhostLayer,
}

/// Membership and filter masks of one collider, one bit per [`SandboxLayer`].
///
/// Two colliders interact exactly when each one's filter contains a layer of
/// the other's membership (see [`layers_interact`]).
#[derive(Clone, Copy, Debug, PartialEq, Eq, Structural)]
pub struct LayerMasks {
    pub memberships: u32,
    pub filters: u32,
}

/// The collision-filter rule: each side must accept one of the other's layers.
pub open spec fn masks_interact(a: LayerMasks, b: LayerMasks) -> bool {
    (a.memberships & b.filters) != 0u32 && (b.memberships & a.filters) != 0u32
}

impl SandboxLayer {
    /// The position of the layer's bit; the fallback layer owns bit zero.
    pub open spec fn bit_index(self) -> nat {
        match self {
            SandboxLayer::Default => 0,
            SandboxLayer::Player => 1,
            SandboxLayer::World => 2,
            SandboxLayer::Objects => 3,
            SandboxLayer::Sensors => 4,
            SandboxLayer::Projectiles => 5,
            SandboxLayer::GhostLayer => 6,
        }
    }

    pub open spec fn bits_spec(self) -> u32 {
        match self {
            SandboxLayer::Default => DEFAULT_BIT,
            SandboxLayer::Player => PLAYER_BIT,
            SandboxLayer::World => WORLD_BIT,
            SandboxLayer::Objects => OBJECTS_BIT,
            SandboxLayer::Sensors => SENSORS_BIT,
            SandboxLayer::Projectiles => PROJECTILES_BIT,
            SandboxLayer::GhostLayer => GHOST_BIT,
        }
    }

    pub open spec fn label_spec(self) -> Seq<char> {
        match self {
            SandboxLayer::Default => "DEFAULT"@,
            SandboxLayer::Player => "PLAYER"@,
            SandboxLayer::World => "WORLD"@,
            SandboxLayer::Objects => "OBJECTS"@,
            SandboxLayer::Sensors => "SENSORS"@,
            SandboxLayer::Projectiles => "PROJECTILES"@,
            SandboxLayer::GhostLayer => "GHOST"@,
        }
    }

    /// The single membership bit of this layer, `1 << index`.
    pub fn to_bits(self) -> (bits: u32)
        ensures
            bits == self.bits_spec(),
            bits == 1u32 << (self.bit_index() as u32),
    {
        proof {
            assert(1u32 << 0u32 == 1u32) by (bit_vector);
            assert(1u32 << 1u32 == 2u32) by (bit_vector);
            assert(1u32 << 2u32 == 4u32) by (bit_vector);
            assert(1u32 << 3u32 == 8u32) by (bit_vector);
            assert(1u32 << 4u32 == 16u32) by (bit_vector);
            assert(1u32 << 5u32 == 32u32) by (bit_vector);
            assert(1u32 << 6u32 == 64u32) by (bit_vector);
        }
        match self {
            SandboxLayer::Default => DEFAULT_BIT,
            SandboxLayer::Player => PLAYER_BIT,
            SandboxLayer::World => WORLD_BIT,
            SandboxLayer::Objects => OBJECTS_BIT,
            SandboxLayer::Sensors => SENSORS_BIT,
            SandboxLayer::Projectiles => PROJECTILES_BIT,
            SandboxLayer::GhostLayer => GHOST_BIT,
        }
    }

    /// The text shown for this category.
    pub fn label(self) -> (s: &'static str)
        ensures
            s@ == self.label_spec(),
    {
        match self {
            SandboxLayer::Default => "DEFAULT",
            SandboxLayer::Player => "PLAYER",
            SandboxLayer::World => "WORLD",
            SandboxLayer::Objects => "OBJECTS",
            SandboxLayer::Sensors => "SENSORS",
            SandboxLayer::Projectiles => "PROJECTILES",
            SandboxLayer::GhostLayer => "GHOST",
        }
    }

    /// The six categories that are shown by the demonstration station, in display order.
    pub fn demonstrated() -> (layers: Vec<SandboxLayer>)
        ensures
            layers@ == seq![
                SandboxLayer::Player,
                SandboxLayer::World,
                SandboxLayer::Objects,
                SandboxLayer::Sensors,
                SandboxLayer::Projectiles,
                SandboxLayer::GhostLayer,
            ],
    {
        let layers = vec![
            SandboxLayer::Player,
            SandboxLayer::World,
            SandboxLayer::Objects,
            SandboxLayer::Sensors,
            SandboxLayer::Projectiles,
            SandboxLayer::GhostLayer,
        ];
        proof {
            assert(layers@ =~= seq![
                SandboxLayer::Player,
                SandboxLayer::World,
                SandboxLayer::Objects,
                SandboxLayer::Sensors,
                SandboxLayer::Projectiles,
                SandboxLayer::GhostLayer,
            ]);
        }
        layers
    }
}

/// The filter mask configured for each category.
pub open spec fn filter_spec(category: SandboxLayer) -> u32 {
    match category {
        SandboxLayer::Default => u32::MAX,
        SandboxLayer::Player => PLAYER_FILTER,
        SandboxLayer::World => WORLD_FILTER,
        SandboxLayer::Objects => OBJECTS_FILTER,
        SandboxLayer::Sensors => SENSOR_FILTER,
        SandboxLayer::Projectiles => PROJECTILE_FILTER,
        SandboxLayer::GhostLayer => GHOST_FILTER,
    }
}

/// The membership bit of each category against each configured filter.
proof fn lemma_filter_bits()
    by (bit_vector)
    ensures
        (DEFAULT_BIT & PLAYER_FILTER) != 0u32,
        (DEFAULT_BIT & WORLD_FILTER) != 0u32,
        (DEFAULT_BIT & OBJECTS_FILTER) != 0u32,
        (DEFAULT_BIT & SENSOR_FILTER) != 0u32,
        (DEFAULT_BIT & PROJECTILE_FILTER) != 0u32,
        (DEFAULT_BIT & GHOST_FILTER) != 0u32,
        (DEFAULT_BIT & 0xffff_ffffu32) != 0u32,
        (PLAYER_BIT & PLAYER_FILTER) == 0u32,
        (PLAYER_BIT & WORLD_FILTER) != 0u32,
        (PLAYER_BIT & OBJECTS_FILTER) != 0u32,
        (PLAYER_BIT & SENSOR_FILTER) != 0u32,
        (PLAYER_BIT & PROJECTILE_FILTER) != 0u32,
        (PLAYER_BIT & GHOST_FILTER) != 0u32,
        (PLAYER_BIT & 0xffff_ffffu32) != 0u32,
        (WORLD_BIT & PLAYER_FILTER) != 0u32,
        (WORLD_BIT & WORLD_FILTER) == 0u32,
        (WORLD_BIT & OBJECTS_FILTER) != 0u32,
        (WORLD_BIT & SENSOR_FILTER) == 0u32,
        (WORLD_BIT & PROJECTILE_FILTER) != 0u32,
        (WORLD_BIT & GHOST_FILTER) == 0u32,
        (WORLD_BIT & 0xffff_ffffu32) != 0u32,
        (OBJECTS_BIT & PLAYER_FILTER) != 0u32,
        (OBJECTS_BIT & WORLD_FILTER) != 0u32,
        (OBJECTS_BIT & OBJECTS_FILTER) != 0u32,
        (OBJECTS_BIT & SENSOR_FILTER) != 0u32,
        (OBJECTS_BIT & PROJECTILE_FILTER) != 0u32,
        (OBJECTS_BIT & GHOST_FILTER) != 0u32,
        (OBJECTS_BIT & 0xffff_ffffu32) != 0u32,
        (SENSORS_BIT & PLAYER_FILTER) != 0u32,
        (SENSORS_BIT & WORLD_FILTER) == 0u32,
        (SENSORS_BIT & OBJECTS_FILTER) != 0u32,
        (SENSORS_BIT & SENSOR_FILTER) == 0u32,
        (SENSORS_BIT & PROJECTILE_FILTER) != 0u32,
        (SENSORS_BIT & GHOST_FILTER) == 0u32,
        (SENSORS_BIT & 0xffff_ffffu32) != 0u32,
        (PROJECTILES_BIT & PLAYER_FILTER) != 0u32,
        (PROJECTILES_BIT & WORLD_FILTER) != 0u32,
        (PROJECTILES_BIT & OBJECTS_FILTER) != 0u32,
        (PROJECTILES_BIT & SENSOR_FILTER) != 0u32,
        (PROJECTILES_BIT & PROJECTILE_FILTER) == 0u32,
        (PROJECTILES_BIT & GHOST_FILTER) != 0u32,
        (PROJECTILES_BIT & 0xffff_ffffu32) != 0u32,
        (GHOST_BIT & PLAYER_FILTER) == 0u32,
        (GHOST_BIT & WORLD_FILTER) == 0u32,
        (GHOST_BIT & OBJECTS_FILTER) == 0u32,
        (GHOST_BIT & SENSOR_FILTER) == 0u32,
        (GHOST_BIT & PROJECTILE_FILTER) == 0u32,
        (GHOST_BIT & GHOST_FILTER) == 0u32,
        (GHOST_BIT & 0xffff_ffffu32) != 0u32,
{
}

/// Which categories the sandbox means to collide, stated pair by pair: the fallback
/// layer meets everything; ghost geometry meets nothing else; two colliders of one
/// category meet only when they are ordinary objects; and of two different categories
/// only static world geometry and sensors ignore each other.
pub open spec fn designed_to_interact(a: SandboxLayer, b: SandboxLayer) -> bool {
    if a == SandboxLayer::Default || b == SandboxLayer::Default {
        true
    } else if a == SandboxLayer::GhostLayer || b == SandboxLayer::GhostLayer {
        false
    } else if a == b {
        a == SandboxLayer::Objects
    } else {
        !((a == SandboxLayer::World && b == SandboxLayer::Sensors) || (a == SandboxLayer::Sensors
            && b == SandboxLayer::World))
    }
}

/// The configured masks of a category.
pub open spec fn configured_masks(category: SandboxLayer) -> LayerMasks {
    LayerMasks { memberships: category.bits_spec(), filters: filter_spec(category) }
}

/// The layer table does what the sandbox means: two colliders configured with
/// [`layers_for`] interact exactly when [`designed_to_interact`] says so. In particular two
/// ordinary objects collide with each other, the player and the world, and nothing but the
/// fallback layer meets ghost geometry.
pub proof fn lemma_layer_table(a: SandboxLayer, b: SandboxLayer)
    ensures
        masks_interact(configured_masks(a), configured_masks(b)) == designed_to_interact(a, b),
{
    lemma_filter_bits();
}

/// Returns the normal membership and filter configuration for one category.
pub fn layers_for(category: SandboxLayer) -> (layers: LayerMasks)
    ensures
        layers.memberships == category.bits_spec(),
        layers.filters == filter_spec(category),
        forall|other: SandboxLayer|
            #![trigger configured_masks(other)]
            masks_interact(layers, configured_masks(other)) == designed_to_interact(category, other),
{
    proof {
        assert forall|other: SandboxLayer|
            #![trigger configured_masks(other)]
            masks_interact(configured_masks(category), configured_masks(other)) == designed_to_interact(
                category,
                other,
            ) by {
            lemma_layer_table(category, other);
        }
    }
    let filters = match category {
        SandboxLayer::Default => u32::MAX,
        SandboxLayer::Player => PLAYER_FILTER,
        SandboxLayer::World => WORLD_FILTER,
        SandboxLayer::Objects => OBJECTS_FILTER,
        SandboxLayer::Sensors => SENSOR_FILTER,
        SandboxLayer::Projectiles => PROJECTILE_FILTER,
        SandboxLayer::GhostLayer => GHOST_FILTER,
    };
    LayerMasks { memberships: category.to_bits(), filters }
}

/// Returns the projectile configuration, optionally allowing it to hit ghosts.
pub fn projectile_layers(collide_with_ghost: bool) -> (layers: LayerMasks)
    ensures
        layers.memberships == PROJECTILES_BIT,
        layers.filters == (if collide_with_ghost {
            PROJECTILE_FILTER | GHOST_BIT
        } else {
            PROJECTILE_FILTER
        }),
{
    let mut layers = layers_for(SandboxLayer::Projectiles);
    if collide_with_ghost {
        layers.filters = layers.filters | SandboxLayer::GhostLayer.to_bits();
    }
    layers
}

/// Layers built from one membership category and one filter category.
pub fn demo_layers(membership: SandboxLayer, filter: SandboxLayer) -> (layers: LayerMasks)
    ensures
        layers.memberships == membership.bits_spec(),
        layers.filters == filter.bits_spec(),
{
    LayerMasks { memberships: membership.to_bits(), filters: filter.to_bits() }
}

/// Whether two colliders with these masks are allowed to collide.
pub fn layers_interact(a: LayerMasks, b: LayerMasks) -> (interact: bool)
    ensures
        interact == masks_interact(a, b),
{
    (a.memberships & b.filters) != 0 && (b.memberships & a.filters) != 0
}

impl LayerMasks {
    /// Whether a collider with these masks may collide with one with `other`.
    pub fn interacts_with(self, other: LayerMasks) -> (interact: bool)
        ensures
            interact == masks_interact(self, other),
    {
        layers_interact(self, other)
    }
}

/// One labelled object in the collision-layer laboratory.
#[derive(Clone, Copy, Debug, PartialEq, Eq)]
pub struct CollisionLayerDemoObject {
    pub category: SandboxLayer,
    pub label: &'static str,
}

/// Whether the projectiles currently also collide with ghost geometry.
#[derive(Clone, Copy, Debug, PartialEq, Eq, Structural)]
pub struct CollisionLayerDemoState {
    pub projectile_collides_with_ghost: bool,
}

/// Controls exposed by the collision-layer station.
#[derive(Clone, Copy, Debug, PartialEq, Eq, Structural)]
pub enum CollisionLayerAction {
    ToggleProjectileGhost,
}

impl CollisionLayerDemoState {
    /// The initial state: projectiles pass through ghost geometry.
    pub fn new() -> (state: CollisionLayerDemoState)
        ensures
            !state.projectile_collides_with_ghost,
    {
        CollisionLayerDemoState { projectile_collides_with_ghost: false }
    }

    /// Applies one control and returns the masks every projectile must now carry.
    pub fn apply(&mut self, action: CollisionLayerAction) -> (layers: LayerMasks)
        ensures
            final(self).projectile_collides_with_ghost == !old(self).projectile_collides_with_ghost,
            layers.memberships == PROJECTILES_BIT,
            layers.filters == (if final(self).projectile_collides_with_ghost {
                PROJECTILE_FILTER | GHOST_BIT
            } else {
                PROJECTILE_FILTER
            }),
    {
        match action {
            CollisionLayerAction::ToggleProjectileGhost => {
                self.projectile_collides_with_ghost = !self.projectile_collides_with_ghost;
                projectile_layers(self.projectile_collides_with_ghost)
            },
        }
    }

    /// The status line shown by the station panel.
    pub fn status_text(&self) -> (s: &'static str)
        ensures
            s@ == (if self.projectile_collides_with_ghost {
                "Projectile \u{2192} GHOST: COLLIDE"@
            } else {
                "Projectile \u{2192} GHOST: PASS THROUGH"@
            }),
    {
        if self.projectile_collides_with_ghost {
            "Projectile \u{2192} GHOST: COLLIDE"
        } else {
            "Projectile \u{2192} GHOST: PASS THROUGH"
        }
    }
}

/// Collision filtering is symmetric: the order of the two colliders never matters.
pub proof fn lemma_interaction_is_symmetric(a: LayerMasks, b: LayerMasks)
    ensures
        masks_interact(a, b) == masks_interact(b, a),
{
}

/// Projectiles collide with ghost geometry exactly when the ghost mask was added,
/// while world geometry stops them either way.
pub proof fn lemma_ghost_mask_decides_the_ghost_wall(collide_with_ghost: bool)
    ensures
        masks_interact(
            LayerMasks {
                memberships: PROJECTILES_BIT,
                filters: if collide_with_ghost {
                    PROJECTILE_FILTER | GHOST_BIT
                } else {
                    PROJECTILE_FILTER
                },
            },
            LayerMasks { memberships: GHOST_BIT, filters: GHOST_FILTER },
        ) == collide_with_ghost,
        masks_interact(
            LayerMasks {
                memberships: PROJECTILES_BIT,
                filters: if collide_with_ghost {
                    PROJECTILE_FILTER | GHOST_BIT
                } else {
                    PROJECTILE_FILTER
                },
            },
            LayerMasks { memberships: WORLD_BIT, filters: WORLD_FILTER },
        ),
{
    assert((32u32 & (1u32 | 2u32 | 8u32 | 32u32)) != 0u32) by (bit_vector);
    assert((4u32 & (1u32 | 2u32 | 4u32 | 8u32 | 16u32)) != 0u32) by (bit_vector);
    assert((4u32 & ((1u32 | 2u32 | 4u32 | 8u32 | 16u32) | 64u32)) != 0u32) by (bit_vector);
    assert((32u32 & (1u32 | 2u32 | 8u32 | 32u32)) != 0u32) by (bit_vector);
    assert((64u32 & ((1u32 | 2u32 | 4u32 | 8u32 | 16u32) | 64u32)) != 0u32) by (bit_vector);
    assert((64u32 & (1u32 | 2u32 | 4u32 | 8u32 | 16u32)) == 0u32) by (bit_vector);
}

} // verus!
