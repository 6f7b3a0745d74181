use physics_sandbox::collision_hooks::filter_pairs;
use physics_sandbox::collision_hooks::hook_ghost_layers;
use physics_sandbox::collision_hooks::hook_ordinary_layers;
use physics_sandbox::collision_hooks::CollisionHookDemoAction;
use physics_sandbox::collision_hooks::CollisionHookDemoState;
use physics_sandbox::collision_hooks::HookMarkers;
use physics_sandbox::collision_layers::layers_for;
use physics_sandbox::collision_layers::layers_interact;
use physics_sandbox::collision_layers::projectile_layers;
use physics_sandbox::collision_layers::CollisionLayerAction;
use physics_sandbox::collision_layers::CollisionLayerDemoState;
use physics_sandbox::collision_layers::SandboxLayer;

#[test]
fn configured_pairs_collide_or_pass_through_as_expected() {
    assert!(layers_for(SandboxLayer::Player).interacts_with(layers_for(SandboxLayer::World)));
    assert!(layers_for(SandboxLayer::Objects).interacts_with(layers_for(SandboxLayer::World)));
    assert!(
        layers_for(SandboxLayer::Projectiles).interacts_with(layers_for(SandboxLayer::World))
    );
    assert!(
        layers_for(SandboxLayer::Projectiles).interacts_with(layers_for(SandboxLayer::Sensors))
    );
    assert!(
        !layers_for(SandboxLayer::Projectiles).interacts_with(layers_for(SandboxLayer::GhostLayer))
    );
    assert!(projectile_layers(true).interacts_with(layers_for(SandboxLayer::GhostLayer)));
}

#[test]
fn layer_bits_follow_the_declaration_order() {
    assert_eq!(SandboxLayer::Default.to_bits(), 1);
    assert_eq!(SandboxLayer::Player.to_bits(), 2);
    assert_eq!(SandboxLayer::World.to_bits(), 4);
    assert_eq!(SandboxLayer::Objects.to_bits(), 8);
    assert_eq!(SandboxLayer::Sensors.to_bits(), 16);
    assert_eq!(SandboxLayer::Projectiles.to_bits(), 32);
    assert_eq!(SandboxLayer::GhostLayer.to_bits(), 64);
}

#[test]
fn interaction_is_symmetric_on_every_configured_pair() {
    let all = [
        SandboxLayer::Default,
        SandboxLayer::Player,
        SandboxLayer::World,
        SandboxLayer::Objects,
        SandboxLayer::Sensors,
        SandboxLayer::Projectiles,
        SandboxLayer::GhostLayer,
    ];
    for a in all {
        for b in all {
            assert_eq!(
                layers_interact(layers_for(a), layers_for(b)),
                layers_interact(layers_for(b), layers_for(a))
            );
        }
    }
}

#[test]
fn changing_the_projectile_mask_changes_the_ghost_wall_result() {
    let mut state = CollisionLayerDemoState::new();
    let ghost_wall = layers_for(SandboxLayer::GhostLayer);
    let world_wall = layers_for(SandboxLayer::World);
    assert!(!state.projectile_collides_with_ghost);
    let layers = state.apply(CollisionLayerAction::ToggleProjectileGhost);
    assert!(state.projectile_collides_with_ghost);
    assert_eq!(layers, projectile_layers(true));
    assert!(layers.interacts_with(ghost_wall));
    assert!(layers.interacts_with(world_wall));
    let layers = state.apply(CollisionLayerAction::ToggleProjectileGhost);
    assert!(!state.projectile_collides_with_ghost);
    assert!(!layers.interacts_with(ghost_wall));
    assert!(layers.interacts_with(world_wall));
}

#[test]
fn inactive_hook_lets_the_ghost_pass_through() {
    let state = CollisionHookDemoState::new();
    let ghost = HookMarkers { is_ghost: true, is_ordinary: false };
    let ordinary = HookMarkers { is_ghost: false, is_ordinary: true };
    assert!(hook_ghost_layers().interacts_with(hook_ordinary_layers()));
    assert!(!filter_pairs(state, ghost, ordinary));
    assert!(!filter_pairs(state, ordinary, ghost));
}

#[test]
fn activating_hook_changes_the_ghost_collision_result() {
    let mut state = CollisionHookDemoState::new();
    let ghost = HookMarkers { is_ghost: true, is_ordinary: false };
    let ordinary = HookMarkers { is_ghost: false, is_ordinary: true };
    assert!(!filter_pairs(state, ghost, ordinary));
    assert!(state.apply(CollisionHookDemoAction::ToggleActivation));
    assert!(state.activated);
    assert!(filter_pairs(state, ghost, ordinary));
    assert!(state.apply(CollisionHookDemoAction::ResetGhost));
    assert!(state.activated);
}

#[test]
fn ordinary_pairs_are_not_filtered_by_the_demo_hook() {
    let state = CollisionHookDemoState::new();
    let plain = HookMarkers { is_ghost: false, is_ordinary: false };
    let ghost = HookMarkers { is_ghost: true, is_ordinary: false };
    let ordinary = HookMarkers { is_ghost: false, is_ordinary: true };
    assert!(filter_pairs(state, plain, plain));
    assert!(filter_pairs(state, plain, ghost));
    assert!(filter_pairs(state, ordinary, plain));
    assert!(filter_pairs(state, ghost, ghost));
}

#[test]
fn hook_status_text_names_the_state() {
    let mut state = CollisionHookDemoState::new();
    assert_eq!(state.status_text(), "Hook: INACTIVE \u{2014} GHOST passes through");
    state.apply(CollisionHookDemoAction::ToggleActivation);
    assert_eq!(state.status_text(), "Hook: ACTIVE \u{2014} GHOST collides");
}
