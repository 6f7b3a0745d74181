use physics_sandbox::axis_locks_station::AxisLockDemoKind;
use physics_sandbox::axis_locks_station::DominanceDemoKind;
use physics_sandbox::breakable_objects::claim_break;
use physics_sandbox::breakable_objects::claim_breaks;
use physics_sandbox::breakable_objects::fragment_count;
use physics_sandbox::ccd_launcher::CcdLauncherAction;
use physics_sandbox::ccd_launcher::CcdLauncherStatus;
use physics_sandbox::ccd_launcher::LaunchObservation;
use physics_sandbox::ccd_launcher::LauncherCcdMode;
use physics_sandbox::ccd_launcher::LauncherEffect;
use physics_sandbox::ccd_launcher::LauncherOutcome;
use physics_sandbox::ccd_launcher::LauncherSpeed;
use physics_sandbox::collider_shape_station::ColliderShapeKind;
use physics_sandbox::counted_body_spawning::counted_body_name;
use physics_sandbox::counted_body_spawning::grid_slot;
use physics_sandbox::counted_body_spawning::spawn_button_label;
use physics_sandbox::counted_body_spawning::spawn_counts;
use physics_sandbox::counted_body_spawning::SpawnedBodyCount;
use physics_sandbox::custom_constraint_station::ConstraintChange;
use physics_sandbox::custom_constraint_station::CustomConstraintAction;
use physics_sandbox::custom_constraint_station::CustomConstraintState;
use physics_sandbox::damping_station::DampingDemoKind;
use physics_sandbox::damping_station::DampingMotion;
use physics_sandbox::density_mass_station::DensityMassLabKind;
use physics_sandbox::distance_joint_station::net_distance_steps;
use physics_sandbox::distance_joint_station::DistanceJointAction;
use physics_sandbox::distance_joint_station::DistanceJointBody;
use physics_sandbox::distance_joint_station::DistanceJointStationAction;
use physics_sandbox::dynamic_objects::DynamicObjectKind;
use physics_sandbox::fixed_joint_station::FixedJointBody;
use physics_sandbox::force_station::ForceDemoKind;
use physics_sandbox::friction_station::FrictionLaneKind;
use physics_sandbox::gameplay_materials::material_kind_name;
use physics_sandbox::gameplay_materials::GameplayMaterial;
use physics_sandbox::gravity_controls::GravityAdjustment;
use physics_sandbox::gravity_controls::GravityAxis;
use physics_sandbox::gravity_controls::GravityPreset;
use physics_sandbox::object_inspector::axis_is_locked;
use physics_sandbox::object_inspector::Axis;
use physics_sandbox::object_inspector::AxisLockKind;
use physics_sandbox::object_spawn_palette::palette_button_text;
use physics_sandbox::object_spawn_palette::SpawnPaletteState;
use physics_sandbox::object_spawn_palette::SpawnPreset;
use std::collections::HashSet;

#[test]
fn speed_presets_include_low_and_extreme_velocities() {
    let speeds: Vec<_> = LauncherSpeed::all()
        .into_iter()
        .map(LauncherSpeed::meters_per_second)
        .collect();
    assert_eq!(speeds, [10, 50, 100, 500]);
}

#[test]
fn launch_applies_the_selected_speed_and_swept_linear_mode() {
    let mut status = CcdLauncherStatus::new();
    status.apply(CcdLauncherAction::SetSpeed(LauncherSpeed::Extreme));
    status.apply(CcdLauncherAction::SetMode(LauncherCcdMode::SweptLinear));
    let effect = status.apply(CcdLauncherAction::Launch);
    assert_eq!(
        effect,
        LauncherEffect::Fire { speed: LauncherSpeed::Extreme, mode: LauncherCcdMode::SweptLinear }
    );
    assert_eq!(LauncherSpeed::Extreme.meters_per_second(), 500);
    assert_eq!(status.mode, LauncherCcdMode::SweptLinear);
    assert_eq!(status.outcome, LauncherOutcome::InFlight);
}

#[test]
fn launcher_flight_ends_in_a_recorded_result() {
    let mut status = CcdLauncherStatus::new();
    status.apply(CcdLauncherAction::Launch);
    let flying = LaunchObservation { present: true, touching_wall: false, past_wall: false };
    status.observe(flying);
    status.observe(flying);
    assert_eq!(status.outcome, LauncherOutcome::InFlight);
    assert_eq!(status.frames, 2);
    status.observe(LaunchObservation { present: true, touching_wall: false, past_wall: true });
    assert_eq!(status.outcome, LauncherOutcome::Tunneled);
    status.observe(LaunchObservation { present: true, touching_wall: true, past_wall: false });
    assert_eq!(status.outcome, LauncherOutcome::Tunneled);
    assert_eq!(status.frames, 3);
    assert_eq!(status.status_text(), "TUNNELED \u{b7} 10 m/s \u{b7} NONE \u{b7} frame 3");
    assert_eq!(status.apply(CcdLauncherAction::Reset), LauncherEffect::Clear);
    assert_eq!(status.outcome, LauncherOutcome::Idle);
    status.apply(CcdLauncherAction::Launch);
    status.observe(LaunchObservation { present: true, touching_wall: true, past_wall: true });
    assert_eq!(status.outcome, LauncherOutcome::Collided);
}

#[test]
fn counted_spawns_fill_a_ten_by_ten_grid_in_layers() {
    assert_eq!(spawn_counts(), vec![10, 100, 500, 1000]);
    let mut count = SpawnedBodyCount::new();
    let slots = count.spawn_batch(10);
    assert_eq!(slots.len(), 10);
    assert_eq!(count.count, 10);
    let slots = count.spawn_batch(100);
    assert_eq!(slots[0].index, 10);
    assert_eq!((slots[0].column, slots[0].row, slots[0].layer), (0, 1, 0));
    assert_eq!(count.count, 110);
    let slot = grid_slot(237);
    assert_eq!((slot.column, slot.row, slot.layer), (7, 3, 2));
    count.clear();
    assert_eq!(count.count, 0);
    assert_eq!(count.spawn_batch(1)[0].index, 0);
    assert_eq!(counted_body_name(12), "Counted Stress Body 12");
    assert_eq!(spawn_button_label(1000), "spawn 1000");
}

#[test]
fn disabling_releases_body_and_reenabling_restores_the_distance_constraint() {
    let mut state = CustomConstraintState::spawned(5, 6, 7);
    assert!(state.enabled);
    let toggle = CustomConstraintAction { toggle: true };
    assert_eq!(
        state.apply_toggles(&vec![toggle]),
        ConstraintChange::Remove { constraint_entity: 5 }
    );
    assert!(!state.enabled);
    assert_eq!(
        state.apply_toggles(&vec![toggle]),
        ConstraintChange::Install { constraint_entity: 5, anchor: 6, body: 7 }
    );
    assert!(state.enabled);
}

#[test]
fn an_even_number_of_toggles_changes_nothing() {
    let mut state = CustomConstraintState::spawned(5, 6, 7);
    let toggle = CustomConstraintAction { toggle: true };
    let idle = CustomConstraintAction { toggle: false };
    assert_eq!(state.apply_toggles(&vec![toggle, idle, toggle]), ConstraintChange::Unchanged);
    assert!(state.enabled);
    let mut unspawned = CustomConstraintState::new();
    assert_eq!(unspawned.apply_toggles(&vec![toggle]), ConstraintChange::Unchanged);
    assert!(!unspawned.enabled);
}

#[test]
fn tab_opens_and_closes_palette() {
    let mut state = SpawnPaletteState::new();
    assert!(!state.open);
    state.handle_tab(true);
    assert!(state.open);
    state.handle_tab(false);
    state.handle_tab(true);
    assert!(!state.open);
}

#[test]
fn palette_digits_pick_presets_in_order_and_buttons_win() {
    let mut state = SpawnPaletteState::new();
    let mut digits = [false; 6];
    digits[2] = true;
    digits[4] = true;
    assert_eq!(state.chosen_preset(None, digits), None);
    state.handle_tab(true);
    assert_eq!(state.chosen_preset(None, digits), Some(SpawnPreset::Plank));
    assert_eq!(
        state.chosen_preset(Some(SpawnPreset::BouncyBall), digits),
        Some(SpawnPreset::BouncyBall)
    );
    assert_eq!(state.chosen_preset(None, [false; 6]), None);
    assert_eq!(SpawnPreset::HeavyBlock.spawned_name(), "Spawned Heavy Block");
    assert_eq!(palette_button_text(0, SpawnPreset::Cube), "1 \u{2014} Cube");
    assert_eq!(SpawnPreset::all().len(), 6);
}

#[test]
fn all_presets_have_physical_and_gameplay_defaults() {
    for material in GameplayMaterial::all() {
        let defaults = material.defaults();
        assert!(defaults.density > 0);
        assert!(defaults.friction >= 0);
        assert!((0..=1000).contains(&defaults.restitution));
        assert!(defaults.break_threshold > 0);
        assert!(defaults.wind_response >= 0);
    }
}

#[test]
fn wood_and_glass_defaults_are_distinct() {
    let wood = GameplayMaterial::Wood.defaults();
    let glass = GameplayMaterial::Glass.defaults();
    assert_eq!(wood.density, 700);
    assert_eq!(wood.friction, 650);
    assert_eq!(wood.restitution, 150);
    assert_eq!(wood.break_threshold, 35000);
    assert_eq!(wood.wind_response, 1000);
    assert_eq!(glass.break_threshold, 8000);
    assert_ne!(wood.break_threshold, glass.break_threshold);
    assert_eq!(material_kind_name(GameplayMaterial::Ceramic), "Ceramic");
}

#[test]
fn a_body_breaks_once_per_frame() {
    let mut already_broken = HashSet::new();
    assert!(!claim_break(7, false, &mut already_broken));
    assert!(already_broken.is_empty());
    assert!(claim_break(7, true, &mut already_broken));
    assert!(!claim_break(7, true, &mut already_broken));
    assert!(claim_break(8, true, &mut already_broken));
    let claims = claim_breaks(&vec![(1, false), (1, true), (2, true), (1, true), (2, false)]);
    assert_eq!(claims, vec![false, true, true, false, false]);
}

#[test]
fn breakable_materials_leave_their_fragments() {
    assert_eq!(fragment_count(GameplayMaterial::Ceramic), 4);
    assert_eq!(fragment_count(GameplayMaterial::Wood), 3);
    assert_eq!(fragment_count(GameplayMaterial::Stone), 4);
    assert_eq!(fragment_count(GameplayMaterial::Metal), 0);
    assert_eq!(fragment_count(GameplayMaterial::Glass), 0);
}

#[test]
fn station_spawns_all_axis_locks_and_dominance_values() {
    let kinds = AxisLockDemoKind::all();
    assert_eq!(kinds.len(), 6);
    let bits: Vec<u8> = kinds.iter().map(|kind| kind.locked_axes()).collect();
    assert_eq!(bits, vec![32, 16, 8, 4, 2, 1]);
    let translation_y = AxisLockDemoKind::TranslationY.locked_axes();
    assert!(axis_is_locked(translation_y, AxisLockKind::Translation, Axis::Y));
    assert!(!axis_is_locked(translation_y, AxisLockKind::Rotation, Axis::Y));
    assert_eq!(AxisLockDemoKind::RotationZ.label(), "Rotation Z");
    assert_eq!(DominanceDemoKind::Dominant.value(), 5);
    assert_eq!(DominanceDemoKind::Normal.value(), 0);
    assert_eq!(DominanceDemoKind::Dominant.label(), "Dominance 5");
}

#[test]
fn damping_bodies_damp_only_their_own_motion() {
    for kind in DampingDemoKind::all() {
        let (linear, angular) = kind.damping_values();
        match kind.initial_motion() {
            DampingMotion::Sliding => assert_eq!(angular, 0),
            DampingMotion::Spinning => assert_eq!(linear, 0),
        }
    }
    assert_eq!(DampingDemoKind::LinearHigh.damping_values(), (5, 0));
    assert_eq!(DampingDemoKind::AngularMedium.damping_values(), (0, 1));
    assert_eq!(DampingDemoKind::AngularLow.label(), "Angular low");
}

#[test]
fn station_labels() {
    assert_eq!(DensityMassLabKind::Heavy.label(), "HEAVY");
    assert!(DensityMassLabKind::Light.uses_density());
    assert!(!DensityMassLabKind::Heavy.uses_density());
    assert_eq!(DistanceJointBody::Right.label(), "RIGHT");
    assert_eq!(FixedJointBody::Left.outward_sign(), -1);
    assert_eq!(FixedJointBody::Right.outward_sign(), 1);
    assert_eq!(ForceDemoKind::AngularImpulse.label(), "Angular impulse");
    assert_eq!(ForceDemoKind::Acceleration.description(), "persistent \u{b7} m/s\u{b2}");
    assert!(ForceDemoKind::Torque.effect().persistent);
    assert!(ForceDemoKind::Torque.effect().rotational);
    assert!(!ForceDemoKind::Impulse.effect().persistent);
    assert_eq!(ForceDemoKind::all().len(), 5);
    assert_eq!(GravityPreset::ZeroG.label(), "Zero G");
    assert_eq!(GravityAxis::Z.label(), "Z");
    assert_eq!(GravityAdjustment::Decrease.sign(), -1);
    assert_eq!(ColliderShapeKind::all().len(), 5);
    assert_eq!(ColliderShapeKind::Cylinder.label(), "CYLINDER");
    assert_eq!(DynamicObjectKind::Crate.label(), "Crate");
}

#[test]
fn station_spawns_labelled_ice_wood_and_rubber_lanes_with_distinct_values() {
    let lanes = FrictionLaneKind::all();
    let labels: Vec<_> = lanes.iter().map(|lane| lane.label()).collect();
    assert_eq!(labels, ["ICE", "WOOD", "RUBBER"]);
    let coefficients: Vec<_> = lanes.iter().map(|lane| lane.coefficient()).collect();
    assert_eq!(coefficients, [5, 35, 80]);
    assert!(coefficients.windows(2).all(|pair| pair[0] < pair[1]));
}

#[test]
fn distance_steps_net_out() {
    let up = DistanceJointStationAction { action: DistanceJointAction::Increase };
    let down = DistanceJointStationAction { action: DistanceJointAction::Decrease };
    assert_eq!(net_distance_steps(&vec![]), 0);
    assert_eq!(net_distance_steps(&vec![up, up, down]), 1);
    assert_eq!(net_distance_steps(&vec![down, up]), 0);
    assert_eq!(net_distance_steps(&vec![down, down]), -2);
}

#[test]
fn each_counted_spawn_action_creates_the_requested_dynamic_bodies() {
    for expected in [10, 100, 500, 1_000] {
        let mut count = SpawnedBodyCount::new();
        let slots = count.spawn_batch(expected);
        assert_eq!(slots.len(), expected);
        assert_eq!(count.count, expected);
        let mut seen = HashSet::new();
        for (i, slot) in slots.iter().enumerate() {
            assert_eq!(slot.index, i);
            assert!(seen.insert((slot.column, slot.row, slot.layer)));
        }
    }
}

#[test]
fn clear_removes_spawned_bodies_and_preserves_station_geometry() {
    let mut count = SpawnedBodyCount::new();
    for expected in [10, 100, 500, 1_000] {
        count.spawn_batch(expected);
        assert_eq!(count.count, expected);
        count.clear();
        assert_eq!(count.count, 0);
    }
}
