use physics_sandbox::collider_debug::ColliderDebugSettings;
use physics_sandbox::collider_debug::DebugColors;
use physics_sandbox::collision_event_log::entity_label;
use physics_sandbox::collision_event_log::history_text;
use physics_sandbox::collision_event_log::CollisionEventType;
use physics_sandbox::collision_event_log::LabelledEntry;
use physics_sandbox::cursor_hover::hover_material_change;
use physics_sandbox::cursor_hover::reachability_from;
use physics_sandbox::cursor_hover::HoverMaterial;
use physics_sandbox::cursor_hover::HoverReachability;
use physics_sandbox::diagnostics_hud::count_entities;
use physics_sandbox::diagnostics_hud::EntityTraits;
use physics_sandbox::interpolation_comparison::comparison_status;
use physics_sandbox::interpolation_comparison::easing_components;
use physics_sandbox::interpolation_comparison::TransformDisplayMode;
use physics_sandbox::intersection_testing::keyboard_direction;
use physics_sandbox::intersection_testing::IntersectionTestResult;
use physics_sandbox::intersection_testing::VolumeMoveKeys;
use physics_sandbox::object_grabbing::grab_target;
use physics_sandbox::object_grabbing::throw_requested;
use physics_sandbox::object_grabbing::GrabCandidate;
use physics_sandbox::object_grabbing::GrabState;
use physics_sandbox::object_grabbing::HoldDecision;
use physics_sandbox::object_inspector::axis_is_locked;
use physics_sandbox::object_inspector::format_axis_locks;
use physics_sandbox::object_inspector::inspector_layout;
use physics_sandbox::object_inspector::step_dominance;
use physics_sandbox::object_inspector::toggle_axis_lock;
use physics_sandbox::object_inspector::Axis;
use physics_sandbox::object_inspector::AxisLockKind;
use physics_sandbox::object_inspector::SelectionState;
use physics_sandbox::physics_controls::physics_control_command;
use physics_sandbox::physics_controls::PhysicsClock;
use physics_sandbox::physics_controls::PhysicsControlKeys;
use physics_sandbox::picking_comparison::MeshPickSelection;
use physics_sandbox::player::movement_axes;
use physics_sandbox::player::MovementKeys;

#[test]
fn f1_toggles_avian_collider_wireframes_repeatedly() {
    let mut settings = ColliderDebugSettings::new();
    let on = Some(DebugColors { collider: true, joint_anchor: true, joint_separation: true });
    let off = Some(DebugColors { collider: false, joint_anchor: false, joint_separation: false });
    assert_eq!(settings.handle_f1(true), on);
    assert!(settings.enabled);
    assert_eq!(settings.handle_f1(false), None);
    assert_eq!(settings.handle_f1(true), off);
    assert!(!settings.enabled);
    assert_eq!(settings.handle_f1(false), None);
    assert_eq!(settings.handle_f1(true), on);
    assert!(settings.enabled);
}

#[test]
fn collider_debug_starts_disabled() {
    assert_eq!(ColliderDebugSettings::new(), ColliderDebugSettings::default());
    assert!(!ColliderDebugSettings::new().enabled);
}

#[test]
fn axis_lock_controls_toggle_all_six_axes_and_dominance() {
    let mut bits: u8 = 0;
    for (kind, axis) in [
        (AxisLockKind::Translation, Axis::X),
        (AxisLockKind::Translation, Axis::Y),
        (AxisLockKind::Translation, Axis::Z),
        (AxisLockKind::Rotation, Axis::X),
        (AxisLockKind::Rotation, Axis::Y),
        (AxisLockKind::Rotation, Axis::Z),
    ] {
        bits = toggle_axis_lock(bits, kind, axis);
    }
    assert_eq!(bits, 0b11_1111);
    bits = toggle_axis_lock(bits, AxisLockKind::Rotation, Axis::Y);
    assert!(!axis_is_locked(bits, AxisLockKind::Rotation, Axis::Y));
    assert_eq!(bits, 0b11_1101);

    let mut dominance: i8 = 0;
    for _ in 0..5 {
        dominance = step_dominance(dominance, true);
    }
    assert_eq!(dominance, 5);
}

#[test]
fn dominance_stays_within_its_range() {
    assert_eq!(step_dominance(126, true), 127);
    assert_eq!(step_dominance(-126, false), -127);
    assert_eq!(step_dominance(-127, false), -127);
    assert_eq!(step_dominance(3, false), 2);
}

#[test]
fn axis_lock_summary_names_each_axis() {
    assert_eq!(format_axis_locks(0), "T(open,open,open) R(open,open,open)");
    assert_eq!(format_axis_locks(0b10_0010), "T(locked,open,open) R(open,locked,open)");
}

#[test]
fn clicking_empty_space_clears_selection_and_hides_the_inspector() {
    let mut selection = SelectionState::new();
    selection.apply_click(true, false, Some(9), None);
    assert_eq!(selection.entity, Some(9));
    selection.apply_click(true, false, None, None);
    assert_eq!(selection.entity, None);
    let layout = inspector_layout(false, false);
    assert!(!layout.panel && !layout.body_section && !layout.joint_section);
    selection.apply_click(true, false, Some(9), Some(12));
    assert_eq!(selection.entity, Some(12));
    selection.refresh(false, false);
    assert_eq!(selection.entity, None);
}

#[test]
fn hover_marks_bodies_outside_the_player_radius_as_unreachable() {
    assert_eq!(reachability_from(Some(false)), HoverReachability::Unreachable);
    assert_eq!(reachability_from(Some(true)), HoverReachability::Reachable);
    assert_eq!(reachability_from(None), HoverReachability::Reachable);
    let change = hover_material_change(true, HoverReachability::Unreachable, false);
    assert_eq!(change.material, Some(HoverMaterial::Unreachable));
    assert!(change.remember_original);
}

#[test]
fn moving_off_physics_clears_hover_and_restores_the_original_material() {
    let first = hover_material_change(true, HoverReachability::Reachable, false);
    assert_eq!(first.material, Some(HoverMaterial::Highlight));
    assert!(first.remember_original);
    let again = hover_material_change(true, HoverReachability::Reachable, true);
    assert!(!again.remember_original);
    let leave = hover_material_change(false, HoverReachability::Reachable, true);
    assert_eq!(leave.material, Some(HoverMaterial::Original));
    assert!(leave.forget_original);
    let untouched = hover_material_change(false, HoverReachability::Reachable, false);
    assert_eq!(untouched.material, None);
}

#[test]
fn left_click_grabs_only_dynamic_hovered_bodies() {
    let dynamic = GrabCandidate {
        entity: 3,
        reachability: HoverReachability::Reachable,
        dynamic: Some(true),
    };
    let fixed = GrabCandidate { dynamic: Some(false), ..dynamic };
    assert_eq!(grab_target(Some(dynamic), true), Some(3));
    assert_eq!(grab_target(Some(fixed), true), None);
    assert_eq!(grab_target(None, true), None);
    assert_eq!(grab_target(Some(dynamic), false), None);
}

#[test]
fn unreachable_hover_remains_visible_but_cannot_be_grabbed() {
    let far = GrabCandidate {
        entity: 3,
        reachability: HoverReachability::Unreachable,
        dynamic: Some(true),
    };
    assert_eq!(grab_target(Some(far), true), None);
    let mut state = GrabState::new();
    assert_eq!(state.press(true, grab_target(Some(far), true)), None);
    assert_eq!(state.grab, None);
}

#[test]
fn space_throw_action_releases_the_body() {
    let mut state = GrabState::new();
    state.press(true, Some(4));
    assert_eq!(state.grab, Some(4));
    assert_eq!(state.hold(true, true, throw_requested(false, false, false)), HoldDecision::Hold);
    assert_eq!(state.grab, Some(4));
    assert_eq!(state.hold(true, true, throw_requested(false, true, true)), HoldDecision::Throw);
    assert_eq!(state.grab, None);
}

#[test]
fn grabs_end_when_the_button_is_released_or_the_body_leaves_reach() {
    let mut state = GrabState::new();
    state.press(true, Some(4));
    assert_eq!(state.hold(true, false, false), HoldDecision::Release);
    assert_eq!(state.grab, None);
    state.press(true, Some(4));
    assert_eq!(state.hold(false, true, false), HoldDecision::Release);
    assert_eq!(state.hold(true, true, false), HoldDecision::Idle);
    state.press(true, Some(4));
    assert_eq!(state.press(true, Some(5)), Some(4));
    assert_eq!(state.grab, Some(5));
    assert_eq!(state.press(false, Some(6)), None);
    assert_eq!(state.grab, Some(5));
}

#[test]
fn each_single_step_advances_once_and_keeps_physics_paused() {
    let mut clock = PhysicsClock::new();
    let step = PhysicsControlKeys {
        pause: false,
        step: true,
        speed_digits: [false; 4],
        substep_digits: [false; 4],
    };
    for _ in 0..3 {
        assert!(clock.apply(physics_control_command(step)));
        assert!(clock.paused);
    }
}

#[test]
fn speed_can_change_while_running_and_pause_resume_preserves_speed() {
    let mut clock = PhysicsClock::new();
    let mut keys = PhysicsControlKeys {
        pause: false,
        step: false,
        speed_digits: [false, false, false, true],
        substep_digits: [false; 4],
    };
    assert!(!clock.apply(physics_control_command(keys)));
    assert_eq!(clock.speed_quarters, 8);
    assert!(!clock.paused);
    keys.speed_digits = [false; 4];
    keys.pause = true;
    clock.apply(physics_control_command(keys));
    assert!(clock.paused);
    clock.apply(physics_control_command(keys));
    assert!(!clock.paused);
    assert_eq!(clock.speed_quarters, 8);
}

#[test]
fn physics_status_line_spells_speed_and_substeps() {
    let mut clock = PhysicsClock::new();
    assert_eq!(
        clock.status_text(),
        "PHYSICS: RUNNING  |  SPEED: 1x  |  SUBSTEPS: 6  |  1-4: SPEED  5:1 6:2 7:4 8:8 SUBSTEPS  P: PAUSE/RESUME  N: STEP"
    );
    let keys = PhysicsControlKeys {
        pause: true,
        step: false,
        speed_digits: [true, false, true, false],
        substep_digits: [false, false, false, true],
    };
    clock.apply(physics_control_command(keys));
    assert_eq!(
        clock.status_text(),
        "PHYSICS: PAUSED  |  SPEED: 0.25x  |  SUBSTEPS: 8  |  1-4: SPEED  5:1 6:2 7:4 8:8 SUBSTEPS  P: PAUSE/RESUME  N: STEP"
    );
    clock.speed_quarters = 2;
    assert!(clock.status_text().contains("SPEED: 0.5x"));
}

#[test]
fn display_mode_cycles_and_sets_one_easing() {
    let mut mode = TransformDisplayMode::default();
    assert_eq!(mode, TransformDisplayMode::Off);
    assert_eq!(mode.label(), "NONE");
    mode = mode.next();
    assert_eq!(mode, TransformDisplayMode::Interpolation);
    let components = easing_components(mode);
    assert!(components.interpolation && !components.extrapolation);
    mode = mode.next();
    assert_eq!(mode.label(), "EXTRAPOLATION");
    assert_eq!(
        comparison_status(mode),
        "FAST MOTION: BLUE = RAW REFERENCE  |  ORANGE = EXTRAPOLATION\nV: CYCLE NONE / INTERPOLATION / EXTRAPOLATION"
    );
    assert_eq!(mode.next(), TransformDisplayMode::Off);
}

#[test]
fn metrics_count_dynamic_sleeping_and_collider_entities() {
    let entities = vec![
        EntityTraits { dynamic_body: true, sleeping: false, collider: true },
        EntityTraits { dynamic_body: true, sleeping: true, collider: true },
        EntityTraits { dynamic_body: false, sleeping: true, collider: true },
        EntityTraits { dynamic_body: false, sleeping: false, collider: false },
    ];
    let snapshot = count_entities(&entities);
    assert_eq!(snapshot.entities, 4);
    assert_eq!(snapshot.dynamic_bodies, 2);
    assert_eq!(snapshot.sleeping_bodies, 1);
    assert_eq!(snapshot.colliders, 3);
}

#[test]
fn volume_keys_give_a_direction_and_results_report_overlap() {
    let keys = VolumeMoveKeys {
        left: true,
        right: false,
        down: false,
        up: true,
        page_down: true,
        page_up: true,
    };
    assert_eq!(keyboard_direction(keys), (-1, 0, -1));
    let mut result = IntersectionTestResult::new();
    assert!(!result.is_intersecting());
    result.intersections.push(11);
    assert!(result.is_intersecting());
}

#[test]
fn wasd_keys_give_movement_axes() {
    let keys = MovementKeys { w: true, a: true, s: false, d: false };
    assert_eq!(movement_axes(keys), (-1, 1));
    let keys = MovementKeys { w: true, a: true, s: true, d: true };
    assert_eq!(movement_axes(keys), (0, 0));
}

#[test]
fn mesh_pick_observer_records_physics_entity_but_ignores_scenery() {
    let mut selection = MeshPickSelection::new();
    selection.record_click(8, false, String::from("Ground"));
    assert_eq!(selection.entity, None);
    assert_eq!(selection.name, None);
    selection.record_click(9, true, String::from("Pick Target"));
    assert_eq!(selection.entity, Some(9));
    assert_eq!(selection.name.as_deref(), Some("Pick Target"));
}

#[test]
fn history_text_lists_events_with_names() {
    assert_eq!(history_text(&vec![]), "No collision events yet.");
    let entries = vec![
        LabelledEntry {
            first: entity_label(Some("Falling Body"), 4),
            second: entity_label(None, 4294967299),
            event_type: CollisionEventType::Enter,
        },
        LabelledEntry {
            first: String::from("A"),
            second: String::from("B"),
            event_type: CollisionEventType::Exit,
        },
    ];
    let text = history_text(&entries);
    assert_eq!(
        text,
        format!(
            "Falling Body \u{2192} Entity 4294967299 {}\nA \u{2192} B {}\n",
            CollisionEventType::Enter.label(),
            CollisionEventType::Exit.label()
        )
    );
}
