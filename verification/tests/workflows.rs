use physics_sandbox::joint_creation::JointCreationAction;
use physics_sandbox::joint_creation::JointCreationPhase;
use physics_sandbox::joint_creation::JointCreationState;
use physics_sandbox::joint_creation::JointRequest;
use physics_sandbox::joint_creation::RuntimeJointType;
use physics_sandbox::object_composition::CompositionAction;
use physics_sandbox::object_composition::CompositionPhase;
use physics_sandbox::object_composition::CompositionState;

const FIRST: u64 = 17;
const SECOND: u64 = 42;

fn press_j(state: &mut JointCreationState) {
    state.handle_keyboard(false, true);
}

fn click(state: &mut JointCreationState, body: Option<u64>) {
    state.select_body(true, false, body);
}

#[test]
fn j_key_guides_two_body_selection_before_type_choice() {
    let mut state = JointCreationState::new();
    press_j(&mut state);
    assert_eq!(state.phase, JointCreationPhase::AwaitingFirst);
    click(&mut state, Some(FIRST));
    assert_eq!(state.phase, JointCreationPhase::AwaitingSecond { first: FIRST });
    click(&mut state, Some(SECOND));
    assert_eq!(
        state.phase,
        JointCreationPhase::ChoosingType { first: FIRST, second: SECOND }
    );
}

#[test]
fn every_supported_joint_type_can_be_created() {
    for (index, joint_type) in RuntimeJointType::all().into_iter().enumerate() {
        let mut state = JointCreationState::new();
        press_j(&mut state);
        click(&mut state, Some(FIRST));
        click(&mut state, Some(SECOND));
        let request = state.apply_action(JointCreationAction::Choose(joint_type), true);
        assert_eq!(
            request,
            Some(JointRequest { joint_type, first: FIRST, second: SECOND }),
            "case {index}"
        );
        assert_eq!(state.phase, JointCreationPhase::Inactive);
    }
}

#[test]
fn escape_cancels_partial_selection_without_spawning_a_joint() {
    let mut state = JointCreationState::new();
    press_j(&mut state);
    click(&mut state, Some(FIRST));
    assert!(matches!(state.phase, JointCreationPhase::AwaitingSecond { .. }));
    state.handle_keyboard(true, false);
    assert_eq!(state.phase, JointCreationPhase::Inactive);
    let request = state.apply_action(JointCreationAction::Choose(RuntimeJointType::Fixed), true);
    assert_eq!(request, None);
}

#[test]
fn clicking_the_same_body_twice_keeps_waiting_for_a_second_one() {
    let mut state = JointCreationState::new();
    press_j(&mut state);
    click(&mut state, Some(FIRST));
    click(&mut state, Some(FIRST));
    assert_eq!(state.phase, JointCreationPhase::AwaitingSecond { first: FIRST });
    click(&mut state, None);
    assert_eq!(state.phase, JointCreationPhase::AwaitingSecond { first: FIRST });
}

#[test]
fn clicks_on_panel_buttons_do_not_select_bodies() {
    let mut state = JointCreationState::new();
    press_j(&mut state);
    state.select_body(true, true, Some(FIRST));
    assert_eq!(state.phase, JointCreationPhase::AwaitingFirst);
}

#[test]
fn pressing_j_again_abandons_a_selection() {
    let mut state = JointCreationState::new();
    press_j(&mut state);
    click(&mut state, Some(FIRST));
    press_j(&mut state);
    assert_eq!(state.phase, JointCreationPhase::Inactive);
}

#[test]
fn vanished_bodies_end_the_workflow_without_a_joint() {
    let mut state = JointCreationState::new();
    press_j(&mut state);
    click(&mut state, Some(FIRST));
    click(&mut state, Some(SECOND));
    let request = state.apply_action(JointCreationAction::Choose(RuntimeJointType::Distance), false);
    assert_eq!(request, None);
    assert_eq!(state.phase, JointCreationPhase::Inactive);
}

#[test]
fn joint_creation_texts() {
    let mut state = JointCreationState::new();
    assert_eq!(state.status_text(), "Press J to begin.");
    assert!(!state.type_buttons_visible());
    press_j(&mut state);
    assert_eq!(state.status_text(), "Select object A.");
    click(&mut state, Some(FIRST));
    assert_eq!(state.status_text(), "Select object B.");
    click(&mut state, Some(SECOND));
    assert_eq!(state.status_text(), "Choose a joint type.");
    assert!(state.type_buttons_visible());
    assert_eq!(RuntimeJointType::Prismatic.label(), "Prismatic");
    assert_eq!(RuntimeJointType::Spherical.joint_name(), "Runtime Spherical Joint");
    state.apply_action(JointCreationAction::Cancel, true);
    assert_eq!(state.phase, JointCreationPhase::Inactive);
}

#[test]
fn c_key_selects_two_objects_and_creates_a_fixed_composition_joint() {
    let mut state = CompositionState::new();
    state.handle_keyboard(false, true);
    assert_eq!(state.phase, CompositionPhase::AwaitingFirst);
    let joined = state.select_body(true, false, Some(FIRST), true);
    assert_eq!(joined, None);
    assert_eq!(state.phase, CompositionPhase::AwaitingSecond { first: FIRST });
    let joined = state.select_body(true, false, Some(SECOND), true);
    assert_eq!(joined, Some((FIRST, SECOND)));
    assert_eq!(state.phase, CompositionPhase::Inactive);
}

#[test]
fn escape_cancels_a_partial_composition_without_creating_a_joint() {
    let mut state = CompositionState::new();
    state.handle_keyboard(false, true);
    state.handle_keyboard(true, false);
    assert_eq!(state.phase, CompositionPhase::Inactive);
    let joined = state.select_body(true, false, Some(FIRST), true);
    assert_eq!(joined, None);
    assert_eq!(state.phase, CompositionPhase::Inactive);
}

#[test]
fn composition_cancel_button_ends_the_selection() {
    let mut state = CompositionState::new();
    state.handle_keyboard(false, true);
    state.select_body(true, false, Some(FIRST), true);
    state.apply_actions(&vec![CompositionAction::Cancel]);
    assert_eq!(state.phase, CompositionPhase::Inactive);
}
