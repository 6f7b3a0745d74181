use physics_sandbox::cursor_hover::HoverReachability;
use physics_sandbox::object_grabbing::GrabState;
use physics_sandbox::physics_controls::PhysicsClock;

fn assert_send_sync<T: Send + Sync + 'static>() {}

#[test]
fn library_values_can_cross_threads() {
    assert_send_sync::<HoverReachability>();
    assert_send_sync::<GrabState>();
    assert_send_sync::<PhysicsClock>();
}
