use codexus::methods::TURN_STEER;
use codexus::thread_ops::TURN_STEER_METHOD;

#[test]
fn turn_steer_wire_method_is_turn_steer() {
    assert_eq!(TURN_STEER_METHOD, "turn/steer");
    assert_eq!(TURN_STEER_METHOD, TURN_STEER);
}
