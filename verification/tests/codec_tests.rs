use rollback_core::input::{
    INPUT_DOWN, INPUT_FIRE, INPUT_LEFT, INPUT_RIGHT, INPUT_UP, INPUT_USE, InputFrame, RawControls,
    decode_direction, decode_jump, disconnected_frame, encode,
};
use rollback_core::math::FxVec2;

fn controls(up: bool, down: bool, left: bool, right: bool, fire: bool, use_action: bool) -> RawControls {
    RawControls { up, down, left, right, fire, use_action }
}

#[test]
fn encode_nothing_is_zero() {
    assert_eq!(encode(controls(false, false, false, false, false, false)), 0);
}

#[test]
fn encode_everything_sets_all_bits() {
    let m = encode(controls(true, true, true, true, true, true));
    assert_eq!(m, INPUT_UP | INPUT_DOWN | INPUT_LEFT | INPUT_RIGHT | INPUT_FIRE | INPUT_USE);
    assert_eq!(m, 63);
}

#[test]
fn encode_single_actions() {
    assert_eq!(encode(controls(true, false, false, false, false, false)), INPUT_UP);
    assert_eq!(encode(controls(false, true, false, false, false, false)), INPUT_DOWN);
    assert_eq!(encode(controls(false, false, true, false, false, false)), INPUT_LEFT);
    assert_eq!(encode(controls(false, false, false, true, false, false)), INPUT_RIGHT);
    assert_eq!(encode(controls(false, false, false, false, true, false)), INPUT_FIRE);
    assert_eq!(encode(controls(false, false, false, false, false, true)), INPUT_USE);
}

#[test]
fn decode_recovers_direction() {
    assert_eq!(decode_direction(INPUT_RIGHT), FxVec2 { x: 1000, y: 0 });
    assert_eq!(decode_direction(INPUT_LEFT), FxVec2 { x: -1000, y: 0 });
    assert_eq!(decode_direction(INPUT_UP), FxVec2 { x: 0, y: 1000 });
    assert_eq!(decode_direction(INPUT_DOWN), FxVec2 { x: 0, y: -1000 });
    assert_eq!(decode_direction(INPUT_RIGHT | INPUT_UP), FxVec2 { x: 1000, y: 1000 });
}

#[test]
fn decode_opposite_directions_cancel() {
    assert_eq!(decode_direction(INPUT_LEFT | INPUT_RIGHT), FxVec2 { x: 0, y: 0 });
    assert_eq!(decode_direction(INPUT_UP | INPUT_DOWN), FxVec2 { x: 0, y: 0 });
}

#[test]
fn decode_jump_reads_fire_bit() {
    assert!(decode_jump(INPUT_FIRE));
    assert!(decode_jump(INPUT_FIRE | INPUT_LEFT));
    assert!(!decode_jump(0));
    assert!(!decode_jump(INPUT_USE));
}

#[test]
fn codec_round_trip_recovers_every_control() {
    for bits in 0u8..64 {
        let c = controls(
            bits & INPUT_UP != 0,
            bits & INPUT_DOWN != 0,
            bits & INPUT_LEFT != 0,
            bits & INPUT_RIGHT != 0,
            bits & INPUT_FIRE != 0,
            bits & INPUT_USE != 0,
        );
        let m = encode(c);
        assert_eq!(m, bits);
        assert_eq!(m & INPUT_UP != 0, c.up);
        assert_eq!(m & INPUT_DOWN != 0, c.down);
        assert_eq!(m & INPUT_LEFT != 0, c.left);
        assert_eq!(m & INPUT_RIGHT != 0, c.right);
        assert_eq!(m & INPUT_FIRE != 0, c.fire);
        assert_eq!(m & INPUT_USE != 0, c.use_action);
    }
}

#[test]
fn disconnected_frame_is_zero_and_unconnected() {
    assert_eq!(disconnected_frame(), InputFrame { mask: 0, connected: false });
}
