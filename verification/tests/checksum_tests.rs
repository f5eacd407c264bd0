use rollback_core::character::{
    CharacterCollider, CharacterControllerBundle, CharacterState, ColliderShape, MovementBundle,
};
use rollback_core::collision_masks::CollisionMask;
use rollback_core::checksum::{canonical_bytes, fletcher16, state_checksum};
use rollback_core::math::FxVec2;

fn character_at(x: i64, y: i64) -> CharacterState {
    let bundle = CharacterControllerBundle::new(
        ColliderShape { half_x: 4000, half_y: 6500 },
        CollisionMask::from(CharacterCollider::Player),
    );
    CharacterState::spawn(FxVec2 { x, y }, bundle, MovementBundle::default())
}

#[test]
fn fletcher16_of_empty_is_zero() {
    assert_eq!(fletcher16(&[]), 0);
}

#[test]
fn fletcher16_known_values() {
    // The classic reference value for "abcde".
    assert_eq!(fletcher16(&[97, 98, 99, 100, 101]), 0xC8F0);
    assert_eq!(fletcher16(&[1, 2]), 4 * 256 + 3);
    assert_eq!(fletcher16(&[0]), 0);
}

#[test]
fn fletcher16_depends_on_order() {
    assert_ne!(fletcher16(&[1, 2]), fletcher16(&[2, 1]));
}

#[test]
fn canonical_bytes_are_eight_per_coordinate() {
    let chars = vec![character_at(0, 0)];
    assert_eq!(canonical_bytes(&chars).len(), 16);
    let chars2 = vec![character_at(0, 0), character_at(5, 5)];
    assert_eq!(canonical_bytes(&chars2).len(), 32);
}

#[test]
fn equal_states_have_equal_checksums() {
    let a = vec![character_at(123_456, -789), character_at(-5, 17)];
    let b = vec![character_at(123_456, -789), character_at(-5, 17)];
    assert_eq!(state_checksum(&a), state_checksum(&b));
}

#[test]
fn a_moved_character_changes_the_checksum() {
    let a = vec![character_at(1, 0)];
    let b = vec![character_at(2, 0)];
    assert_ne!(state_checksum(&a), state_checksum(&b));
}

#[test]
fn empty_state_checksum_is_zero() {
    let chars: Vec<CharacterState> = Vec::new();
    assert_eq!(state_checksum(&chars), 0);
}
