use bevy::ecs::entity::Entity;
use rockford::components::{DataTransfer, Delta, Player, PreviousDelta, SpriteAnimationSequence};

#[test]
fn delta_new_keeps_coordinates_that_fit() {
    let d = Delta::new(3, -4);
    assert_eq!(d, Delta { x: 3, y: -4 });
}

#[test]
fn delta_new_zeroes_coordinates_that_do_not_fit() {
    let d = Delta::new(5_000_000_000, -5_000_000_000);
    assert_eq!(d, Delta { x: 0, y: 0 });
    let e = Delta::new(i32::MAX as i128, i32::MIN as i128);
    assert_eq!(e, Delta { x: i32::MAX, y: i32::MIN });
}

#[test]
fn delta_from_tuple_agrees_with_new() {
    assert_eq!(Delta::from_tuple((1, 0)), Delta::new(1, 0));
    assert_eq!(Delta::from_tuple((u64::MAX as i128, 2)), Delta { x: 0, y: 2 });
}

#[test]
fn delta_constant_and_zero() {
    assert_eq!(Delta::constant(-1, 7), Delta { x: -1, y: 7 });
    assert_eq!(Delta::zero(), Delta { x: 0, y: 0 });
}

#[test]
fn delta_to_index_is_row_major() {
    assert_eq!(Delta::constant(3, 2).to_index(10), 23);
    assert_eq!(Delta::constant(0, 0).to_index(10), 0);
    assert_eq!(Delta::constant(9, 49).to_index(80), 49 * 80 + 9);
}

#[test]
fn delta_index_gives_back_the_cell() {
    let w: usize = 18;
    let i = Delta::constant(5, 3).to_index(w as i128);
    assert_eq!(i % w, 5);
    assert_eq!(i / w, 3);
}

#[test]
fn delta_tuples() {
    assert_eq!(Delta::constant(4, -2).to_tuple(), (4, -2));
    assert_eq!(Delta::constant(4, 2).to_unsigned_tuple(), (4usize, 2usize));
}

#[test]
fn delta_from_i32_pair() {
    let d: Delta = (6, -6).into();
    assert_eq!(d, Delta { x: 6, y: -6 });
    assert_eq!(Delta::from((6, -6)).to_tuple(), (6, -6));
}

#[test]
fn previous_delta_compares_by_its_step() {
    assert_eq!(PreviousDelta(Delta::constant(1, 0)), PreviousDelta(Delta::constant(1, 0)));
    assert_ne!(PreviousDelta(Delta::constant(1, 0)), PreviousDelta(Delta::constant(0, 1)));
}

#[test]
fn player_starts_active_at_speed_three() {
    let p = Player::new();
    assert!(p.active);
    assert_eq!(f32::from_bits(p.speed_bits), 3.0);
}

#[test]
fn data_transfer_points_at_the_target() {
    let e = Entity::from_raw(12);
    let t = DataTransfer::move_to(e);
    assert_eq!(t.to, e);
}

#[test]
fn sequence_duration_is_its_length() {
    let frames = vec![40u32, 50, 60, 70, 41, 51, 61, 71];
    let s = SpriteAnimationSequence::new("DiamondShining".to_string(), &frames);
    assert_eq!(s.duration, 8);
    assert_eq!(s.name, "DiamondShining");
    assert_eq!(s.sequence, &frames);
}
