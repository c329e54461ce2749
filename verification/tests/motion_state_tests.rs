use rockford::components::Delta;
use rockford::plugins::player_input::{keyboard_input_outcome, RockfordMotionState};

fn idle_after(s: RockfordMotionState) -> RockfordMotionState {
    RockfordMotionState::Idle { last_direction: Box::new(s) }
}

#[test]
fn stopping_remembers_the_direction() {
    let mut s = RockfordMotionState::MovingLeft;
    s.update_motion_state(&Delta::zero());
    assert_eq!(s, idle_after(RockfordMotionState::MovingLeft));
}

#[test]
fn stopping_while_idle_changes_nothing() {
    let mut s = idle_after(RockfordMotionState::MovingRight);
    s.update_motion_state(&Delta::zero());
    assert_eq!(s, idle_after(RockfordMotionState::MovingRight));
    assert_eq!(s.update_motion_state_option(&Delta::zero()), None);
}

#[test]
fn horizontal_steps_pick_the_direction() {
    let mut s = RockfordMotionState::MovingLeft;
    s.update_motion_state(&Delta::constant(1, 0));
    assert_eq!(s, RockfordMotionState::MovingRight);
    s.update_motion_state(&Delta::constant(-1, 0));
    assert_eq!(s, RockfordMotionState::MovingLeft);
    s.update_motion_state(&Delta::constant(2, 0));
    assert_eq!(s, RockfordMotionState::MovingLeft);
}

#[test]
fn vertical_step_restores_the_direction_from_idle() {
    let mut s = RockfordMotionState::MovingRight;
    s.update_motion_state(&Delta::zero());
    s.update_motion_state(&Delta::constant(0, -1));
    assert_eq!(s, RockfordMotionState::MovingRight);
}

#[test]
fn vertical_step_keeps_a_moving_state() {
    let s = RockfordMotionState::MovingLeft;
    assert_eq!(s.update_motion_state_option(&Delta::constant(0, 1)), None);
}

#[test]
fn option_form_agrees_with_in_place_update() {
    let states = vec![
        RockfordMotionState::MovingLeft,
        RockfordMotionState::MovingRight,
        idle_after(RockfordMotionState::MovingLeft),
        idle_after(idle_after(RockfordMotionState::MovingRight)),
    ];
    let deltas = vec![
        Delta::zero(),
        Delta::constant(1, 0),
        Delta::constant(-1, 0),
        Delta::constant(0, 1),
        Delta::constant(0, -1),
    ];
    for s in &states {
        for d in &deltas {
            let mut t = s.clone();
            t.update_motion_state(d);
            let expected = match s.update_motion_state_option(d) {
                Some(n) => n,
                None => s.clone(),
            };
            assert_eq!(t, expected);
        }
    }
}

#[test]
fn first_frames() {
    assert_eq!(idle_after(RockfordMotionState::MovingLeft).get_first_frame_index(), 0);
    assert_eq!(RockfordMotionState::MovingLeft.get_first_frame_index(), 10);
    assert_eq!(RockfordMotionState::MovingRight.get_first_frame_index(), 20);
}

#[test]
fn keys_have_a_priority() {
    let s = RockfordMotionState::MovingRight;
    let o = keyboard_input_outcome(&s, true, true, true, true);
    assert_eq!(o.delta, Delta::constant(-1, 0));
    assert_eq!(o.new_state, Some(RockfordMotionState::MovingLeft));
    assert!(o.moves_player);
    let o = keyboard_input_outcome(&s, false, false, true, true);
    assert_eq!(o.delta, Delta::constant(0, 1));
    assert_eq!(o.new_state, None);
    let o = keyboard_input_outcome(&s, false, false, false, true);
    assert_eq!(o.delta, Delta::constant(0, -1));
    let o = keyboard_input_outcome(&s, false, true, false, false);
    assert_eq!(o.delta, Delta::constant(1, 0));
}

#[test]
fn no_key_stops_and_does_not_move() {
    let s = RockfordMotionState::MovingRight;
    let o = keyboard_input_outcome(&s, false, false, false, false);
    assert_eq!(o.delta, Delta::zero());
    assert_eq!(o.new_state, Some(idle_after(RockfordMotionState::MovingRight)));
    assert!(!o.moves_player);
}

#[test]
fn clone_and_equality() {
    let s = idle_after(idle_after(RockfordMotionState::MovingLeft));
    assert_eq!(s.clone(), s);
    assert!(s.same_as(&s.duplicate()));
    assert_ne!(s, idle_after(RockfordMotionState::MovingLeft));
}

#[test]
fn keys_ask_for_one_tile_at_most() {
    let s = RockfordMotionState::MovingLeft;
    for bits in 0..16u8 {
        let (a, d, w, k) = (bits & 1 != 0, bits & 2 != 0, bits & 4 != 0, bits & 8 != 0);
        let o = keyboard_input_outcome(&s, a, d, w, k);
        assert!(o.delta.x.abs() + o.delta.y.abs() <= 1);
        assert_eq!(o.moves_player, bits != 0);
    }
}

#[test]
fn stopping_twice_is_stopping_once() {
    let mut s = RockfordMotionState::MovingRight;
    s.update_motion_state(&Delta::zero());
    let once = s.clone();
    s.update_motion_state(&Delta::zero());
    assert_eq!(s, once);
}
