use vstd::prelude::*;
use crate::components::{Delta, PreviousDelta};
use crate::plugins::sprite_animation::{SpriteAnimationPlayer, played};

verus! {

/// Which animation Rockford shows, with the direction it faces.
#[derive(PartialEq, Eq, Structural, Copy, Clone, Debug, Hash)]
pub enum RockfordAnimationState {
    Idle(Delta),
    MovingLeft(Delta),
    MovingRight(Delta),
}

/// The direction a state faces.
pub open spec fn facing(state: RockfordAnimationState) -> Delta {
    match state {
        RockfordAnimationState::Idle(d) => d,
        RockfordAnimationState::MovingLeft(d) => d,
        RockfordAnimationState::MovingRight(d) => d,
    }
}

/// The animation state after a step `delta`, or `None` when it stays: a step
/// equal to the previous one changes nothing; no step turns a moving state idle;
/// any other step picks right when it goes (or, vertically, faces) right by one,
/// and left otherwise.
pub open spec fn animation_update(
    last_state: RockfordAnimationState,
    delta: Delta,
    previous_delta: Option<PreviousDelta>,
) -> Option<RockfordAnimationState> {
    if previous_delta == Some(PreviousDelta(delta)) {
        None
    } else if delta.x == 0 && delta.y == 0 {
        match last_state {
            RockfordAnimationState::Idle(_) => None,
            RockfordAnimationState::MovingRight(d) => Some(RockfordAnimationState::Idle(d)),
            RockfordAnimationState::MovingLeft(d) => Some(RockfordAnimationState::Idle(d)),
        }
    } else {
        let delta_x = if delta.x != 0 {
            delta.x
        } else {
            facing(last_state).x
        };
        if delta_x == 1 {
            Some(RockfordAnimationState::MovingRight(Delta { x: 1, y: 0 }))
        } else {
            Some(RockfordAnimationState::MovingLeft(Delta { x: -1i32, y: 0 }))
        }
    }
}

/// The name of the sprite sequence that shows a state.
pub open spec fn sequence_name_for(state: RockfordAnimationState) -> Seq<char> {
    match state {
        RockfordAnimationState::Idle(_) => "RockfordStanding"@,
        RockfordAnimationState::MovingRight(_) => "RockfordMovingRight"@,
        RockfordAnimationState::MovingLeft(_) => "RockfordMovingLeft"@,
    }
}

/// The animation state after a step `delta`, or `None` when it stays.
pub fn update_motion_state_option(
    last_state: &RockfordAnimationState,
    delta: &Delta,
    previous_delta: Option<&PreviousDelta>,
) -> (r: Option<RockfordAnimationState>)
    ensures
        r == animation_update(
            *last_state,
            *delta,
            match previous_delta {
                Some(p) => Some(*p),
                None => None,
            },
        ),
{
    if let Some(prev_delta) = previous_delta {
        if prev_delta.0 == *delta {
            return None;
        }
    }
    if delta.x == 0 && delta.y == 0 {
        match last_state {
            RockfordAnimationState::Idle(_) => None,
            RockfordAnimationState::MovingRight(d) => Some(RockfordAnimationState::Idle(*d)),
            RockfordAnimationState::MovingLeft(d) => Some(RockfordAnimationState::Idle(*d)),
        }
    } else {
        let delta_x = if delta.x != 0 {
            delta.x
        } else {
            match last_state {
                RockfordAnimationState::MovingRight(d) => d.x,
                RockfordAnimationState::MovingLeft(d) => d.x,
                RockfordAnimationState::Idle(d) => d.x,
            }
        };
        if delta_x == 1 {
            Some(RockfordAnimationState::MovingRight(Delta::constant(1, 0)))
        } else {
            Some(RockfordAnimationState::MovingLeft(Delta::constant(-1, 0)))
        }
    }
}

/// The name of the sprite sequence that shows a state.
pub fn sequence_name(state: &RockfordAnimationState) -> (n: String)
    ensures
        n@ == sequence_name_for(*state),
{
    match state {
        RockfordAnimationState::Idle(_) => "RockfordStanding".to_owned(),
        RockfordAnimationState::MovingRight(_) => "RockfordMovingRight".to_owned(),
        RockfordAnimationState::MovingLeft(_) => "RockfordMovingLeft".to_owned(),
    }
}

/// One frame of Rockford's animation state: on a change of state the new state
/// is kept and the player plays the sequence that shows it; otherwise nothing
/// changes.
pub fn update_animation_state(
    animation_state: &mut RockfordAnimationState,
    animation_player: &mut SpriteAnimationPlayer,
    delta: &Delta,
    previous_delta: Option<&PreviousDelta>,
)
    ensures
        ({
            let prev = match previous_delta {
                Some(p) => Some(*p),
                None => None,
            };
            match animation_update(*old(animation_state), *delta, prev) {
                Some(s) => {
                    &&& *final(animation_state) == s
                    &&& final(animation_player)@ == played(
                        old(animation_player)@,
                        sequence_name_for(s),
                    )
                },
                None => {
                    &&& *final(animation_state) == *old(animation_state)
                    &&& final(animation_player)@ == old(animation_player)@
                },
            }
        }),
{
    if let Some(new_state) = update_motion_state_option(animation_state, delta, previous_delta) {
        let name = sequence_name(&new_state);
        *animation_state = new_state;
        animation_player.play(name);
    }
}

/// Repeating a step has no effect on the animation state.
pub proof fn lemma_repeated_step_keeps_state(state: RockfordAnimationState, delta: Delta)
    ensures
        animation_update(state, delta, Some(PreviousDelta(delta))) is None,
{
}

/// Every new state is either idle or moving one tile straight right or left,
/// and stopping keeps the direction faced.
pub proof fn lemma_new_state_shape(
    state: RockfordAnimationState,
    delta: Delta,
    prev: Option<PreviousDelta>,
)
    ensures
        animation_update(state, delta, prev) matches Some(s) ==> match s {
            RockfordAnimationState::Idle(d) => d == facing(state) && delta.x == 0 && delta.y == 0,
            RockfordAnimationState::MovingRight(d) => d == (Delta { x: 1, y: 0 }),
            RockfordAnimationState::MovingLeft(d) => d == (Delta { x: -1i32, y: 0 }),
        },
{
}

/// Stopping turns a moving Rockford idle, facing the way he was moving, unless
/// the previous step was already no step at all.
pub proof fn lemma_stop_turns_idle(d: Delta, prev: Option<PreviousDelta>)
    requires
        prev != Some(PreviousDelta(Delta { x: 0, y: 0 })),
    ensures
        animation_update(RockfordAnimationState::MovingLeft(d), Delta { x: 0, y: 0 }, prev)
            == Some(RockfordAnimationState::Idle(d)),
        animation_update(RockfordAnimationState::MovingRight(d), Delta { x: 0, y: 0 }, prev)
            == Some(RockfordAnimationState::Idle(d)),
        animation_update(RockfordAnimationState::Idle(d), Delta { x: 0, y: 0 }, prev) is None,
{
}

/// A new step picks the direction: one tile right moves right, any other
/// horizontal step moves left, and a vertical step moves the way Rockford faces
/// (right only if he faces one tile right).
pub proof fn lemma_step_picks_direction(state: RockfordAnimationState, delta: Delta, prev: Option<PreviousDelta>)
    requires
        prev != Some(PreviousDelta(delta)),
        !(delta.x == 0 && delta.y == 0),
    ensures
        delta.x == 1 ==> animation_update(state, delta, prev) == Some(
            RockfordAnimationState::MovingRight(Delta { x: 1, y: 0 }),
        ),
        delta.x != 0 && delta.x != 1 ==> animation_update(state, delta, prev) == Some(
            RockfordAnimationState::MovingLeft(Delta { x: -1i32, y: 0 }),
        ),
        delta.x == 0 ==> animation_update(state, delta, prev) == (if facing(state).x == 1 {
            Some(RockfordAnimationState::MovingRight(Delta { x: 1, y: 0 }))
        } else {
            Some(RockfordAnimationState::MovingLeft(Delta { x: -1i32, y: 0 }))
        }),
{
}

/// Each state is shown by its own sequence: standing when idle, and the
/// walking sequence of its direction otherwise.
pub proof fn lemma_sequence_names(d: Delta)
    ensures
        sequence_name_for(RockfordAnimationState::Idle(d)) == "RockfordStanding"@,
        sequence_name_for(RockfordAnimationState::MovingRight(d)) == "RockfordMovingRight"@,
        sequence_name_for(RockfordAnimationState::MovingLeft(d)) == "RockfordMovingLeft"@,
{
}

} // verus!
