use vstd::prelude::*;
use crate::components::Delta;

verus! {

/// What Rockford is doing; when idle it remembers the direction it last moved in.
#[derive(Eq, Debug, Hash)]
pub enum RockfordMotionState {
    Idle { last_direction: Box<RockfordMotionState> },
    MovingLeft,
    MovingRight,
}

/// The state that follows `state` after a step `delta`, or `None` when it stays.
pub open spec fn motion_update(state: RockfordMotionState, delta: Delta) -> Option<RockfordMotionState> {
    if delta.x == 0 && delta.y == 0 {
        match state {
            RockfordMotionState::Idle { .. } => None,
            _ => Some(RockfordMotionState::Idle { last_direction: Box::new(state) }),
        }
    } else if delta.x != 0 {
        if delta.x == 1 {
            Some(RockfordMotionState::MovingRight)
        } else {
            Some(RockfordMotionState::MovingLeft)
        }
    } else {
        match state {
            RockfordMotionState::Idle { last_direction } => Some(*last_direction),
            _ => None,
        }
    }
}

/// The state after a step: the new one if there is one, else the old one.
pub open spec fn motion_after(state: RockfordMotionState, delta: Delta) -> RockfordMotionState {
    match motion_update(state, delta) {
        Some(s) => s,
        None => state,
    }
}

/// The first sprite frame of the animation that shows a state.
pub open spec fn first_frame_index(state: RockfordMotionState) -> u32 {
    match state {
        RockfordMotionState::Idle { .. } => 0,
        RockfordMotionState::MovingLeft => 10,
        RockfordMotionState::MovingRight => 20,
    }
}

impl RockfordMotionState {
    /// A copy of the state, equal to it.
    pub fn duplicate(&self) -> (r: RockfordMotionState)
        ensures
            r == *self,
        decreases self,
    {
        match self {
            RockfordMotionState::Idle { last_direction } => {
                let inner = last_direction.duplicate();
                RockfordMotionState::Idle { last_direction: Box::new(inner) }
            },
            RockfordMotionState::MovingLeft => RockfordMotionState::MovingLeft,
            RockfordMotionState::MovingRight => RockfordMotionState::MovingRight,
        }
    }

    /// Whether two states are the same, the remembered directions included.
    pub fn same_as(&self, other: &RockfordMotionState) -> (r: bool)
        ensures
            r == (*self == *other),
        decreases self,
    {
        match (self, other) {
            (
                RockfordMotionState::Idle { last_direction: a },
                RockfordMotionState::Idle { last_direction: b },
            ) => a.same_as(b),
            (RockfordMotionState::MovingLeft, RockfordMotionState::MovingLeft) => true,
            (RockfordMotionState::MovingRight, RockfordMotionState::MovingRight) => true,
            _ => false,
        }
    }

    /// Moves to the state that follows a step `delta`.
    pub fn update_motion_state(&mut self, delta: &Delta)
        ensures
            *final(self) == motion_after(*old(self), *delta),
    {
        if delta.x == 0 && delta.y == 0 {
            match self {
                RockfordMotionState::Idle { .. } => {},
                _ => {
                    let previous = self.duplicate();
                    *self = RockfordMotionState::Idle { last_direction: Box::new(previous) };
                },
            }
        } else if delta.x != 0 {
            *self = if delta.x == 1 {
                RockfordMotionState::MovingRight
            } else {
                RockfordMotionState::MovingLeft
            };
        } else {
            let restored: Option<RockfordMotionState> = match self {
                RockfordMotionState::Idle { last_direction } => Some(last_direction.duplicate()),
                _ => None,
            };
            if let Some(s) = restored {
                *self = s;
            }
        }
    }

    /// The state that follows a step `delta`, or `None` when the state stays.
    pub fn update_motion_state_option(&self, delta: &Delta) -> (r: Option<RockfordMotionState>)
        ensures
            r == motion_update(*self, *delta),
    {
        if delta.x == 0 && delta.y == 0 {
            match self {
                RockfordMotionState::Idle { .. } => None,
                _ => Some(RockfordMotionState::Idle { last_direction: Box::new(self.duplicate()) }),
            }
        } else if delta.x != 0 {
            if delta.x == 1 {
                Some(RockfordMotionState::MovingRight)
            } else {
                Some(RockfordMotionState::MovingLeft)
            }
        } else {
            match self {
                RockfordMotionState::Idle { last_direction } => Some(last_direction.duplicate()),
                _ => None,
            }
        }
    }

    /// The first sprite frame of the animation that shows this state.
    pub fn get_first_frame_index(&self) -> (i: u32)
        ensures
            i == first_frame_index(*self),
    {
        match self {
            RockfordMotionState::Idle { .. } => 0,
            RockfordMotionState::MovingLeft => 10,
            RockfordMotionState::MovingRight => 20,
        }
    }
}

impl Clone for RockfordMotionState {
    fn clone(&self) -> (r: RockfordMotionState)
        ensures
            r == *self,
    {
        self.duplicate()
    }
}

impl PartialEq for RockfordMotionState {
    fn eq(&self, other: &RockfordMotionState) -> (r: bool) {
        self.same_as(other)
    }
}

impl vstd::std_specs::cmp::PartialEqSpecImpl for RockfordMotionState {
    open spec fn obeys_eq_spec() -> bool {
        true
    }

    open spec fn eq_spec(&self, other: &RockfordMotionState) -> bool {
        *self == *other
    }
}

/// What one frame of keyboard input asks for.
pub struct KeyboardOutcome {
    /// The step the player is asked to take.
    pub delta: Delta,
    /// The motion state to switch to, if it changes.
    pub new_state: Option<RockfordMotionState>,
    /// Whether the player entity gets the step to move.
    pub moves_player: bool,
}

/// The step that the keys pressed in this frame ask for: A (left) first, then
/// D (right), W (up) and S (down); only one of them counts.
pub open spec fn delta_for_keys(a: bool, d: bool, w: bool, s: bool) -> Delta {
    if a {
        Delta { x: -1i32, y: 0 }
    } else if d {
        Delta { x: 1, y: 0 }
    } else if w {
        Delta { x: 0, y: 1 }
    } else if s {
        Delta { x: 0, y: -1i32 }
    } else {
        Delta { x: 0, y: 0 }
    }
}

/// Turns the keys just pressed (A, D, W, S) into a step, the next motion state
/// and whether the player is to move.
pub fn keyboard_input_outcome(
    state: &RockfordMotionState,
    a: bool,
    d: bool,
    w: bool,
    s: bool,
) -> (o: KeyboardOutcome)
    ensures
        o.delta == delta_for_keys(a, d, w, s),
        o.new_state == motion_update(*state, o.delta),
        o.moves_player == !(o.delta.x == 0 && o.delta.y == 0),
{
    let mut delta = Delta::zero();
    if a {
        delta.x = -1;
    }
    if delta == Delta::zero() && d {
        delta.x = 1;
    }
    if delta == Delta::zero() && w {
        delta.y = 1;
    }
    if delta == Delta::zero() && s {
        delta.y = -1;
    }
    let new_state = state.update_motion_state_option(&delta);
    let moves_player = !(delta == Delta::zero());
    KeyboardOutcome { delta, new_state, moves_player }
}

/// The keys ask for at most one step of one tile, along one axis.
pub proof fn lemma_keys_step_one_tile(a: bool, d: bool, w: bool, s: bool)
    ensures
        ({
            let delta = delta_for_keys(a, d, w, s);
            &&& -1 <= delta.x <= 1
            &&& -1 <= delta.y <= 1
            &&& delta.x == 0 || delta.y == 0
            &&& (delta.x == 0 && delta.y == 0) <==> !(a || d || w || s)
        }),
{
}

/// Updating the state in place agrees with asking for the next state: the state
/// becomes the one `update_motion_state_option` gives, or stays when it gives none.
pub proof fn lemma_in_place_update_agrees(state: RockfordMotionState, delta: Delta)
    ensures
        motion_after(state, delta) == (match motion_update(state, delta) {
            Some(s) => s,
            None => state,
        }),
{
}

/// Standing still while idle changes nothing, so stopping twice is stopping once.
pub proof fn lemma_stop_is_idempotent(state: RockfordMotionState)
    ensures
        motion_update(motion_after(state, Delta { x: 0, y: 0 }), Delta { x: 0, y: 0 }) is None,
        motion_after(motion_after(state, Delta { x: 0, y: 0 }), Delta { x: 0, y: 0 })
            == motion_after(state, Delta { x: 0, y: 0 }),
{
}

/// Stopping and then moving vertically gives back the state Rockford was moving in.
pub proof fn lemma_vertical_move_restores_direction(state: RockfordMotionState, y: i32)
    requires
        !(state is Idle),
        y != 0,
    ensures
        motion_after(motion_after(state, Delta { x: 0, y: 0 }), Delta { x: 0, y }) == state,
{
}

/// A horizontal step always decides the state, whatever it was: right for +1,
/// left for any other value.
pub proof fn lemma_horizontal_step_decides(s1: RockfordMotionState, s2: RockfordMotionState, d: Delta)
    requires
        d.x != 0,
    ensures
        motion_after(s1, d) == motion_after(s2, d),
        motion_after(s1, d) is Idle == false,
{
}

/// A vertical step leaves a moving state as it is: Rockford keeps facing the
/// way he walks.
pub proof fn lemma_vertical_step_keeps_moving(y: i32)
    requires
        y != 0,
    ensures
        motion_update(RockfordMotionState::MovingLeft, Delta { x: 0, y }) is None,
        motion_update(RockfordMotionState::MovingRight, Delta { x: 0, y }) is None,
        motion_after(RockfordMotionState::MovingLeft, Delta { x: 0, y }) == RockfordMotionState::MovingLeft,
        motion_after(RockfordMotionState::MovingRight, Delta { x: 0, y })
            == RockfordMotionState::MovingRight,
{
}

/// What a step does to each state: no step turns a moving state idle,
/// remembering it, and leaves an idle state alone; a horizontal step moves
/// right for +1 and left otherwise; a vertical step brings an idle state back
/// to the direction it remembers.
pub proof fn lemma_motion_update_cases(s: RockfordMotionState, d: Delta)
    ensures
        d.x == 0 && d.y == 0 && s is Idle ==> motion_update(s, d) is None,
        d.x == 0 && d.y == 0 && !(s is Idle) ==> motion_update(s, d) == Some(
            RockfordMotionState::Idle { last_direction: Box::new(s) },
        ),
        d.x == 1 ==> motion_update(s, d) == Some(RockfordMotionState::MovingRight),
        d.x != 0 && d.x != 1 ==> motion_update(s, d) == Some(RockfordMotionState::MovingLeft),
        d.x == 0 && d.y != 0 ==> (s matches RockfordMotionState::Idle { last_direction }
            ==> motion_update(s, d) == Some(*last_direction)),
{
}

/// Every idle state starts its animation at frame 0, whatever direction it
/// remembers; walking left starts at 10 and walking right at 20.
pub proof fn lemma_first_frames(d: RockfordMotionState)
    ensures
        first_frame_index(RockfordMotionState::Idle { last_direction: Box::new(d) }) == 0,
        first_frame_index(RockfordMotionState::MovingLeft) == 10,
        first_frame_index(RockfordMotionState::MovingRight) == 20,
{
}

/// The keys count in the order A, D, W, S: the first one pressed gives one
/// tile left, right, up or down.
pub proof fn lemma_key_priority(a: bool, d: bool, w: bool, s: bool)
    ensures
        a ==> delta_for_keys(a, d, w, s) == (Delta { x: -1i32, y: 0 }),
        !a && d ==> delta_for_keys(a, d, w, s) == (Delta { x: 1, y: 0 }),
        !a && !d && w ==> delta_for_keys(a, d, w, s) == (Delta { x: 0, y: 1 }),
        !a && !d && !w && s ==> delta_for_keys(a, d, w, s) == (Delta { x: 0, y: -1i32 }),
        !a && !d && !w && !s ==> delta_for_keys(a, d, w, s) == (Delta { x: 0, y: 0 }),
{
}

} // verus!
