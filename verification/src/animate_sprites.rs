use vstd::prelude::*;
use crate::plugins::player_input::{RockfordMotionState, first_frame_index};

verus! {

/// A tile animation whose next sprite index a function computes from the current one.
#[derive(Clone)]
pub struct Animatable<F> {
    pub current_index: u32,
    pub sprite_index_provider: F,
}

impl<F: Fn(u32) -> u32> Animatable<F> {
    /// Advances to the next sprite index that the provider gives and returns it.
    pub fn next_index(&mut self) -> (r: u32)
        requires
            old(self).sprite_index_provider.requires((old(self).current_index,)),
        ensures
            old(self).sprite_index_provider.ensures((old(self).current_index,), r),
            final(self).current_index == r,
            final(self).sprite_index_provider == old(self).sprite_index_provider,
    {
        let next_index = (self.sprite_index_provider)(self.current_index);
        self.current_index = next_index;
        self.current_index
    }
}

/// A tile animation whose next sprite index depends on the motion state as well.
#[derive(Clone)]
pub struct AnimatableGeneric<F> {
    pub current_index: u32,
    pub current_state: RockfordMotionState,
    pub sprite_index_provider: F,
}

impl<F: Fn(u32, &RockfordMotionState) -> u32> AnimatableGeneric<F> {
    /// Advances to the sprite index that the provider gives for the current index
    /// and state, and returns it.
    pub fn get_index(&mut self) -> (r: u32)
        requires
            old(self).sprite_index_provider.requires(
                (old(self).current_index, &old(self).current_state),
            ),
        ensures
            old(self).sprite_index_provider.ensures(
                (old(self).current_index, &old(self).current_state),
                r,
            ),
            final(self).current_index == r,
            final(self).current_state == old(self).current_state,
            final(self).sprite_index_provider == old(self).sprite_index_provider,
    {
        let next_index = (self.sprite_index_provider)(self.current_index, &self.current_state);
        self.current_index = next_index;
        self.current_index
    }

    /// Switches to a new motion state and restarts at its first frame; a state
    /// equal to the current one changes nothing.
    pub fn update_state(&mut self, state: RockfordMotionState)
        ensures
            old(self).current_state == state ==> *final(self) == *old(self),
            old(self).current_state != state ==> {
                &&& final(self).current_state == state
                &&& final(self).current_index == first_frame_index(state)
                &&& final(self).sprite_index_provider == old(self).sprite_index_provider
            },
    {
        if !self.current_state.same_as(&state) {
            self.current_index = state.get_first_frame_index();
            self.current_state = state;
        }
    }
}

/// How the animation timer's duration changes on a frame of the standing animation.
#[derive(PartialEq, Eq, Structural, Copy, Clone, Debug)]
pub enum TimerDurationChange {
    /// Leave the duration as it is.
    Keep,
    /// A pause of three seconds before the animation starts over.
    SetThreeSeconds,
    /// Back to 150 milliseconds between frames.
    SetHundredFiftyMillis,
}

/// The next frame of the seven frame standing animation.
pub open spec fn standing_next(current_index: u32) -> u32 {
    ((current_index + 1) % 7) as u32
}

/// The next sprite index of Rockford standing, and how the timer changes: when
/// the animation wraps around and the timer is under a second, it pauses for
/// three seconds; a timer of a second or more goes back to 150 milliseconds.
pub fn get_index_rockford_standing(current_index: u32, duration_below_one_second: bool) -> (r: (
    u32,
    TimerDurationChange,
))
    requires
        current_index < u32::MAX,
    ensures
        r.0 == standing_next(current_index),
        r.1 == (if r.0 == 0 && duration_below_one_second {
            TimerDurationChange::SetThreeSeconds
        } else if !duration_below_one_second {
            TimerDurationChange::SetHundredFiftyMillis
        } else {
            TimerDurationChange::Keep
        }),
{
    let next_index = (current_index + 1) % 7;
    let change = if next_index == 0 && duration_below_one_second {
        TimerDurationChange::SetThreeSeconds
    } else if !duration_below_one_second {
        TimerDurationChange::SetHundredFiftyMillis
    } else {
        TimerDurationChange::Keep
    };
    (next_index, change)
}

/// The next sprite index of Rockford walking left.
pub fn get_index_rockford_walk_left(current_index: u32) -> (r: u32)
    requires
        current_index < u32::MAX,
    ensures
        r == (current_index + 1) % 7 + 10,
        10 <= r <= 16,
{
    (current_index + 1) % 7 + 10
}

/// The next sprite index of Rockford walking right.
pub fn get_index_rockford_walk_right(current_index: usize) -> (r: usize)
    requires
        current_index < usize::MAX,
    ensures
        r == (current_index + 1) % 7 + 20,
        20 <= r <= 26,
{
    (current_index + 1) % 7 + 20
}

/// The next index of an animation whose frames lie one below the other in a
/// sheet ten sprites wide, four frames from `start_offset` on.
pub open spec fn vertical_next(current_index: u32, start_offset: u32) -> u32 {
    if current_index <= start_offset {
        start_offset
    } else {
        (((current_index - start_offset + 10) % 40) + start_offset) as u32
    }
}

/// The next index of an animation whose frames lie one below the other.
pub fn get_index_vertical_animation(current_index: u32, start_offset: u32) -> (r: u32)
    requires
        start_offset + 39 <= u32::MAX,
        current_index <= start_offset || current_index - start_offset + 10 <= u32::MAX,
    ensures
        r == vertical_next(current_index, start_offset),
        start_offset <= r < start_offset + 40,
{
    if current_index <= start_offset {
        return start_offset;
    }
    ((current_index - start_offset + 10) % 40) + start_offset
}

/// The next sprite index of a shining diamond: the vertical animation from
/// index 40, where 40 and 41 swap.
pub open spec fn diamond_next(current_index: u32) -> u32 {
    let next = vertical_next(current_index, 40);
    if next == 40 {
        41
    } else if next == 41 {
        40
    } else {
        next
    }
}

/// The next sprite index of a shining diamond.
pub fn get_index_for_diamond(current_index: u32) -> (r: u32)
    ensures
        r == diamond_next(current_index),
        40 <= r < 80,
{
    let start_offset: u32 = 40;
    let next_index = get_index_vertical_animation(current_index, start_offset);
    if next_index % 2 == 0 {
        if (next_index - start_offset) == 0 {
            return next_index + 1;
        }
    } else {
        if (next_index - start_offset - 1) == 0 {
            return next_index - 1;
        }
    }
    next_index
}

/// Started from its first frame 40, the diamond cycles through the frames
/// 40, 41, 51, 61 and 71, in this order.
pub proof fn lemma_diamond_cycle()
    ensures
        diamond_next(40) == 41,
        diamond_next(41) == 51,
        diamond_next(51) == 61,
        diamond_next(61) == 71,
        diamond_next(71) == 40,
{
}

/// The standing animation runs through its seven frames in turn: from a frame
/// below 7 it moves one frame on, wrapping from 6 to 0, and comes back after
/// seven steps.
pub proof fn lemma_standing_cycle(i: u32)
    requires
        i < 7,
    ensures
        standing_next(i) == (if i == 6 { 0 } else { i + 1 }),
        standing_next(standing_next(standing_next(standing_next(standing_next(standing_next(standing_next(i)))))))
            == i,
{
}

/// The vertical animation moves one row (ten sprites) down in a block of four
/// rows, wrapping to the top: above the first frame it keeps the column and
/// steps the row.
pub proof fn lemma_vertical_steps_a_row(current_index: u32, start_offset: u32)
    requires
        current_index > start_offset,
        start_offset + 39 <= u32::MAX,
    ensures
        start_offset <= vertical_next(current_index, start_offset) < start_offset + 40,
        (vertical_next(current_index, start_offset) - start_offset) % 40 == (current_index
            - start_offset + 10) % 40,
        current_index - start_offset < 30 ==> vertical_next(current_index, start_offset)
            == current_index + 10,
{
}

/// At or below its first frame, the vertical animation starts at the first frame.
pub proof fn lemma_vertical_starts(current_index: u32, start_offset: u32)
    requires
        current_index <= start_offset,
    ensures
        vertical_next(current_index, start_offset) == start_offset,
{
}

} // verus!
