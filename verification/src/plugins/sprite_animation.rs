use vstd::prelude::*;

verus! {

/// Bit pattern of the `f32` value 1.0, the default playback speed.
pub open spec fn speed_one_bits() -> u32 {
    0x3F80_0000u32
}

/// What a player of sprite animations holds, as the contracts see it.
pub struct PlayerState {
    pub paused: bool,
    pub repeat: bool,
    /// Bit pattern of the `f32` playback speed.
    pub speed_bits: u32,
    /// Bit pattern of the `f32` time played so far, in seconds.
    pub elapsed_bits: u32,
    pub current_index: Option<u32>,
    pub sequence_name: Seq<char>,
}

/// A player that has just started the sequence `name`: playing, repeating, at
/// normal speed, from the beginning.
pub open spec fn started(name: Seq<char>) -> PlayerState {
    PlayerState {
        paused: false,
        repeat: true,
        speed_bits: speed_one_bits(),
        elapsed_bits: 0,
        current_index: None,
        sequence_name: name,
    }
}

/// The player after it is asked to play `name`: started over unless it is
/// already playing that sequence unpaused.
pub open spec fn played(p: PlayerState, name: Seq<char>) -> PlayerState {
    if p.sequence_name != name || p.paused {
        started(name)
    } else {
        p
    }
}

/// The player with its pause flag set to `paused`.
pub open spec fn with_paused(p: PlayerState, paused: bool) -> PlayerState {
    PlayerState { paused, ..p }
}

/// Animation controls. Speed and elapsed time are `f32` values that the
/// library only stores, so it keeps their bit patterns.
pub struct SpriteAnimationPlayer {
    paused: bool,
    repeat: bool,
    speed_bits: u32,
    elapsed_bits: u32,
    current_index: Option<u32>,
    sequence_name: String,
}

impl View for SpriteAnimationPlayer {
    type V = PlayerState;

    closed spec fn view(&self) -> PlayerState {
        PlayerState {
            paused: self.paused,
            repeat: self.repeat,
            speed_bits: self.speed_bits,
            elapsed_bits: self.elapsed_bits,
            current_index: self.current_index,
            sequence_name: self.sequence_name@,
        }
    }
}

impl Default for SpriteAnimationPlayer {
    fn default() -> (p: SpriteAnimationPlayer)
        ensures
            p@ == started(Seq::<char>::empty()),
    {
        SpriteAnimationPlayer {
            paused: false,
            repeat: true,
            speed_bits: 0x3F80_0000u32,
            elapsed_bits: 0,
            current_index: None,
            sequence_name: String::new(),
        }
    }
}

impl SpriteAnimationPlayer {
    /// A player of the sequence `sequence_name`, started.
    pub fn new(sequence_name: String) -> (p: SpriteAnimationPlayer)
        ensures
            p@ == started(sequence_name@),
    {
        SpriteAnimationPlayer {
            paused: false,
            repeat: true,
            speed_bits: 0x3F80_0000u32,
            elapsed_bits: 0,
            current_index: None,
            sequence_name,
        }
    }

    /// A copy of the player.
    pub fn duplicate(&self) -> (p: SpriteAnimationPlayer)
        ensures
            p@ == self@,
    {
        SpriteAnimationPlayer {
            paused: self.paused,
            repeat: self.repeat,
            speed_bits: self.speed_bits,
            elapsed_bits: self.elapsed_bits,
            current_index: self.current_index,
            sequence_name: self.sequence_name.clone(),
        }
    }

    /// Start playing an animation, resetting state of the player.
    pub fn start(&mut self, sequence_name: String) -> (r: &mut SpriteAnimationPlayer)
        ensures
            r@ == started(sequence_name@),
            final(self)@ == final(r)@,
    {
        *self = SpriteAnimationPlayer::new(sequence_name);
        self
    }

    /// Start playing an animation, resetting state of the player, unless the
    /// requested animation is already playing.
    pub fn play(&mut self, sequence: String) -> (r: &mut SpriteAnimationPlayer)
        ensures
            r@ == played(old(self)@, sequence@),
            final(self)@ == final(r)@,
    {
        if !(self.sequence_name == sequence) || self.is_paused() {
            *self = SpriteAnimationPlayer::new(sequence);
        }
        self
    }

    /// Set the animation to repeat.
    pub fn repeat(&mut self) -> (r: &mut SpriteAnimationPlayer)
        ensures
            r@ == (PlayerState { repeat: true, ..old(self)@ }),
            final(self)@ == final(r)@,
    {
        self.repeat = true;
        self
    }

    /// Stop the animation from repeating.
    pub fn stop_repeating(&mut self) -> (r: &mut SpriteAnimationPlayer)
        ensures
            r@ == (PlayerState { repeat: false, ..old(self)@ }),
            final(self)@ == final(r)@,
    {
        self.repeat = false;
        self
    }

    /// Pause the animation.
    pub fn pause(&mut self)
        ensures
            final(self)@ == with_paused(old(self)@, true),
    {
        self.paused = true;
    }

    /// Unpause the animation.
    pub fn resume(&mut self)
        ensures
            final(self)@ == with_paused(old(self)@, false),
    {
        self.paused = false;
    }

    /// Is the animation paused.
    pub fn is_paused(&self) -> (b: bool)
        ensures
            b == self@.paused,
    {
        self.paused
    }

    /// Whether the animation repeats.
    pub fn is_repeating(&self) -> (b: bool)
        ensures
            b == self@.repeat,
    {
        self.repeat
    }

    /// The `f32` bit pattern of the playback speed.
    pub fn speed_bits(&self) -> (b: u32)
        ensures
            b == self@.speed_bits,
    {
        self.speed_bits
    }

    /// Set the playback speed, given as the bit pattern of an `f32`.
    pub fn set_speed_bits(&mut self, speed_bits: u32) -> (r: &mut SpriteAnimationPlayer)
        ensures
            r@ == (PlayerState { speed_bits, ..old(self)@ }),
            final(self)@ == final(r)@,
    {
        self.speed_bits = speed_bits;
        self
    }

    /// The `f32` bit pattern of the time played so far.
    pub fn elapsed_bits(&self) -> (b: u32)
        ensures
            b == self@.elapsed_bits,
    {
        self.elapsed_bits
    }

    /// Seek to a time in the animation, given as the bit pattern of an `f32`.
    pub fn set_elapsed_bits(&mut self, elapsed_bits: u32) -> (r: &mut SpriteAnimationPlayer)
        ensures
            r@ == (PlayerState { elapsed_bits, ..old(self)@ }),
            final(self)@ == final(r)@,
    {
        self.elapsed_bits = elapsed_bits;
        self
    }

    /// The name of the sequence being played.
    pub fn sequence_name(&self) -> (n: &String)
        ensures
            n@ == self@.sequence_name,
    {
        &self.sequence_name
    }

    /// Whether a frame has to be worked out for this player: a paused player
    /// that nobody changed since the last frame is left alone.
    pub fn needs_frame(&self, changed: bool) -> (b: bool)
        ensures
            b == !(self@.paused && !changed),
    {
        !(self.paused && !changed)
    }
}

/// The sprite index shown at frame `current_frame` of a sequence; a frame past
/// the end shows the first sprite.
pub open spec fn frame_sprite(sequence: Seq<u32>, current_frame: int) -> u32 {
    if current_frame >= sequence.len() {
        sequence[0]
    } else {
        sequence[current_frame]
    }
}

/// The sprite index shown at frame `current_frame` of a sequence.
pub fn frame_sprite_index(sequence: &Vec<u32>, current_frame: usize) -> (i: u32)
    requires
        sequence@.len() > 0,
    ensures
        i == frame_sprite(sequence@, current_frame as int),
{
    if current_frame >= sequence.len() {
        sequence[0]
    } else {
        sequence[current_frame]
    }
}

/// The texture index to write: the frame's sprite, unless the tile already shows it.
pub fn texture_update(shown: u32, wanted: u32) -> (r: Option<u32>)
    ensures
        r == (if shown != wanted { Some(wanted) } else { None::<u32> }),
{
    if shown != wanted {
        Some(wanted)
    } else {
        None
    }
}

/// Playing a sequence leaves the player playing it, unpaused, and playing the
/// same sequence again changes nothing.
pub proof fn lemma_play_idempotent(p: PlayerState, name: Seq<char>)
    ensures
        played(p, name).sequence_name == name,
        !played(p, name).paused,
        played(played(p, name), name) == played(p, name),
{
}

/// Pausing and then resuming gives back a playing player that is otherwise unchanged.
pub proof fn lemma_pause_resume(p: PlayerState)
    ensures
        with_paused(with_paused(p, true), false) == with_paused(p, false),
        !p.paused ==> with_paused(with_paused(p, true), false) == p,
{
}

/// A started player plays its sequence from the beginning, unpaused, repeating,
/// at speed 1.0, with no frame chosen yet.
pub proof fn lemma_started_defaults(name: Seq<char>)
    ensures
        started(name).sequence_name == name,
        !started(name).paused,
        started(name).repeat,
        started(name).speed_bits == 0x3F80_0000u32,
        started(name).elapsed_bits == 0,
        started(name).current_index is None,
{
}

/// Playing a sequence other than the current one, or playing while paused,
/// restarts the player from scratch; playing the current sequence unpaused
/// leaves the player as it is.
pub proof fn lemma_play_restarts(p: PlayerState, name: Seq<char>)
    ensures
        (p.sequence_name != name || p.paused) ==> played(p, name) == (PlayerState {
            paused: false,
            repeat: true,
            speed_bits: 0x3F80_0000u32,
            elapsed_bits: 0,
            current_index: None,
            sequence_name: name,
        }),
        (p.sequence_name == name && !p.paused) ==> played(p, name) == p,
{
}

/// Pausing and resuming change the pause flag and nothing else.
pub proof fn lemma_pause_changes_only_the_flag(p: PlayerState, b: bool)
    ensures
        with_paused(p, b).paused == b,
        with_paused(p, b).repeat == p.repeat,
        with_paused(p, b).speed_bits == p.speed_bits,
        with_paused(p, b).elapsed_bits == p.elapsed_bits,
        with_paused(p, b).current_index == p.current_index,
        with_paused(p, b).sequence_name == p.sequence_name,
{
}

/// A frame inside the sequence shows the sequence's element at that frame; a
/// frame past the end shows the first element.
pub proof fn lemma_frame_sprite(sequence: Seq<u32>, f: int)
    requires
        sequence.len() > 0,
        0 <= f,
    ensures
        f < sequence.len() ==> frame_sprite(sequence, f) == sequence[f],
        f >= sequence.len() ==> frame_sprite(sequence, f) == sequence[0],
        sequence.contains(frame_sprite(sequence, f)),
{
    if f < sequence.len() {
        assert(sequence[f] == frame_sprite(sequence, f));
    } else {
        assert(sequence[0] == frame_sprite(sequence, f));
    }
}

} // verus!
