use vstd::prelude::*;

verus! {

/// Width of the screen, in tiles.
pub const SCREEN_WIDTH: i32 = 80;

/// Height of the screen, in tiles.
pub const SCREEN_HEIGHT: i32 = 50;

/// Width of the displayed part of the screen, in tiles.
pub const DISPLAY_WIDTH: i32 = 40;

/// Height of the displayed part of the screen, in tiles.
pub const DISPLAY_HEIGHT: i32 = 25;

/// Number of tiles on the screen.
pub const NUM_TILES: usize = 4000;

/// The stages that the moving systems run in: moving, then digging.
#[derive(PartialEq, Eq, Structural, Copy, Clone, Debug, Hash)]
pub enum MovementStage {
    Moving,
    Digging,
}

/// The buffer after a line of input: each slot holds the byte of the line at
/// its position, and 0 past the end of the line.
pub open spec fn filled_buffer(len: nat, text: Seq<u8>) -> Seq<u16> {
    Seq::new(len, |i: int| if i < text.len() { text[i] as u16 } else { 0u16 })
}

/// Copies a line of input into a buffer of `u16`: the bytes of the line go to
/// the front, as far as they fit, and the rest of the buffer is cleared.
pub fn fill_input_buffer(buffer: &mut [u16], text: &[u8])
    ensures
        final(buffer)@ == filled_buffer(old(buffer)@.len(), text@),
{
    let n = buffer.len();
    let text_size = if text.len() < n {
        text.len()
    } else {
        n
    };
    let mut i: usize = 0;
    while i < text_size
        invariant
            n == buffer@.len(),
            n == old(buffer)@.len(),
            text_size <= n,
            text_size <= text@.len(),
            0 <= i <= text_size,
            forall|k: int| 0 <= k < i ==> #[trigger] buffer@[k] == text@[k] as u16,
        decreases text_size - i,
    {
        buffer[i] = text[i] as u16;
        i = i + 1;
    }
    let mut j: usize = text.len();
    while j < n
        invariant
            n == buffer@.len(),
            n == old(buffer)@.len(),
            text_size <= n,
            text_size == (if text@.len() < n { text@.len() as int } else { n as int }),
            text@.len() <= j || j == text@.len(),
            forall|k: int| 0 <= k < text_size ==> #[trigger] buffer@[k] == text@[k] as u16,
            forall|k: int| text@.len() <= k < j && k < n ==> #[trigger] buffer@[k] == 0u16,
        decreases n - j,
    {
        buffer[j] = 0;
        j = j + 1;
    }
    assert(buffer@ =~= filled_buffer(old(buffer)@.len(), text@));
}

/// After a line is copied in, the buffer keeps its length, holds the line's
/// bytes up to the end of the line and zeros after it.
pub proof fn lemma_filled_buffer(len: nat, text: Seq<u8>, i: int)
    requires
        0 <= i < len,
    ensures
        filled_buffer(len, text).len() == len,
        i < text.len() ==> filled_buffer(len, text)[i] == text[i] as u16,
        i >= text.len() ==> filled_buffer(len, text)[i] == 0,
{
}

} // verus!
