//! What an instruction asks of the world outside the processor.

use vstd::prelude::*;

verus! {

/// A request to the host's display, sound or timing hardware. Executing an
/// instruction yields exactly one; most instructions yield `Nothing`. The
/// processor does not wait for the host to act on it.
#[derive(Clone, Copy, Debug, PartialEq, Eq, Structural)]
pub enum Effect {
    /// The instruction concerns the processor alone.
    Nothing,
    /// Clear the screen.
    ClearScreen,
    /// The program has reached a point where it waits for the vertical
    /// blank. The processor has already moved on to the next instruction;
    /// the host decides when to step again.
    WaitVblank,
    /// The background colour is now `color_index`.
    SetBackground { color_index: u8 },
    /// Palette entry `slot` is now the colour `rgb`: red in bits 16 to 23,
    /// green in bits 8 to 15, blue in bits 0 to 7.
    SetPalette { slot: u8, rgb: u32 },
    /// Draw the sprite whose pixels start at `address` in memory, with its
    /// top left corner at (`x`, `y`). The size, the flip mode and the
    /// colour from which the sprite's colours are counted are the
    /// processor's sprite size, flip mode and background colour.
    DrawSprite {
        address: u16,
        x: u16,
        y: u16,
        width: u8,
        height: u8,
        color_start_index: u8,
        hflip: bool,
        vflip: bool,
    },
    /// Play a tone of `frequency` hertz for `duration` milliseconds on
    /// `channel`, shaped by the envelope `attack`, `decay`, `sustain`,
    /// `release`. A frequency and duration of zero ask for silence.
    PlayTone {
        channel: u8,
        frequency: u16,
        duration: u16,
        attack: u8,
        decay: u8,
        sustain: u8,
        release: u8,
    },
}

} // verus!
