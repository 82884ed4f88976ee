//! The command vocabulary of the protocol: the closed set of commands a
//! frame can encode, and the selector for the built-in pattern generators.

use vstd::prelude::*;

verus! {

/// Selects one of the built-in pattern generators. The generators themselves
/// (pure functions from a kind to a grid image) are external collaborators;
/// this core only records which one is to run.
#[derive(Clone, Copy, PartialEq, Eq, Debug)]
pub enum PatternVals {
    /// Single gradient pattern.
    Gradient,
    /// Double gradient pattern.
    DoubleGradient,
    /// First lotus pattern.
    DisplayLotus,
    /// Zig-zag pattern.
    ZigZag,
    /// Drive every pixel to maximum, bypassing the grid image.
    FullBrightness,
    /// Panic glyph.
    DisplayPanic,
    /// Second lotus pattern.
    DisplayLotus2,
}

/// One decoded command, immutable once constructed and consumed exactly once
/// by the dispatcher. A `Draw` payload always carries exactly 39 bytes, the
/// pixel count expected by the display surface; the decoder rejects any
/// frame that cannot supply them.
#[derive(Clone, Copy, PartialEq, Eq, Debug)]
pub enum Command {
    /// Store a brightness level and scale the display to it.
    Brightness(u8),
    /// Render the selected built-in pattern.
    Pattern(PatternVals),
    /// Reenter the platform bootloader; terminal.
    BootloaderReset,
    /// Render the percentage-bar image for a value.
    Percentage(u8),
    /// Sleep request; accepted but currently a deliberate no-op.
    Sleep(bool),
    /// Store the animate flag read by the animation loop.
    Animate(bool),
    /// Abort with a diagnostic; terminal.
    Panic,
    /// Replace the grid image with one decoded from a raw 39-byte payload.
    Draw([u8; 39]),
}

/// Mathematical model of a [`Command`]: identical except that the draw
/// payload is a byte sequence, so contracts can relate it to a slice of the
/// incoming frame.
pub enum CommandModel {
    /// Model of [`Command::Brightness`].
    Brightness(u8),
    /// Model of [`Command::Pattern`].
    Pattern(PatternVals),
    /// Model of [`Command::BootloaderReset`].
    BootloaderReset,
    /// Model of [`Command::Percentage`].
    Percentage(u8),
    /// Model of [`Command::Sleep`].
    Sleep(bool),
    /// Model of [`Command::Animate`].
    Animate(bool),
    /// Model of [`Command::Panic`].
    Panic,
    /// Model of [`Command::Draw`]; the sequence always has 39 elements.
    Draw(Seq<u8>),
}

impl View for Command {
    type V = CommandModel;

    open spec fn view(&self) -> CommandModel {
        match *self {
            Command::Brightness(b) => CommandModel::Brightness(b),
            Command::Pattern(k) => CommandModel::Pattern(k),
            Command::BootloaderReset => CommandModel::BootloaderReset,
            Command::Percentage(p) => CommandModel::Percentage(p),
            Command::Sleep(f) => CommandModel::Sleep(f),
            Command::Animate(f) => CommandModel::Animate(f),
            Command::Panic => CommandModel::Panic,
            Command::Draw(p) => CommandModel::Draw(p@),
        }
    }
}

} // verus!
