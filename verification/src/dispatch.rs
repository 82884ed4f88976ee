//! The command dispatcher: applies one decoded [`Command`] to the mutable
//! device state and decides which collaborator action the runtime must
//! perform next.
//!
//! The display surface, the pattern generators and the platform's
//! bootloader-reentry primitive are external collaborators. The dispatcher
//! therefore records *which* image the grid must show and reports the
//! required display or platform call as an [`Effect`] value; the runtime
//! loop around this core performs it. The two terminal commands come back
//! as explicit abort signals rather than being performed here, so a caller
//! can choose its platform's way of halting.

use vstd::prelude::*;

use crate::command::{Command, PatternVals};
use crate::decode::{lemma_encode_decode, spec_decode, spec_encode};

verus! {

/// The grid image held in the device state, identified by its source:
/// which external generator produces it, from which parameters. Computing
/// the actual pixel contents is the generators' business, outside this
/// core; the dispatcher only records the choice.
#[derive(Clone, Copy, PartialEq, Eq, Debug)]
pub enum GridImage {
    /// The percentage-bar image for a value.
    Percentage(u8),
    /// The image computed by the selected built-in pattern generator.
    Pattern(PatternVals),
    /// The image decoded from a raw 39-byte payload.
    Raw([u8; 39]),
}

/// Mutable device state, owned by the runtime loop outside this core and
/// handed in by reference: the dispatcher mutates it but never constructs
/// or destroys it.
#[derive(Clone, Copy, PartialEq, Eq, Debug)]
pub struct State {
    /// Brightness level, 0 to 255.
    pub brightness: u8,
    /// The grid image the display should render.
    pub grid: GridImage,
    /// Whether the animation loop (an external collaborator that reads
    /// this flag on its own) advances the image.
    pub animate: bool,
}

/// The collaborator action a dispatched command asks of the runtime.
/// `BootloaderReset` and `Panic` are terminal: performing them ends the
/// current execution rather than returning.
#[derive(Clone, Copy, PartialEq, Eq, Debug)]
pub enum Effect {
    /// No collaborator call; the state mutation, if any, is the whole effect.
    NoAction,
    /// Set the display surface's brightness scaling to the level; a failure
    /// of that call is fatal, not retryable.
    SetScaling(u8),
    /// Drive every pixel to maximum directly, bypassing the grid image.
    FullBrightness,
    /// Reenter the platform bootloader; the call never returns.
    BootloaderReset,
    /// Abort with a diagnostic; deliberate, not a recoverable error.
    Panic,
}

/// The state transition and collaborator action of one command: the
/// mathematical definition of dispatch. Every command has a defined
/// effect; none is rejected at this stage.
pub open spec fn spec_apply(c: Command, s: State) -> (State, Effect) {
    match c {
        Command::Brightness(b) => (State { brightness: b, ..s }, Effect::SetScaling(b)),
        Command::Pattern(k) => match k {
            PatternVals::FullBrightness => (s, Effect::FullBrightness),
            _ => (State { grid: GridImage::Pattern(k), ..s }, Effect::NoAction),
        },
        Command::BootloaderReset => (s, Effect::BootloaderReset),
        Command::Percentage(p) => (State { grid: GridImage::Percentage(p), ..s }, Effect::NoAction),
        Command::Sleep(_) => (s, Effect::NoAction),
        Command::Animate(a) => (State { animate: a, ..s }, Effect::NoAction),
        Command::Panic => (s, Effect::Panic),
        Command::Draw(p) => (State { grid: GridImage::Raw(p), ..s }, Effect::NoAction),
    }
}

/// Apply one decoded command to the device state.
///
/// Mutates exactly the field the command documents and returns the
/// collaborator action the runtime must now perform, [`spec_apply`] giving
/// both. The sleep command is accepted and deliberately changes nothing: a
/// documented placeholder, not an omission.
pub fn handle_command(command: &Command, state: &mut State) -> (effect: Effect)
    ensures
        *final(state) == spec_apply(*command, *old(state)).0,
        effect == spec_apply(*command, *old(state)).1,
{
    match command {
        Command::Brightness(br) => {
            state.brightness = *br;
            Effect::SetScaling(*br)
        },
        Command::Pattern(pattern) => match pattern {
            PatternVals::FullBrightness => Effect::FullBrightness,
            _ => {
                state.grid = GridImage::Pattern(*pattern);
                Effect::NoAction
            },
        },
        Command::BootloaderReset => Effect::BootloaderReset,
        Command::Percentage(p) => {
            state.grid = GridImage::Percentage(*p);
            Effect::NoAction
        },
        Command::Sleep(_go_sleeping) => Effect::NoAction,
        Command::Animate(a) => {
            state.animate = *a;
            Effect::NoAction
        },
        Command::Panic => Effect::Panic,
        Command::Draw(vals) => {
            state.grid = GridImage::Raw(*vals);
            Effect::NoAction
        },
    }
}

/// Round trip through the whole front end: the frame built for any command
/// decodes back to exactly that command, and dispatching it from any state
/// performs exactly the documented mutation — no device-state field beyond
/// the one the command documents changes, and only the brightness,
/// percentage, pattern and draw commands touch any field at all.
pub proof fn lemma_round_trip(c: Command, s: State)
    ensures
        spec_decode(spec_encode(c@).len() as int, spec_encode(c@)) == Some(c@),
        ({
            let s2 = spec_apply(c, s).0;
            &&& s2.brightness != s.brightness ==> c is Brightness
            &&& s2.animate != s.animate ==> (c is Animate)
            &&& s2.grid != s.grid ==> (c is Percentage || c is Pattern || c is Draw)
            &&& c matches Command::Brightness(b) ==> s2 == State { brightness: b, ..s }
            &&& c matches Command::Percentage(p) ==> s2 == State {
                grid: GridImage::Percentage(p),
                ..s
            }
            &&& c matches Command::Animate(a) ==> s2 == State { animate: a, ..s }
            &&& c matches Command::Draw(p) ==> s2 == State { grid: GridImage::Raw(p), ..s }
            &&& (c is BootloaderReset || c is Sleep || c is Panic) ==> s2 == s
            &&& c matches Command::Pattern(k) ==> s2 == (if k is FullBrightness {
                s
            } else {
                State { grid: GridImage::Pattern(k), ..s }
            })
        }),
{
    lemma_encode_decode(c);
}

} // verus!
