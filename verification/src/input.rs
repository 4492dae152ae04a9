//! A plain model of the keyboard events the games react to. The event source
//! (a terminal backend) translates whatever it reads into these values; the
//! decision logic here is what gets verified.

use vstd::prelude::*;

verus! {

/// What happened to a key. Some backends report releases and repeats besides
/// presses, and the movement logic must react to presses only.
#[derive(Clone, Copy, PartialEq, Eq, Structural, Debug)]
pub enum KeyKind {
    Press,
    Release,
    Repeat,
}

/// A character key together with what happened to it. Non-character keys
/// never drive the games, so the event source maps them to `InputEvent::Other`.
#[derive(Clone, Copy, PartialEq, Eq, Structural, Debug)]
pub struct KeyInput {
    pub code: char,
    pub kind: KeyKind,
}

/// One event read from the input source: a character key, or anything else
/// (a resize, a mouse event, a non-character key), which the games ignore.
#[derive(Clone, Copy, PartialEq, Eq, Structural, Debug)]
pub enum InputEvent {
    Key(KeyInput),
    Other,
}

/// The quit rule: any event on the `q` key ends the game, whatever kind of
/// key event it was.
pub open spec fn is_quit(ev: InputEvent) -> bool {
    ev matches InputEvent::Key(k) && k.code == 'q'
}

/// Whether an event is a press of a character key, the only events that move
/// anything.
pub open spec fn is_key_press(ev: InputEvent) -> bool {
    ev matches InputEvent::Key(k) && k.kind == KeyKind::Press
}

/// Decides whether an event ends the game loop.
pub fn should_quit(ev: &InputEvent) -> (r: bool)
    ensures
        r == is_quit(*ev),
{
    match ev {
        InputEvent::Key(k) => k.code == 'q',
        InputEvent::Other => false,
    }
}

} // verus!
