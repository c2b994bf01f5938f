//! Mapping terminal input to stopwatch commands.
//!
//! The event loop receives terminal events; the stopwatch reads only the key
//! code and the key-event kind out of them, so those are modelled here as
//! plain enums. Only key-press events act: `q` or `Escape` quit, `Space`
//! toggles, `r` resets, and everything else is inert.

use vstd::prelude::*;

verus! {

/// The part of a key code the stopwatch distinguishes: a printable
/// character, the escape key, or anything else.
#[derive(Clone, Copy, Debug, PartialEq, Eq, Structural)]
pub enum KeyCode {
    Char(char),
    Esc,
    Other,
}

/// Whether a key event reports the key going down, being auto-repeated, or
/// going up. Only presses are acted on.
#[derive(Clone, Copy, Debug, PartialEq, Eq, Structural)]
pub enum KeyKind {
    Press,
    Repeat,
    Release,
}

/// A terminal event as the stopwatch sees it: a key event with its code and
/// kind, or any other event (resize, focus, paste, ...), which is inert.
#[derive(Clone, Copy, Debug, PartialEq, Eq, Structural)]
pub enum InputEvent {
    Key { code: KeyCode, kind: KeyKind },
    Other,
}

/// What an event asks the stopwatch to do.
#[derive(Clone, Copy, Debug, PartialEq, Eq, Structural)]
pub enum Command {
    Quit,
    Toggle,
    Reset,
    Ignore,
}

/// The command an event maps to: `q` or `Escape` pressed quits, `Space`
/// pressed toggles, `r` pressed resets; key repeats, key releases and every
/// other event are ignored.
pub open spec fn spec_command_of(event: InputEvent) -> Command {
    match event {
        InputEvent::Key { code, kind: KeyKind::Press } => match code {
            KeyCode::Char('q') | KeyCode::Esc => Command::Quit,
            KeyCode::Char(' ') => Command::Toggle,
            KeyCode::Char('r') => Command::Reset,
            _ => Command::Ignore,
        },
        _ => Command::Ignore,
    }
}

/// Map an event to its command.
pub fn command_of(event: &InputEvent) -> (c: Command)
    ensures
        c == spec_command_of(*event),
{
    match *event {
        InputEvent::Key { code, kind: KeyKind::Press } => match code {
            KeyCode::Char(ch) => {
                if ch == 'q' {
                    Command::Quit
                } else if ch == ' ' {
                    Command::Toggle
                } else if ch == 'r' {
                    Command::Reset
                } else {
                    Command::Ignore
                }
            },
            KeyCode::Esc => Command::Quit,
            KeyCode::Other => Command::Ignore,
        },
        _ => Command::Ignore,
    }
}

/// An event that is not a key press is always ignored: in particular a key
/// release or repeat of `Space` does not toggle the run state.
pub proof fn lemma_non_press_ignored(event: InputEvent)
    requires
        !(event matches InputEvent::Key { code: _, kind: KeyKind::Press }),
    ensures
        spec_command_of(event) == Command::Ignore,
{
}

} // verus!
