//! Keys as the browser reads them, and the platform it runs on.

use vstd::prelude::*;

verus! {

/// A key the browser reacts to; every other key is `Other`.
#[derive(Clone, Copy, PartialEq, Eq, Structural, Debug)]
pub enum Key {
    Char(char),
    Esc,
    Tab,
    Up,
    Down,
    Left,
    Right,
    Enter,
    Other,
}

/// A key event: the key, and whether it is a press (not a repeat or a
/// release).
#[derive(Clone, Copy, PartialEq, Eq, Structural, Debug)]
pub struct KeyInput {
    pub code: Key,
    pub press: bool,
}

/// The operating system the terminal runs on, which decides which key events
/// count.
#[derive(Clone, Copy, PartialEq, Eq, Structural, Debug)]
pub enum Platform {
    Windows,
    Linux,
    Other,
}

/// Whether a key event reaches the panels: on Windows only presses do (its
/// terminals also report releases), on Linux every event does, and elsewhere
/// none is handled.
pub open spec fn dispatches(input: KeyInput, platform: Platform) -> bool {
    match platform {
        Platform::Windows => input.press,
        Platform::Linux => true,
        Platform::Other => false,
    }
}

/// The keys that end the program from any panel: Esc and `q`.
pub open spec fn is_quit_key(key: Key) -> bool {
    key == Key::Esc || key == Key::Char('q')
}

/// The keys that scroll the readme down: `j` and Down.
pub open spec fn is_scroll_down_key(key: Key) -> bool {
    key == Key::Char('j') || key == Key::Down
}

} // verus!
