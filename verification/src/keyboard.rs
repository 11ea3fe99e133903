//! The keys pressed during one frame.

use vstd::prelude::*;

verus! {

/// A key of the keyboard.
#[derive(Debug, Clone, Copy, PartialEq, Eq, Structural)]
pub enum Key {
    /// A key that types a character.
    Char(char),
    Enter,
    Esc,
    Backspace,
    Tab,
    Up,
    Down,
    Left,
    Right,
}

/// The keys that the current frame works with, in the order they were
/// pressed.  The keyboard collects nothing by itself: once per frame the
/// loop hands it what came in since the frame before.
pub struct Keyboard {
    events: Vec<Key>,
}

impl View for Keyboard {
    type V = Seq<Key>;

    closed spec fn view(&self) -> Seq<Key> {
        self.events@
    }
}

impl Keyboard {
    /// A keyboard on which nothing was pressed.
    pub fn new() -> (keyboard: Keyboard)
        ensures
            keyboard@ == Seq::<Key>::empty(),
    {
        Keyboard { events: Vec::new() }
    }

    /// Replaces the keys of the last frame with `events`, the keys pressed
    /// since.
    pub fn consume_key_events(&mut self, events: Vec<Key>)
        ensures
            final(self)@ == events@,
    {
        self.events = events;
    }

    /// The keys of the current frame, oldest first.
    pub fn key_events(&self) -> (events: &Vec<Key>)
        ensures
            events@ == self@,
    {
        &self.events
    }
}

} // verus!
