//! The state of the numeric keypad widget.

use vstd::prelude::*;

verus! {

#[derive(Clone, Debug, Default)]
pub struct NumPad {}

#[derive(Clone, Copy, Debug, PartialEq, Eq, Structural)]
pub enum Message {
    Zero,
    One,
    Two,
    Three,
    Four,
    Five,
    Six,
    Seven,
    Eight,
    Nine,
    Exit,
}

impl NumPad {
    /// Takes a message of the keypad; says whether the application quits,
    /// which it does on `Exit` only (digits change nothing yet).
    pub fn update(&mut self, msg: Message) -> (quit: bool)
        ensures
            quit == (msg == Message::Exit),
    {
        match msg {
            Message::Exit => true,
            _ => false,
        }
    }
}

} // verus!
