//! Commands that the projector service sends to its display client.

use vstd::prelude::*;

verus! {

/// A request to the display client.
#[derive(Clone, Copy, Debug, PartialEq, Eq, Structural)]
pub enum Command {
    /// Ask for the size of the drawable area.
    GetDrawableSize,
}

impl Command {
    /// The number that stands for the command on the wire.
    pub open spec fn code(self) -> int {
        match self {
            Command::GetDrawableSize => 0,
        }
    }

    /// The text that is sent for the command: its number in decimal.
    pub open spec fn text(self) -> Seq<char> {
        match self {
            Command::GetDrawableSize => seq!['0'],
        }
    }

    /// The number that stands for the command on the wire.
    pub fn to_i32(&self) -> (code: i32)
        ensures
            code == self.code(),
    {
        match self {
            Command::GetDrawableSize => 0,
        }
    }

    /// The text message that carries the command.
    pub fn to_text(&self) -> (text: String)
        ensures
            text@ == self.text(),
    {
        match self {
            Command::GetDrawableSize => {
                proof {
                    reveal_strlit("0");
                }
                let text = "0".to_owned();
                assert(text@ =~= seq!['0']);
                text
            },
        }
    }
}

} // verus!
