//! The command dispatcher: it reads the text typed in command mode as one
//! command.

use vstd::prelude::*;

verus! {

/// What a command line asks for.
#[derive(Clone, Copy, Debug, PartialEq, Eq, Structural)]
pub enum Command {
    /// `q`: leave the editor.
    Quit,
    /// Any other text. It is passed over in silence.
    Unknown,
}

/// The command that `text` spells. The text has to match a command exactly.
pub open spec fn command_of(text: Seq<char>) -> Command {
    if text == seq!['q'] {
        Command::Quit
    } else {
        Command::Unknown
    }
}

/// Reads the typed text as a command.
pub fn parse_command(text: &Vec<char>) -> (command: Command)
    ensures
        command == command_of(text@),
{
    let ghost quit = seq!['q'];
    assert(quit.len() == 1 && quit[0] == 'q');
    if text.len() == 1 && text[0] == 'q' {
        assert(text@ =~= quit);
        Command::Quit
    } else {
        Command::Unknown
    }
}

} // verus!
