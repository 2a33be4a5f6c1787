//! The commands a user can issue from the tray menu.

use vstd::prelude::*;
use vstd::utf8::encode_utf8_decode_utf8;

verus! {

/// A control action issued from the tray menu.
///
/// The menu knows each command by its identifier, [`Command::id`]; an
/// identifier serves to tell the commands apart and is not kept.
#[derive(Clone, Copy, Debug, PartialEq, Eq, Structural)]
pub enum Command {
    /// Start a fresh process and terminate the previous one.
    Restart,
    /// Terminate the process and end the session.
    Quit,
}

impl Command {
    /// The identifier under which the menu knows this command.
    pub open spec fn spec_id(self) -> Seq<char> {
        match self {
            Command::Restart => "Restart"@,
            Command::Quit => "Quit"@,
        }
    }

    /// The command that an identifier stands for, if it stands for one.
    pub open spec fn spec_from_id(id: Seq<char>) -> Option<Command> {
        if id == "Restart"@ {
            Some(Command::Restart)
        } else if id == "Quit"@ {
            Some(Command::Quit)
        } else {
            None
        }
    }

    /// The commands of the tray menu, from top to bottom.
    pub fn menu() -> (commands: Vec<Command>)
        ensures
            commands@ == seq![Command::Restart, Command::Quit],
    {
        let mut commands = Vec::new();
        commands.push(Command::Restart);
        commands.push(Command::Quit);
        assert(commands@ =~= seq![Command::Restart, Command::Quit]);
        commands
    }

    /// The identifier to give this command's menu item. It serves as the
    /// item's text as well.
    pub fn id(&self) -> (id: &'static str)
        ensures
            id@ == self.spec_id(),
    {
        match self {
            Command::Restart => "Restart",
            Command::Quit => "Quit",
        }
    }

    /// Tells which command a menu identifier stands for. An identifier of no
    /// command gives `None`.
    pub fn from_id(id: &str) -> (command: Option<Command>)
        ensures
            command == Command::spec_from_id(id@),
    {
        if same_text(id, "Restart") {
            Some(Command::Restart)
        } else if same_text(id, "Quit") {
            Some(Command::Quit)
        } else {
            None
        }
    }
}

/// Whether two texts hold the same characters.
fn same_text(left: &str, right: &str) -> (same: bool)
    ensures
        same == (left@ == right@),
{
    let left_bytes = left.as_bytes();
    let right_bytes = right.as_bytes();
    proof {
        // Texts are told apart by their encodings: decoding gives each back.
        encode_utf8_decode_utf8(left@);
        encode_utf8_decode_utf8(right@);
    }
    if left_bytes.len() != right_bytes.len() {
        return false;
    }
    let mut i: usize = 0;
    while i < left_bytes.len()
        invariant
            left@ == right@ ==> left_bytes@ == right_bytes@,
            left_bytes@.len() == right_bytes@.len(),
            i <= left_bytes@.len(),
            forall|k: int| 0 <= k < i ==> left_bytes@[k] == right_bytes@[k],
        decreases left_bytes@.len() - i,
    {
        if left_bytes[i] != right_bytes[i] {
            return false;
        }
        i += 1;
    }
    assert(left_bytes@ =~= right_bytes@);
    true
}

} // verus!
