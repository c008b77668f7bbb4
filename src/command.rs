use vstd::prelude::*;

verus! {

/// The kinds of command, by their keyword.
#[derive(PartialEq, Eq, Debug, Clone, Copy, Structural)]
pub enum Command {
    Step,
    Identify,
    Move,
    Quit,
}

impl Command {
    /// The command kind a keyword names, if any.
    pub fn value_of(val: &str) -> (r: Option<Self>)
        ensures
            val@ == "st3p"@ ==> r == Some(Command::Step),
            val@ == "identify"@ ==> r == Some(Command::Identify),
            val@ == "move"@ ==> r == Some(Command::Move),
            val@ == "quit"@ ==> r == Some(Command::Quit),
            val@ != "st3p"@ && val@ != "identify"@ && val@ != "move"@ && val@ != "quit"@ ==> r
                is None,
    {
        proof {
            reveal_strlit("st3p");
            reveal_strlit("identify");
            reveal_strlit("move");
            reveal_strlit("quit");
            assert("identify"@.len() != "st3p"@.len());
            assert("move"@[0] != "st3p"@[0]);
            assert("move"@.len() != "identify"@.len());
            assert("quit"@[0] != "st3p"@[0]);
            assert("quit"@[0] != "move"@[0]);
            assert("quit"@.len() != "identify"@.len());
        }
        let v = String::from_str(val);
        if v == String::from_str("st3p") {
            Some(Command::Step)
        } else if v == String::from_str("identify") {
            Some(Command::Identify)
        } else if v == String::from_str("move") {
            Some(Command::Move)
        } else if v == String::from_str("quit") {
            Some(Command::Quit)
        } else {
            None
        }
    }
}

} // verus!
