//! Commands as a recursive enum.

use std::collections::VecDeque;
use vstd::prelude::*;
use vstd::std_specs::vecdeque::VecDequeAdditionalSpecFns;
use vstd::string::*;

verus! {

pub enum Command {
    Echo(String),
    Double(String),
    Macro(MacroCommand),
}

/// A list of commands, executed one after the other.
pub struct MacroCommand {
    commands: VecDeque<Command>,
}

/// What the first `count` of the commands write when they are executed one
/// after the other.
pub open spec fn outputs(commands: VecDeque<Command>, count: nat) -> Seq<char>
    decreases commands, count,
{
    if count == 0 || count > commands@.len() {
        Seq::empty()
    } else {
        outputs(commands, (count - 1) as nat) + commands[count - 1].output()
    }
}

impl MacroCommand {
    /// The commands, in the order in which they are executed.
    pub closed spec fn commands(&self) -> VecDeque<Command> {
        self.commands
    }

    /// What executing the commands writes.
    pub open spec fn output(&self) -> Seq<char> {
        outputs(self.commands(), self.commands()@.len())
    }

    /// Adds a command behind the others.
    pub fn append(&mut self, cmd: Command)
        ensures
            final(self).commands()@ == old(self).commands()@.push(cmd),
    {
        self.commands.push_back(cmd);
    }

    /// Takes back the command at the front, if there is one.
    pub fn undo(&mut self)
        ensures
            final(self).commands()@ == if old(self).commands()@.len() == 0 {
                old(self).commands()@
            } else {
                old(self).commands()@.drop_first()
            },
    {
        if self.commands.len() > 0 {
            self.commands.pop_front();
        }
    }

    pub fn clear(&mut self)
        ensures
            final(self).commands()@ == Seq::<Command>::empty(),
    {
        self.commands.clear();
    }
}

impl Command {
    /// What executing the command writes: an echo writes its text as a
    /// line, a double echo writes it twice on one line, a macro writes
    /// what its commands write.
    pub open spec fn output(&self) -> Seq<char>
        decreases self, 0nat,
    {
        match self {
            Command::Echo(s) => s@ + "\n"@,
            Command::Double(s) => s@ + s@ + "\n"@,
            Command::Macro(m) => outputs(m.commands(), m.commands()@.len()),
        }
    }

    pub fn of_echo(s: &str) -> (command: Self)
        ensures
            command matches Command::Echo(text) && text@ == s@,
    {
        Command::Echo(s.to_owned())
    }

    pub fn of_macro(commands: VecDeque<Command>) -> (command: Self)
        ensures
            command matches Command::Macro(m) && m.commands() == commands,
    {
        Command::Macro(MacroCommand { commands })
    }

    pub fn of_macro_with_empty_commands() -> (command: Self)
        ensures
            command matches Command::Macro(m) && m.commands()@ == Seq::<Command>::empty(),
    {
        Command::Macro(MacroCommand { commands: VecDeque::new() })
    }

    pub fn as_macro(&self) -> (found: Option<&MacroCommand>)
        ensures
            match self {
                Command::Macro(m) => found == Some(m),
                _ => found is None,
            },
    {
        match self {
            Command::Macro(m) => Some(m),
            _ => None,
        }
    }

    pub fn as_macro_mut(&mut self) -> (found: Option<&mut MacroCommand>)
        ensures
            match *old(self) {
                Command::Macro(before) => found matches Some(m) && *m == before && *final(self)
                    == Command::Macro(*final(m)),
                _ => found is None && *final(self) == *old(self),
            },
    {
        match self {
            Command::Macro(m) => Some(m),
            _ => None,
        }
    }

    pub fn execute(&self) -> (out: String)
        ensures
            out@ == self.output(),
        decreases self,
    {
        match self {
            Command::Echo(s) => {
                let mut out = s.clone();
                out.append("\n");
                out
            },
            Command::Double(s) => {
                let mut out = s.clone();
                out.append(s.as_str());
                out.append("\n");
                out
            },
            Command::Macro(m) => {
                let mut out = String::new();
                let n = m.commands.len();
                let mut i: usize = 0;
                while i < n
                    invariant
                        i <= n,
                        n == m.commands.len(),
                        *self == Command::Macro(*m),
                        out@ == outputs(m.commands, i as nat),
                    decreases n - i,
                {
                    proof {
                        broadcast use vstd::std_specs::vecdeque::axiom_vec_dequeue_index_decreases;

                        assert(decreases_to!(m.commands => m.commands[i as int]));
                        assert(self->Macro_0 == *m);
                        assert(decreases_to!(*self => self->Macro_0));
                        assert(decreases_to!(self->Macro_0 => self->Macro_0.commands));
                    }
                    let s = m.commands[i].execute();
                    out.append(s.as_str());
                    i = i + 1;
                }
                out
            },
        }
    }
}

} // verus!
