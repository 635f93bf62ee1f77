//! A macro command over commands of one type, chosen at compile time.

use std::collections::VecDeque;
use vstd::prelude::*;
use vstd::string::*;

verus! {

/// Something that can be executed and writes some text when it is.
pub trait Command {
    /// What executing the command writes.
    spec fn output(&self) -> Seq<char>;

    fn execute(&self) -> (out: String)
        ensures
            out@ == self.output(),
    ;
}

/// What the commands write when they are executed one after the other.
pub open spec fn outputs<C: Command>(commands: Seq<C>) -> Seq<char>
    decreases commands.len(),
{
    if commands.len() == 0 {
        Seq::empty()
    } else {
        outputs(commands.drop_last()) + commands.last().output()
    }
}

/// A list of commands that is itself a command.
#[derive(Debug)]
pub struct MacroCommand<C: Command> {
    commands: VecDeque<C>,
}

impl<C: Command> Command for MacroCommand<C> {
    open spec fn output(&self) -> Seq<char> {
        outputs(self.commands())
    }

    fn execute(&self) -> (out: String) {
        let mut out = String::new();
        let n = self.commands.len();
        let mut i: usize = 0;
        assert(self.commands@.take(0) =~= Seq::<C>::empty());
        while i < n
            invariant
                i <= n,
                n == self.commands@.len(),
                out@ == outputs(self.commands@.take(i as int)),
            decreases n - i,
        {
            let s = self.commands[i].execute();
            out.append(s.as_str());
            assert(self.commands@.take(i as int + 1).drop_last() =~= self.commands@.take(i as int));
            i = i + 1;
        }
        assert(self.commands@.take(n as int) =~= self.commands@);
        out
    }
}

impl<C: Command> MacroCommand<C> {
    /// The commands, in the order in which they are executed.
    pub closed spec fn commands(&self) -> Seq<C> {
        self.commands@
    }

    pub fn new() -> (command: Self)
        ensures
            command.commands() == Seq::<C>::empty(),
    {
        Self { commands: VecDeque::new() }
    }

    /// Adds a command behind the others.
    pub fn append(&mut self, cmd: C)
        ensures
            final(self).commands() == old(self).commands().push(cmd),
    {
        self.commands.push_back(cmd);
    }

    /// Takes back the command at the front, if there is one.
    pub fn undo(&mut self)
        ensures
            final(self).commands() == if old(self).commands().len() == 0 {
                old(self).commands()
            } else {
                old(self).commands().drop_first()
            },
    {
        if self.commands.len() > 0 {
            self.commands.pop_front();
        }
    }

    pub fn clear(&mut self)
        ensures
            final(self).commands() == Seq::<C>::empty(),
    {
        self.commands.clear();
    }
}

/// Writes its message as a line.
#[derive(Debug)]
pub struct EchoCommand {
    msg: String,
}

impl EchoCommand {
    pub closed spec fn msg(&self) -> Seq<char> {
        self.msg@
    }

    pub fn new(msg: &str) -> (command: Self)
        ensures
            command.msg() == msg@,
    {
        Self { msg: msg.to_owned() }
    }

    pub fn run(&self) -> (out: String)
        ensures
            out@ == self.msg() + "\n"@,
    {
        let mut out = self.msg.clone();
        out.append("\n");
        out
    }
}

impl Command for EchoCommand {
    open spec fn output(&self) -> Seq<char> {
        self.msg() + "\n"@
    }

    fn execute(&self) -> (out: String) {
        self.run()
    }
}

/// Writes its message twice on one line.
#[derive(Debug)]
pub struct DoubleEchoCommand {
    msg: String,
}

impl DoubleEchoCommand {
    pub closed spec fn msg(&self) -> Seq<char> {
        self.msg@
    }

    pub fn new(msg: &str) -> (command: Self)
        ensures
            command.msg() == msg@,
    {
        Self { msg: msg.to_owned() }
    }
}

impl Command for DoubleEchoCommand {
    open spec fn output(&self) -> Seq<char> {
        self.msg() + self.msg() + "\n"@
    }

    fn execute(&self) -> (out: String) {
        let mut out = self.msg.clone();
        out.append(self.msg.as_str());
        out.append("\n");
        out
    }
}

} // verus!
