//! Commands behind a trait object; the macro command takes back the last command.

use std::collections::VecDeque;
use vstd::prelude::*;
use vstd::string::*;

verus! {

/// Something that can be executed and writes some text when it is.
pub trait Command {
    /// What executing the command writes.
    spec fn output(&self) -> Seq<char>;

    fn execute(&self) -> (out: String)
        ensures
            out@ == self.output(),
    ;
}

/// What the commands write when they are executed one after the other.
pub open spec fn outputs(commands: Seq<Box<dyn Command>>) -> Seq<char>
    decreases commands.len(),
{
    if commands.len() == 0 {
        Seq::empty()
    } else {
        outputs(commands.drop_last()) + commands.last().output()
    }
}

/// Puts `item` behind the others. The item comes first among the
/// arguments, so that its type is taken as it stands.
fn put_back<T>(item: T, items: &mut VecDeque<T>)
    ensures
        final(items)@.len() == old(items)@.len() + 1,
        final(items)@[old(items)@.len() as int] == item,
        forall|k: int| 0 <= k < old(items)@.len() ==> #[trigger] final(items)@[k] == old(items)@[k],
{
    items.push_back(item);
}

/// A list of commands that is itself a command.
pub struct MacroCommand {
    commands: VecDeque<Box<dyn Command>>,
}

impl Command for MacroCommand {
    open spec fn output(&self) -> Seq<char> {
        outputs(self.commands())
    }

    fn execute(&self) -> (out: String) {
        let mut out = String::new();
        let n = self.commands.len();
        let mut i: usize = 0;
        assert(self.commands@.take(0) =~= Seq::<Box<dyn Command>>::empty());
        while i < n
            invariant
                i <= n,
                n == self.commands@.len(),
                out@ == outputs(self.commands@.take(i as int)),
            decreases n - i,
        {
            let s = self.commands[i].execute();
            out.append(s.as_str());
            assert(self.commands@.take(i as int + 1).drop_last() =~= self.commands@.take(i as int));
            i = i + 1;
        }
        assert(self.commands@.take(n as int) =~= self.commands@);
        out
    }
}

impl MacroCommand {
    /// The commands, in the order in which they are executed.
    pub closed spec fn commands(&self) -> Seq<Box<dyn Command>> {
        self.commands@
    }

    pub fn new() -> (command: Self)
        ensures
            command.commands() == Seq::<Box<dyn Command>>::empty(),
    {
        Self { commands: VecDeque::new() }
    }

    /// Adds a command behind the others.
    pub fn append(&mut self, cmd: Box<dyn Command>)
        ensures
            final(self).commands().len() == old(self).commands().len() + 1,
            final(self).commands()[old(self).commands().len() as int] == cmd,
            forall|k: int|
                0 <= k < old(self).commands().len() ==> #[trigger] final(self).commands()[k]
                    == old(self).commands()[k],
    {
        put_back(cmd, &mut self.commands);
    }

    /// Takes back the command that was added last, if there is one.
    pub fn undo(&mut self)
        ensures
            final(self).commands() == if old(self).commands().len() == 0 {
                old(self).commands()
            } else {
                old(self).commands().drop_last()
            },
    {
        if self.commands.len() > 0 {
            self.commands.pop_back();
        }
    }

    pub fn clear(&mut self)
        ensures
            final(self).commands() == Seq::<Box<dyn Command>>::empty(),
    {
        self.commands.clear();
    }
}

/// Writes its message as a line.
pub struct EchoCommand {
    msg: String,
}

impl EchoCommand {
    pub closed spec fn msg(&self) -> Seq<char> {
        self.msg@
    }

    pub fn new(msg: &str) -> (command: Self)
        ensures
            command.msg() == msg@,
    {
        Self { msg: msg.to_owned() }
    }
}

impl Command for EchoCommand {
    open spec fn output(&self) -> Seq<char> {
        self.msg() + "\n"@
    }

    fn execute(&self) -> (out: String) {
        let mut out = self.msg.clone();
        out.append("\n");
        out
    }
}

} // verus!
