//! A printer that takes long to make, and a proxy that puts the making
//! off until something is printed.

use crate::text::{repeat, repeat_str};
use vstd::prelude::*;
use vstd::string::*;

pub mod enum_base;

verus! {

/// How many dots the making of a printer writes, a line each.
pub const DOTS: u32 = 5;

/// What a heavy job writes: its message, five lines with a dot, and a
/// line that says that it is done.
pub open spec fn heavy_job_text(msg: Seq<char>) -> Seq<char> {
    msg + repeat(".\n"@, DOTS as nat) + "完了。\n"@
}

/// What the making of a printer with the given name writes.
pub open spec fn creation_text(name: Seq<char>) -> Seq<char> {
    heavy_job_text("Printerのインスタンス("@ + name + ")を生成中"@)
}

/// What a printer with the given name writes for a text: its name
/// between rules, and the text, a line each.
pub open spec fn printed(name: Seq<char>, text: Seq<char>) -> Seq<char> {
    "=== "@ + name + " ===\n"@ + text + "\n"@
}

/// Writes what a printer with the given name writes for a text.
pub fn printed_string(name: &str, text: &str) -> (out: String)
    ensures
        out@ == printed(name@, text@),
{
    let mut out = String::from_str("=== ");
    out.append(name);
    out.append(" ===\n");
    out.append(text);
    out.append("\n");
    out
}

/// Something that prints under a name.
pub trait Printable {
    /// The name of the printer.
    spec fn name(&self) -> Seq<char>;

    /// What printing `text` writes.
    spec fn print_text(&self, text: Seq<char>) -> Seq<char>;

    fn set_printer_name(&mut self, name: &str)
        ensures
            final(self).name() == name@,
    ;

    fn get_printer_name(&self) -> (name: &str)
        ensures
            name@ == self.name(),
    ;

    fn print(&mut self, text: &str) -> (out: String)
        ensures
            out@ == old(self).print_text(text@),
            final(self).name() == old(self).name(),
    ;
}

/// The printer itself, which takes long to make.
pub struct Printer {
    name: String,
}

impl Printer {
    pub closed spec fn spec_name(&self) -> Seq<char> {
        self.name@
    }

    pub fn heavy_job(msg: &str) -> (out: String)
        ensures
            out@ == heavy_job_text(msg@),
    {
        let mut out = String::from_str(msg);
        out.append(repeat_str(".\n", DOTS as usize).as_str());
        out.append("完了。\n");
        out
    }

    /// Makes a printer, and gives it with what its making writes.
    pub fn new(name: &str) -> (made: (Self, String))
        ensures
            made.0.spec_name() == name@,
            made.1@ == creation_text(name@),
    {
        let mut msg = String::from_str("Printerのインスタンス(");
        msg.append(name);
        msg.append(")を生成中");
        let out = Self::heavy_job(msg.as_str());
        (Self { name: name.to_owned() }, out)
    }
}

impl Printable for Printer {
    open spec fn name(&self) -> Seq<char> {
        self.spec_name()
    }

    open spec fn print_text(&self, text: Seq<char>) -> Seq<char> {
        printed(self.spec_name(), text)
    }

    fn set_printer_name(&mut self, name: &str) {
        self.name = name.to_owned();
    }

    fn get_printer_name(&self) -> (name: &str) {
        self.name.as_str()
    }

    fn print(&mut self, text: &str) -> (out: String)
        ensures
            *final(self) == *old(self),
    {
        printed_string(self.name.as_str(), text)
    }
}

/// Stands in for a printer, which it makes only when something is to be
/// printed.
pub struct PrinterProxy {
    name: String,
    underlying: Option<Printer>,
}

impl PrinterProxy {
    pub closed spec fn spec_name(&self) -> Seq<char> {
        self.name@
    }

    /// The name of the printer, once it has been made.
    pub closed spec fn printer_name(&self) -> Option<Seq<char>> {
        match self.underlying {
            Some(printer) => Some(printer.spec_name()),
            None => None,
        }
    }

    pub fn new(name: &str) -> (proxy: Self)
        ensures
            proxy.spec_name() == name@,
            proxy.printer_name() is None,
    {
        Self { name: name.to_owned(), underlying: None }
    }

    /// Makes the printer unless it has been made, and gives what that
    /// writes.
    pub fn realize(&mut self) -> (out: String)
        ensures
            final(self).spec_name() == old(self).spec_name(),
            old(self).printer_name() is Some ==> {
                &&& out@ == Seq::<char>::empty()
                &&& final(self).printer_name() == old(self).printer_name()
            },
            old(self).printer_name() is None ==> {
                &&& out@ == creation_text(old(self).spec_name())
                &&& final(self).printer_name() == Some(old(self).spec_name())
            },
    {
        if self.underlying.is_none() {
            let (printer, out) = Printer::new(self.name.as_str());
            self.underlying = Some(printer);
            out
        } else {
            String::new()
        }
    }
}

impl Printable for PrinterProxy {
    open spec fn name(&self) -> Seq<char> {
        self.spec_name()
    }

    /// Where the printer has not yet been made, printing first writes
    /// what its making writes.
    open spec fn print_text(&self, text: Seq<char>) -> Seq<char> {
        match self.printer_name() {
            Some(name) => printed(name, text),
            None => creation_text(self.spec_name()) + printed(self.spec_name(), text),
        }
    }

    fn set_printer_name(&mut self, name: &str)
        ensures
            old(self).printer_name() is Some ==> final(self).printer_name() == Some(name@),
            old(self).printer_name() is None ==> final(self).printer_name() is None,
    {
        match &mut self.underlying {
            Some(printer) => printer.set_printer_name(name),
            None => {},
        }
        self.name = name.to_owned();
    }

    fn get_printer_name(&self) -> (name: &str) {
        self.name.as_str()
    }

    fn print(&mut self, text: &str) -> (out: String)
        ensures
            final(self).printer_name() == match old(self).printer_name() {
                Some(name) => Some(name),
                None => Some(old(self).spec_name()),
            },
    {
        let mut out = self.realize();
        match &mut self.underlying {
            Some(printer) => {
                out.append(printer.print(text).as_str());
            },
            None => {},
        }
        out
    }
}

} // verus!
