//! The printer and its proxy as the variants of one enum.

use crate::proxy::{creation_text, heavy_job_text, printed, printed_string, DOTS};
use crate::text::repeat_str;
use vstd::prelude::*;
use vstd::string::*;

verus! {

/// What a printer and its proxy have in common.
pub trait PrintableBehavior {
    /// The name of the printer.
    spec fn name(&self) -> Seq<char>;

    /// What printing `text` writes.
    spec fn print_text(&self, text: Seq<char>) -> Seq<char>;

    fn set_printer_name(&mut self, name: &str)
        ensures
            final(self).name() == name@,
    ;

    fn get_printer_name(&self) -> (name: &str)
        ensures
            name@ == self.name(),
    ;

    fn print(&mut self, text: &str) -> (out: String)
        ensures
            out@ == old(self).print_text(text@),
            final(self).name() == old(self).name(),
    ;
}

/// The printer itself, which takes long to make.
#[derive(Debug)]
pub struct Printer {
    name: String,
}

impl Printer {
    pub closed spec fn spec_name(&self) -> Seq<char> {
        self.name@
    }

    pub fn heavy_job(msg: &str) -> (out: String)
        ensures
            out@ == heavy_job_text(msg@),
    {
        let mut out = String::from_str(msg);
        out.append(repeat_str(".\n", DOTS as usize).as_str());
        out.append("完了。\n");
        out
    }

    /// Makes a printer, and gives it with what its making writes.
    pub fn new(name: &str) -> (made: (Self, String))
        ensures
            made.0.spec_name() == name@,
            made.1@ == creation_text(name@),
    {
        let mut msg = String::from_str("Printerのインスタンス(");
        msg.append(name);
        msg.append(")を生成中");
        let out = Self::heavy_job(msg.as_str());
        (Self { name: name.to_owned() }, out)
    }
}

impl PrintableBehavior for Printer {
    open spec fn name(&self) -> Seq<char> {
        self.spec_name()
    }

    open spec fn print_text(&self, text: Seq<char>) -> Seq<char> {
        printed(self.spec_name(), text)
    }

    fn set_printer_name(&mut self, name: &str) {
        self.name = name.to_owned();
    }

    fn get_printer_name(&self) -> (name: &str) {
        self.name.as_str()
    }

    fn print(&mut self, text: &str) -> (out: String)
        ensures
            *final(self) == *old(self),
    {
        printed_string(self.name.as_str(), text)
    }
}

/// Stands in for a printer, which it makes only when something is to be
/// printed.
#[derive(Debug)]
pub struct PrinterProxy {
    name: String,
    underlying: Option<Printer>,
}

impl PrinterProxy {
    pub closed spec fn spec_name(&self) -> Seq<char> {
        self.name@
    }

    /// The name of the printer, once it has been made.
    pub closed spec fn printer_name(&self) -> Option<Seq<char>> {
        match self.underlying {
            Some(printer) => Some(printer.spec_name()),
            None => None,
        }
    }

    pub fn new(name: &str) -> (proxy: Self)
        ensures
            proxy.spec_name() == name@,
            proxy.printer_name() is None,
    {
        Self { name: name.to_owned(), underlying: None }
    }

    /// Makes the printer unless it has been made, and gives what that
    /// writes.
    pub fn realize(&mut self) -> (out: String)
        ensures
            final(self).spec_name() == old(self).spec_name(),
            old(self).printer_name() is Some ==> {
                &&& out@ == Seq::<char>::empty()
                &&& final(self).printer_name() == old(self).printer_name()
            },
            old(self).printer_name() is None ==> {
                &&& out@ == creation_text(old(self).spec_name())
                &&& final(self).printer_name() == Some(old(self).spec_name())
            },
    {
        if self.underlying.is_none() {
            let (printer, out) = Printer::new(self.name.as_str());
            self.underlying = Some(printer);
            out
        } else {
            String::new()
        }
    }
}

impl PrintableBehavior for PrinterProxy {
    open spec fn name(&self) -> Seq<char> {
        self.spec_name()
    }

    /// Where the printer has not yet been made, printing first writes
    /// what its making writes.
    open spec fn print_text(&self, text: Seq<char>) -> Seq<char> {
        match self.printer_name() {
            Some(name) => printed(name, text),
            None => creation_text(self.spec_name()) + printed(self.spec_name(), text),
        }
    }

    fn set_printer_name(&mut self, name: &str)
        ensures
            old(self).printer_name() is Some ==> final(self).printer_name() == Some(name@),
            old(self).printer_name() is None ==> final(self).printer_name() is None,
    {
        match &mut self.underlying {
            Some(printer) => printer.set_printer_name(name),
            None => {},
        }
        self.name = name.to_owned();
    }

    fn get_printer_name(&self) -> (name: &str) {
        self.name.as_str()
    }

    fn print(&mut self, text: &str) -> (out: String)
        ensures
            final(self).printer_name() == match old(self).printer_name() {
                Some(name) => Some(name),
                None => Some(old(self).spec_name()),
            },
    {
        let mut out = self.realize();
        match &mut self.underlying {
            Some(printer) => {
                out.append(printer.print(text).as_str());
            },
            None => {},
        }
        out
    }
}

pub enum Printable {
    Printer(Printer),
    PrinterProxy(PrinterProxy),
}

impl Printable {
    /// A printer, made at once, with what its making writes.
    pub fn of_printer(name: &str) -> (made: (Self, String))
        ensures
            made.0 matches Printable::Printer(printer) && printer.spec_name() == name@,
            made.1@ == creation_text(name@),
    {
        let (printer, out) = Printer::new(name);
        (Printable::Printer(printer), out)
    }

    pub fn of_printer_proxy(name: &str) -> (proxy: Self)
        ensures
            proxy matches Printable::PrinterProxy(p) && p.spec_name() == name@ && p.printer_name()
                is None,
    {
        Printable::PrinterProxy(PrinterProxy::new(name))
    }
}

impl PrintableBehavior for Printable {
    open spec fn name(&self) -> Seq<char> {
        match self {
            Printable::Printer(u) => u.name(),
            Printable::PrinterProxy(u) => u.name(),
        }
    }

    open spec fn print_text(&self, text: Seq<char>) -> Seq<char> {
        match self {
            Printable::Printer(u) => u.print_text(text),
            Printable::PrinterProxy(u) => u.print_text(text),
        }
    }

    fn set_printer_name(&mut self, name: &str) {
        match self {
            Printable::Printer(u) => u.set_printer_name(name),
            Printable::PrinterProxy(u) => u.set_printer_name(name),
        }
    }

    fn get_printer_name(&self) -> (name: &str) {
        match self {
            Printable::Printer(u) => u.get_printer_name(),
            Printable::PrinterProxy(u) => u.get_printer_name(),
        }
    }

    fn print(&mut self, text: &str) -> (out: String) {
        match self {
            Printable::Printer(u) => u.print(text),
            Printable::PrinterProxy(u) => u.print(text),
        }
    }
}

} // verus!
