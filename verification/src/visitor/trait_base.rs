//! The visitors behind a trait, over elements that borrow their text.

use crate::visitor::{
    html_hyperlink, html_hyperlink_string, html_text, html_text_string, html_title,
    html_title_string, plain_hyperlink, plain_hyperlink_string, plain_line, plain_line_string,
};
use vstd::prelude::*;
use vstd::string::*;

verus! {

/// How a visitor exports each kind of element.
pub struct Exports {
    pub title: spec_fn(Seq<char>) -> Seq<char>,
    pub text: spec_fn(Seq<char>) -> Seq<char>,
    pub hyperlink: spec_fn(Seq<char>, Seq<char>) -> Seq<char>,
}

/// Something that visits the elements of a document and exports each.
/// Visiting an element adds its export to the result, and leaves the way
/// of exporting as it is.
pub trait Visitor {
    /// What has been exported so far.
    spec fn result(&self) -> Seq<char>;

    /// How the visitor exports.
    spec fn exports(&self) -> Exports;

    fn visit_title(&mut self, title: &Title<'_>)
        ensures
            final(self).result() == old(self).result() + (old(self).exports().title)(title.text()),
            final(self).exports() == old(self).exports(),
    ;

    fn visit_text(&mut self, text: &Text<'_>)
        ensures
            final(self).result() == old(self).result() + (old(self).exports().text)(text.text()),
            final(self).exports() == old(self).exports(),
    ;

    fn visit_hyperlink(&mut self, hyperlink: &HyperLink<'_>)
        ensures
            final(self).result() == old(self).result() + (old(self).exports().hyperlink)(
                hyperlink.text(),
                hyperlink.url(),
            ),
            final(self).exports() == old(self).exports(),
    ;
}

/// A part of a document, which lets a visitor of type `V` (as a rule any
/// visitor, `dyn Visitor`) visit it.
pub trait Element<V: Visitor + ?Sized = dyn Visitor> {
    /// What is exported for the element.
    spec fn export(&self, exports: Exports) -> Seq<char>;

    fn accept(&self, visitor: &mut V)
        ensures
            final(visitor).result() == old(visitor).result() + self.export(old(visitor).exports()),
            final(visitor).exports() == old(visitor).exports(),
    ;
}

#[derive(Debug)]
pub struct Title<'a> {
    text: &'a str,
}

impl<'a> Title<'a> {
    pub closed spec fn text(&self) -> Seq<char> {
        self.text@
    }

    pub fn new(text: &'a str) -> (title: Self)
        ensures
            title.text() == text@,
    {
        Self { text: text }
    }

    pub fn get_text(&self) -> (text: &str)
        ensures
            text@ == self.text(),
    {
        self.text
    }
}

impl<'a, V: Visitor + ?Sized> Element<V> for Title<'a> {
    open spec fn export(&self, exports: Exports) -> Seq<char> {
        (exports.title)(self.text())
    }

    fn accept(&self, visitor: &mut V) {
        visitor.visit_title(self)
    }
}

#[derive(Debug)]
pub struct Text<'a> {
    text: &'a str,
}

impl<'a> Text<'a> {
    pub closed spec fn text(&self) -> Seq<char> {
        self.text@
    }

    pub fn new(text: &'a str) -> (paragraph: Self)
        ensures
            paragraph.text() == text@,
    {
        Self { text: text }
    }

    pub fn get_text(&self) -> (text: &str)
        ensures
            text@ == self.text(),
    {
        self.text
    }
}

impl<'a, V: Visitor + ?Sized> Element<V> for Text<'a> {
    open spec fn export(&self, exports: Exports) -> Seq<char> {
        (exports.text)(self.text())
    }

    fn accept(&self, visitor: &mut V) {
        visitor.visit_text(self)
    }
}

#[derive(Debug)]
pub struct HyperLink<'a> {
    text: &'a str,
    url: &'a str,
}

impl<'a> HyperLink<'a> {
    pub closed spec fn text(&self) -> Seq<char> {
        self.text@
    }

    pub closed spec fn url(&self) -> Seq<char> {
        self.url@
    }

    pub fn new(text: &'a str, url: &'a str) -> (link: Self)
        ensures
            link.text() == text@,
            link.url() == url@,
    {
        Self { text: text, url: url }
    }

    pub fn get_text(&self) -> (text: &str)
        ensures
            text@ == self.text(),
    {
        self.text
    }

    pub fn get_url(&self) -> (url: &str)
        ensures
            url@ == self.url(),
    {
        self.url
    }
}

impl<'a, V: Visitor + ?Sized> Element<V> for HyperLink<'a> {
    open spec fn export(&self, exports: Exports) -> Seq<char> {
        (exports.hyperlink)(self.text(), self.url())
    }

    fn accept(&self, visitor: &mut V) {
        visitor.visit_hyperlink(self)
    }
}

/// What is exported for the elements, one after the other.
pub open spec fn exported<'a, V: Visitor + ?Sized>(parts: Seq<Box<dyn Element<V> + 'a>>, exports: Exports) -> Seq<
    char,
>
    decreases parts.len(),
{
    if parts.len() == 0 {
        Seq::empty()
    } else {
        exported(parts.drop_last(), exports) + parts.last().export(exports)
    }
}

/// A list of elements for visitors of type `V` (as a rule any visitor,
/// `dyn Visitor`).
#[verifier::reject_recursive_types(V)]
pub struct Document<'a, V: Visitor + ?Sized = dyn Visitor> {
    parts: Vec<Box<dyn Element<V> + 'a>>,
}

impl<'a, V: Visitor + ?Sized> Document<'a, V> {
    pub closed spec fn parts(&self) -> Seq<Box<dyn Element<V> + 'a>> {
        self.parts@
    }

    pub fn new(parts: Vec<Box<dyn Element<V> + 'a>>) -> (document: Self)
        ensures
            document.parts() == parts@,
    {
        Self { parts }
    }

    /// Lets the visitor visit every part, in order.
    pub fn accept(&self, visitor: &mut V)
        ensures
            final(visitor).result() == old(visitor).result() + exported(
                self.parts(),
                old(visitor).exports(),
            ),
            final(visitor).exports() == old(visitor).exports(),
    {
        let n = self.parts.len();
        let mut i: usize = 0;
        assert(self.parts@.take(0) =~= Seq::<Box<dyn Element<V> + 'a>>::empty());
        assert(visitor.result() =~= old(visitor).result() + exported(
            self.parts@.take(0),
            old(visitor).exports(),
        ));
        while i < n
            invariant
                i <= n,
                n == self.parts@.len(),
                visitor.exports() == old(visitor).exports(),
                visitor.result() == old(visitor).result() + exported(
                    self.parts@.take(i as int),
                    old(visitor).exports(),
                ),
            decreases n - i,
        {
            self.parts[i].accept(visitor);
            proof {
                assert(self.parts@.take(i as int + 1).drop_last() =~= self.parts@.take(i as int));
                assert(visitor.result() =~= old(visitor).result() + exported(
                    self.parts@.take(i as int + 1),
                    old(visitor).exports(),
                ));
            }
            i = i + 1;
        }
        assert(self.parts@.take(n as int) =~= self.parts@);
    }
}

/// Exports a document as HTML.
#[derive(Debug)]
pub struct HtmlExporterVisitor {
    builder: String,
}

impl Default for HtmlExporterVisitor {
    /// An exporter that has exported nothing yet.
    fn default() -> (visitor: Self)
        ensures
            visitor.result() == Seq::<char>::empty(),
    {
        Self { builder: String::new() }
    }
}

impl HtmlExporterVisitor {
    pub fn new() -> (visitor: Self)
        ensures
            visitor.result() == Seq::<char>::empty(),
    {
        Self::default()
    }

    pub fn get_html(&self) -> (html: &str)
        ensures
            html@ == self.result(),
    {
        self.builder.as_str()
    }
}

impl Visitor for HtmlExporterVisitor {
    closed spec fn result(&self) -> Seq<char> {
        self.builder@
    }

    open spec fn exports(&self) -> Exports {
        Exports {
            title: |text: Seq<char>| html_title(text),
            text: |text: Seq<char>| html_text(text),
            hyperlink: |text: Seq<char>, url: Seq<char>| html_hyperlink(text, url),
        }
    }

    fn visit_title(&mut self, title: &Title<'_>) {
        self.builder.append(html_title_string(title.get_text()).as_str());
    }

    fn visit_text(&mut self, text: &Text<'_>) {
        self.builder.append(html_text_string(text.get_text()).as_str());
    }

    fn visit_hyperlink(&mut self, hyperlink: &HyperLink<'_>) {
        self.builder.append(
            html_hyperlink_string(hyperlink.get_text(), hyperlink.get_url()).as_str(),
        );
    }
}

/// Exports a document as plain text.
#[derive(Debug)]
pub struct PlainTextExporterVisitor {
    builder: String,
}

impl Default for PlainTextExporterVisitor {
    /// An exporter that has exported nothing yet.
    fn default() -> (visitor: Self)
        ensures
            visitor.result() == Seq::<char>::empty(),
    {
        Self { builder: String::new() }
    }
}

impl PlainTextExporterVisitor {
    pub fn new() -> (visitor: Self)
        ensures
            visitor.result() == Seq::<char>::empty(),
    {
        Self::default()
    }

    pub fn get_text(&self) -> (text: &str)
        ensures
            text@ == self.result(),
    {
        self.builder.as_str()
    }
}

impl Visitor for PlainTextExporterVisitor {
    closed spec fn result(&self) -> Seq<char> {
        self.builder@
    }

    open spec fn exports(&self) -> Exports {
        Exports {
            title: |text: Seq<char>| plain_line(text),
            text: |text: Seq<char>| plain_line(text),
            hyperlink: |text: Seq<char>, url: Seq<char>| plain_hyperlink(text, url),
        }
    }

    fn visit_title(&mut self, title: &Title<'_>) {
        self.builder.append(plain_line_string(title.get_text()).as_str());
    }

    fn visit_text(&mut self, text: &Text<'_>) {
        self.builder.append(plain_line_string(text.get_text()).as_str());
    }

    fn visit_hyperlink(&mut self, hyperlink: &HyperLink<'_>) {
        self.builder.append(
            plain_hyperlink_string(hyperlink.get_text(), hyperlink.get_url()).as_str(),
        );
    }
}

} // verus!
