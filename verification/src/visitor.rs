//! Documents made of elements, and visitors that export them.

use std::rc::Rc;
use vstd::prelude::*;
use vstd::string::*;

pub mod enum_base;
pub mod trait_base;

verus! {

/// A title in HTML.
pub open spec fn html_title(text: Seq<char>) -> Seq<char> {
    "<h1>"@ + text + "</h1>\n"@
}

/// A paragraph in HTML.
pub open spec fn html_text(text: Seq<char>) -> Seq<char> {
    "<p>"@ + text + "</p>\n"@
}

/// A link in HTML.
pub open spec fn html_hyperlink(text: Seq<char>, url: Seq<char>) -> Seq<char> {
    "<a href=\""@ + url + "\">"@ + text + "</a>\n"@
}

/// A title or a paragraph in plain text: a line.
pub open spec fn plain_line(text: Seq<char>) -> Seq<char> {
    text + "\n"@
}

/// A link in plain text: its text and its address on a line.
pub open spec fn plain_hyperlink(text: Seq<char>, url: Seq<char>) -> Seq<char> {
    text + " "@ + url + "\n"@
}

/// Writes a title in HTML.
pub fn html_title_string(text: &str) -> (out: String)
    ensures
        out@ == html_title(text@),
{
    let mut out = String::from_str("<h1>");
    out.append(text);
    out.append("</h1>\n");
    out
}

/// Writes a paragraph in HTML.
pub fn html_text_string(text: &str) -> (out: String)
    ensures
        out@ == html_text(text@),
{
    let mut out = String::from_str("<p>");
    out.append(text);
    out.append("</p>\n");
    out
}

/// Writes a link in HTML.
pub fn html_hyperlink_string(text: &str, url: &str) -> (out: String)
    ensures
        out@ == html_hyperlink(text@, url@),
{
    let mut out = String::from_str("<a href=\"");
    out.append(url);
    out.append("\">");
    out.append(text);
    out.append("</a>\n");
    out
}

/// Writes a title or a paragraph in plain text.
pub fn plain_line_string(text: &str) -> (out: String)
    ensures
        out@ == plain_line(text@),
{
    let mut out = String::from_str(text);
    out.append("\n");
    out
}

/// Writes a link in plain text.
pub fn plain_hyperlink_string(text: &str, url: &str) -> (out: String)
    ensures
        out@ == plain_hyperlink(text@, url@),
{
    let mut out = String::from_str(text);
    out.append(" ");
    out.append(url);
    out.append("\n");
    out
}


/// How a visitor exports each kind of element.
pub struct Exports {
    pub title: spec_fn(Seq<char>) -> Seq<char>,
    pub text: spec_fn(Seq<char>) -> Seq<char>,
    pub hyperlink: spec_fn(Seq<char>, Seq<char>) -> Seq<char>,
}

/// Something that visits the elements of a document and exports each.
/// Visiting an element adds its export to the result, and leaves the way
/// of exporting as it is.
pub trait Visitor {
    /// What has been exported so far.
    spec fn result(&self) -> Seq<char>;

    /// How the visitor exports.
    spec fn exports(&self) -> Exports;

    fn visit_title(&mut self, title: &Title)
        ensures
            final(self).result() == old(self).result() + (old(self).exports().title)(title.text()),
            final(self).exports() == old(self).exports(),
    ;

    fn visit_text(&mut self, text: &Text)
        ensures
            final(self).result() == old(self).result() + (old(self).exports().text)(text.text()),
            final(self).exports() == old(self).exports(),
    ;

    fn visit_hyperlink(&mut self, hyperlink: &HyperLink)
        ensures
            final(self).result() == old(self).result() + (old(self).exports().hyperlink)(
                hyperlink.text(),
                hyperlink.url(),
            ),
            final(self).exports() == old(self).exports(),
    ;
}

/// A part of a document, which lets a visitor of type `V` (as a rule any
/// visitor, `dyn Visitor`) visit it.
pub trait Element<V: Visitor + ?Sized = dyn Visitor> {
    /// What is exported for the element.
    spec fn export(&self, exports: Exports) -> Seq<char>;

    fn accept(&self, visitor: &mut V)
        ensures
            final(visitor).result() == old(visitor).result() + self.export(old(visitor).exports()),
            final(visitor).exports() == old(visitor).exports(),
    ;
}

pub struct Title {
    text: String,
}

impl Title {
    pub closed spec fn text(&self) -> Seq<char> {
        self.text@
    }

    pub fn new(text: &str) -> (title: Self)
        ensures
            title.text() == text@,
    {
        Self { text: text.to_owned() }
    }

    pub fn get_text(&self) -> (text: &str)
        ensures
            text@ == self.text(),
    {
        self.text.as_str()
    }
}

impl<V: Visitor + ?Sized> Element<V> for Title {
    open spec fn export(&self, exports: Exports) -> Seq<char> {
        (exports.title)(self.text())
    }

    fn accept(&self, visitor: &mut V) {
        visitor.visit_title(self)
    }
}

pub struct Text {
    text: String,
}

impl Text {
    pub closed spec fn text(&self) -> Seq<char> {
        self.text@
    }

    pub fn new(text: &str) -> (paragraph: Self)
        ensures
            paragraph.text() == text@,
    {
        Self { text: text.to_owned() }
    }

    pub fn get_text(&self) -> (text: &str)
        ensures
            text@ == self.text(),
    {
        self.text.as_str()
    }
}

impl<V: Visitor + ?Sized> Element<V> for Text {
    open spec fn export(&self, exports: Exports) -> Seq<char> {
        (exports.text)(self.text())
    }

    fn accept(&self, visitor: &mut V) {
        visitor.visit_text(self)
    }
}

pub struct HyperLink {
    text: String,
    url: String,
}

impl HyperLink {
    pub closed spec fn text(&self) -> Seq<char> {
        self.text@
    }

    pub closed spec fn url(&self) -> Seq<char> {
        self.url@
    }

    pub fn new(text: &str, url: &str) -> (link: Self)
        ensures
            link.text() == text@,
            link.url() == url@,
    {
        Self { text: text.to_owned(), url: url.to_owned() }
    }

    pub fn get_text(&self) -> (text: &str)
        ensures
            text@ == self.text(),
    {
        self.text.as_str()
    }

    pub fn get_url(&self) -> (url: &str)
        ensures
            url@ == self.url(),
    {
        self.url.as_str()
    }
}

impl<V: Visitor + ?Sized> Element<V> for HyperLink {
    open spec fn export(&self, exports: Exports) -> Seq<char> {
        (exports.hyperlink)(self.text(), self.url())
    }

    fn accept(&self, visitor: &mut V) {
        visitor.visit_hyperlink(self)
    }
}

/// What is exported for the elements, one after the other.
pub open spec fn exported<V: Visitor + ?Sized>(parts: Seq<Rc<dyn Element<V>>>, exports: Exports) -> Seq<
    char,
>
    decreases parts.len(),
{
    if parts.len() == 0 {
        Seq::empty()
    } else {
        exported(parts.drop_last(), exports) + parts.last().export(exports)
    }
}

/// A list of elements for visitors of type `V` (as a rule any visitor,
/// `dyn Visitor`).
#[verifier::reject_recursive_types(V)]
pub struct Document<V: Visitor + ?Sized = dyn Visitor> {
    parts: Vec<Rc<dyn Element<V>>>,
}

impl<V: Visitor + ?Sized> Document<V> {
    pub closed spec fn parts(&self) -> Seq<Rc<dyn Element<V>>> {
        self.parts@
    }

    pub fn new(parts: Vec<Rc<dyn Element<V>>>) -> (document: Self)
        ensures
            document.parts() == parts@,
    {
        Self { parts }
    }

    /// Lets the visitor visit every part, in order.
    pub fn accept(&self, visitor: &mut V)
        ensures
            final(visitor).result() == old(visitor).result() + exported(
                self.parts(),
                old(visitor).exports(),
            ),
            final(visitor).exports() == old(visitor).exports(),
    {
        let n = self.parts.len();
        let mut i: usize = 0;
        assert(self.parts@.take(0) =~= Seq::<Rc<dyn Element<V>>>::empty());
        assert(visitor.result() =~= old(visitor).result() + exported(
            self.parts@.take(0),
            old(visitor).exports(),
        ));
        while i < n
            invariant
                i <= n,
                n == self.parts@.len(),
                visitor.exports() == old(visitor).exports(),
                visitor.result() == old(visitor).result() + exported(
                    self.parts@.take(i as int),
                    old(visitor).exports(),
                ),
            decreases n - i,
        {
            self.parts[i].accept(visitor);
            proof {
                assert(self.parts@.take(i as int + 1).drop_last() =~= self.parts@.take(i as int));
                assert(visitor.result() =~= old(visitor).result() + exported(
                    self.parts@.take(i as int + 1),
                    old(visitor).exports(),
                ));
            }
            i = i + 1;
        }
        assert(self.parts@.take(n as int) =~= self.parts@);
    }
}

/// Exports a document as HTML.
pub struct HtmlExporterVisitor {
    builder: String,
}

impl HtmlExporterVisitor {
    pub fn new() -> (visitor: Self)
        ensures
            visitor.result() == Seq::<char>::empty(),
    {
        Self { builder: String::new() }
    }

    pub fn get_html(&self) -> (html: &str)
        ensures
            html@ == self.result(),
    {
        self.builder.as_str()
    }
}

impl Visitor for HtmlExporterVisitor {
    closed spec fn result(&self) -> Seq<char> {
        self.builder@
    }

    open spec fn exports(&self) -> Exports {
        Exports {
            title: |text: Seq<char>| html_title(text),
            text: |text: Seq<char>| html_text(text),
            hyperlink: |text: Seq<char>, url: Seq<char>| html_hyperlink(text, url),
        }
    }

    fn visit_title(&mut self, title: &Title) {
        self.builder.append(html_title_string(title.get_text()).as_str());
    }

    fn visit_text(&mut self, text: &Text) {
        self.builder.append(html_text_string(text.get_text()).as_str());
    }

    fn visit_hyperlink(&mut self, hyperlink: &HyperLink) {
        self.builder.append(
            html_hyperlink_string(hyperlink.get_text(), hyperlink.get_url()).as_str(),
        );
    }
}

/// Exports a document as plain text.
pub struct PlainTextExporterVisitor {
    builder: String,
}

impl PlainTextExporterVisitor {
    pub fn new() -> (visitor: Self)
        ensures
            visitor.result() == Seq::<char>::empty(),
    {
        Self { builder: String::new() }
    }

    pub fn get_text(&self) -> (text: &str)
        ensures
            text@ == self.result(),
    {
        self.builder.as_str()
    }
}

impl Visitor for PlainTextExporterVisitor {
    closed spec fn result(&self) -> Seq<char> {
        self.builder@
    }

    open spec fn exports(&self) -> Exports {
        Exports {
            title: |text: Seq<char>| plain_line(text),
            text: |text: Seq<char>| plain_line(text),
            hyperlink: |text: Seq<char>, url: Seq<char>| plain_hyperlink(text, url),
        }
    }

    fn visit_title(&mut self, title: &Title) {
        self.builder.append(plain_line_string(title.get_text()).as_str());
    }

    fn visit_text(&mut self, text: &Text) {
        self.builder.append(plain_line_string(text.get_text()).as_str());
    }

    fn visit_hyperlink(&mut self, hyperlink: &HyperLink) {
        self.builder.append(
            plain_hyperlink_string(hyperlink.get_text(), hyperlink.get_url()).as_str(),
        );
    }
}

} // verus!
