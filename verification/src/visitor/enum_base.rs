//! Visitors and elements as enums.

use crate::visitor::{
    html_hyperlink, html_hyperlink_string, html_text, html_text_string, html_title,
    html_title_string, plain_hyperlink, plain_hyperlink_string, plain_line, plain_line_string,
};
use vstd::prelude::*;
use vstd::string::*;

verus! {

/// An exporter, with what it has exported so far.
pub enum Visitor {
    HtmlExporterVisitor { builder: String },
    PlainTextExporterVisitor { builder: String },
}

impl Visitor {
    /// What has been exported so far.
    pub open spec fn result(&self) -> Seq<char> {
        match self {
            Visitor::HtmlExporterVisitor { builder } => builder@,
            Visitor::PlainTextExporterVisitor { builder } => builder@,
        }
    }

    /// The visitor with `more` added to what it has exported.
    pub open spec fn grown(pre: Visitor, post: Visitor, more: Seq<char>) -> bool {
        match pre {
            Visitor::HtmlExporterVisitor { builder } => post matches Visitor::HtmlExporterVisitor {
                builder: after,
            } && after@ == builder@ + more,
            Visitor::PlainTextExporterVisitor { builder } => post matches Visitor::PlainTextExporterVisitor {
                builder: after,
            } && after@ == builder@ + more,
        }
    }

    /// How the visitor exports a title.
    pub open spec fn title_export(&self, text: Seq<char>) -> Seq<char> {
        match self {
            Visitor::HtmlExporterVisitor { .. } => html_title(text),
            Visitor::PlainTextExporterVisitor { .. } => plain_line(text),
        }
    }

    /// How the visitor exports a paragraph.
    pub open spec fn text_export(&self, text: Seq<char>) -> Seq<char> {
        match self {
            Visitor::HtmlExporterVisitor { .. } => html_text(text),
            Visitor::PlainTextExporterVisitor { .. } => plain_line(text),
        }
    }

    /// How the visitor exports a link.
    pub open spec fn hyperlink_export(&self, text: Seq<char>, url: Seq<char>) -> Seq<char> {
        match self {
            Visitor::HtmlExporterVisitor { .. } => html_hyperlink(text, url),
            Visitor::PlainTextExporterVisitor { .. } => plain_hyperlink(text, url),
        }
    }

    pub fn get_result(&self) -> (result: &str)
        ensures
            result@ == self.result(),
    {
        match self {
            Visitor::HtmlExporterVisitor { builder } => builder.as_str(),
            Visitor::PlainTextExporterVisitor { builder } => builder.as_str(),
        }
    }

    pub fn of_html_exporter() -> (visitor: Self)
        ensures
            visitor is HtmlExporterVisitor,
            visitor.result() == Seq::<char>::empty(),
    {
        Visitor::HtmlExporterVisitor { builder: String::new() }
    }

    pub fn of_plain_text_exporter() -> (visitor: Self)
        ensures
            visitor is PlainTextExporterVisitor,
            visitor.result() == Seq::<char>::empty(),
    {
        Visitor::PlainTextExporterVisitor { builder: String::new() }
    }

    pub fn visit_title(&mut self, title: &Title)
        ensures
            Visitor::grown(*old(self), *final(self), old(self).title_export(title.text())),
    {
        match self {
            Visitor::HtmlExporterVisitor { builder } => builder.append(
                html_title_string(title.text.as_str()).as_str(),
            ),
            Visitor::PlainTextExporterVisitor { builder } => builder.append(
                plain_line_string(title.text.as_str()).as_str(),
            ),
        }
    }

    pub fn visit_text(&mut self, text: &Text)
        ensures
            Visitor::grown(*old(self), *final(self), old(self).text_export(text.text())),
    {
        match self {
            Visitor::HtmlExporterVisitor { builder } => builder.append(
                html_text_string(text.text.as_str()).as_str(),
            ),
            Visitor::PlainTextExporterVisitor { builder } => builder.append(
                plain_line_string(text.text.as_str()).as_str(),
            ),
        }
    }

    pub fn visit_hyperlink(&mut self, hyperlink: &HyperLink)
        ensures
            Visitor::grown(
                *old(self),
                *final(self),
                old(self).hyperlink_export(hyperlink.text(), hyperlink.url()),
            ),
    {
        match self {
            Visitor::HtmlExporterVisitor { builder } => builder.append(
                html_hyperlink_string(hyperlink.text.as_str(), hyperlink.url.as_str()).as_str(),
            ),
            Visitor::PlainTextExporterVisitor { builder } => builder.append(
                plain_hyperlink_string(hyperlink.text.as_str(), hyperlink.url.as_str()).as_str(),
            ),
        }
    }
}

#[derive(Debug)]
pub enum Element {
    Title(Title),
    Text(Text),
    HyperLink(HyperLink),
}

impl Element {
    /// What the visitor exports for the element.
    pub open spec fn export(&self, visitor: Visitor) -> Seq<char> {
        match self {
            Element::Title(inner) => visitor.title_export(inner.text()),
            Element::Text(inner) => visitor.text_export(inner.text()),
            Element::HyperLink(inner) => visitor.hyperlink_export(inner.text(), inner.url()),
        }
    }

    pub fn of_title(s: &str) -> (element: Self)
        ensures
            element matches Element::Title(inner) && inner.text() == s@,
    {
        Element::Title(Title::new(s))
    }

    pub fn of_text(s: &str) -> (element: Self)
        ensures
            element matches Element::Text(inner) && inner.text() == s@,
    {
        Element::Text(Text::new(s))
    }

    pub fn of_hyper_link(text: &str, url: &str) -> (element: Self)
        ensures
            element matches Element::HyperLink(inner) && inner.text() == text@ && inner.url()
                == url@,
    {
        Element::HyperLink(HyperLink::new(text, url))
    }

    pub fn accept(&self, visitor: &mut Visitor)
        ensures
            Visitor::grown(*old(visitor), *final(visitor), self.export(*old(visitor))),
    {
        match self {
            Element::Title(inner) => inner.accept(visitor),
            Element::Text(inner) => inner.accept(visitor),
            Element::HyperLink(inner) => inner.accept(visitor),
        }
    }
}

#[derive(Debug)]
pub struct Title {
    text: String,
}

impl Title {
    pub closed spec fn text(&self) -> Seq<char> {
        self.text@
    }

    pub fn new(text: &str) -> (title: Self)
        ensures
            title.text() == text@,
    {
        Self { text: text.to_owned() }
    }

    pub fn accept(&self, visitor: &mut Visitor)
        ensures
            Visitor::grown(*old(visitor), *final(visitor), old(visitor).title_export(self.text())),
    {
        visitor.visit_title(self)
    }
}

#[derive(Debug)]
pub struct Text {
    text: String,
}

impl Text {
    pub closed spec fn text(&self) -> Seq<char> {
        self.text@
    }

    pub fn new(text: &str) -> (paragraph: Self)
        ensures
            paragraph.text() == text@,
    {
        Self { text: text.to_owned() }
    }

    pub fn accept(&self, visitor: &mut Visitor)
        ensures
            Visitor::grown(*old(visitor), *final(visitor), old(visitor).text_export(self.text())),
    {
        visitor.visit_text(self)
    }
}

#[derive(Debug)]
pub struct HyperLink {
    text: String,
    url: String,
}

impl HyperLink {
    pub closed spec fn text(&self) -> Seq<char> {
        self.text@
    }

    pub closed spec fn url(&self) -> Seq<char> {
        self.url@
    }

    pub fn new(text: &str, url: &str) -> (link: Self)
        ensures
            link.text() == text@,
            link.url() == url@,
    {
        Self { text: text.to_owned(), url: url.to_owned() }
    }

    pub fn accept(&self, visitor: &mut Visitor)
        ensures
            Visitor::grown(
                *old(visitor),
                *final(visitor),
                old(visitor).hyperlink_export(self.text(), self.url()),
            ),
    {
        visitor.visit_hyperlink(self)
    }
}

/// What the visitor exports for the elements, one after the other.
pub open spec fn exports(parts: Seq<Element>, visitor: Visitor) -> Seq<char>
    decreases parts.len(),
{
    if parts.len() == 0 {
        Seq::empty()
    } else {
        exports(parts.drop_last(), visitor) + parts.last().export(visitor)
    }
}

#[derive(Debug)]
pub struct Document {
    parts: Vec<Element>,
}

impl Document {
    pub closed spec fn parts(&self) -> Seq<Element> {
        self.parts@
    }

    pub fn new(parts: Vec<Element>) -> (document: Self)
        ensures
            document.parts() == parts@,
    {
        Self { parts }
    }

    /// Lets the visitor visit every part, in order.
    pub fn accept(&self, visitor: &mut Visitor)
        ensures
            Visitor::grown(*old(visitor), *final(visitor), exports(self.parts(), *old(visitor))),
    {
        let n = self.parts.len();
        let mut i: usize = 0;
        assert(self.parts@.take(0) =~= Seq::<Element>::empty());
        assert(old(visitor).result() + exports(self.parts@.take(0), *old(visitor)) =~= old(
            visitor,
        ).result());
        while i < n
            invariant
                i <= n,
                n == self.parts@.len(),
                Visitor::grown(
                    *old(visitor),
                    *visitor,
                    exports(self.parts@.take(i as int), *old(visitor)),
                ),
            decreases n - i,
        {
            let ghost before = *visitor;
            self.parts[i].accept(visitor);
            proof {
                assert(self.parts@.take(i as int + 1).drop_last() =~= self.parts@.take(i as int));
                assert(self.parts@[i as int].export(before) == self.parts@[i as int].export(
                    *old(visitor),
                ));
                assert(visitor.result() =~= old(visitor).result() + exports(
                    self.parts@.take(i as int + 1),
                    *old(visitor),
                ));
            }
            i = i + 1;
        }
        assert(self.parts@.take(n as int) =~= self.parts@);
    }
}

} // verus!
