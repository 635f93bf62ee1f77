//! A director that dictates a document, and builders that write it down
//! as plain text or as HTML.

use vstd::prelude::*;
use vstd::string::*;

verus! {

/// A document under construction: what has been written so far, and the
/// name of the file that it is meant for, once that is known.
pub struct Document {
    pub text: Seq<char>,
    pub file_name: Option<Seq<char>>,
}

/// The texts of the items.
pub open spec fn views(items: Seq<&str>) -> Seq<Seq<char>> {
    Seq::new(items.len(), |i: int| items[i]@)
}

/// Every item between `before` and `after`, one after the other.
pub open spec fn wrap_each(before: Seq<char>, items: Seq<Seq<char>>, after: Seq<char>) -> Seq<
    char,
>
    decreases items.len(),
{
    if items.len() == 0 {
        Seq::empty()
    } else {
        wrap_each(before, items.drop_last(), after) + before + items.last() + after
    }
}

/// Appends every item between `before` and `after` to `out`.
fn append_each(out: &mut String, before: &str, items: &[&str], after: &str)
    ensures
        final(out)@ == old(out)@ + wrap_each(before@, views(items@), after@),
{
    let n = items.len();
    let mut i: usize = 0;
    assert(views(items@).take(0) =~= Seq::<Seq<char>>::empty());
    assert(out@ =~= old(out)@ + wrap_each(before@, views(items@).take(0), after@));
    while i < n
        invariant
            i <= n,
            n == items@.len(),
            out@ == old(out)@ + wrap_each(before@, views(items@).take(i as int), after@),
        decreases n - i,
    {
        out.append(before);
        out.append(items[i]);
        out.append(after);
        proof {
            let done = views(items@).take(i as int + 1);
            assert(done.drop_last() =~= views(items@).take(i as int));
            assert(done.last() == items@[i as int]@);
            assert(out@ =~= old(out)@ + wrap_each(before@, done, after@));
        }
        i = i + 1;
    }
    assert(views(items@).take(n as int) =~= views(items@));
}

/// Writes a document piece by piece. Each operation turns the document
/// into the one that the matching spec function gives.
pub trait Builder: Sized {
    /// The document as it stands.
    spec fn document(&self) -> Document;

    /// `doc` with a title added.
    spec fn with_title(doc: Document, title: Seq<char>) -> Document;

    /// `doc` with a paragraph added.
    spec fn with_string(doc: Document, str: Seq<char>) -> Document;

    /// `doc` with a list of items added.
    spec fn with_items(doc: Document, items: Seq<Seq<char>>) -> Document;

    /// `doc` brought to its end.
    spec fn with_close(doc: Document) -> Document;

    fn make_title(&mut self, title: &str)
        ensures
            final(self).document() == Self::with_title(old(self).document(), title@),
    ;

    fn make_string(&mut self, str: &str)
        ensures
            final(self).document() == Self::with_string(old(self).document(), str@),
    ;

    fn make_items(&mut self, items: &[&str])
        ensures
            final(self).document() == Self::with_items(old(self).document(), views(items@)),
    ;

    fn close(&mut self)
        ensures
            final(self).document() == Self::with_close(old(self).document()),
    ;
}

/// The items of the first list that the director dictates.
pub open spec fn greetings() -> Seq<Seq<char>> {
    seq!["How are you?"@, "Hello."@, "Hi."@]
}

/// The items of the second list that the director dictates.
pub open spec fn greetings_by_time() -> Seq<Seq<char>> {
    seq!["Good morning."@, "Good afternoon."@, "Good evening."@]
}

/// What the director makes of `doc` with a builder of type `B`: two
/// sections, each with a title, a paragraph and a list, and the end.
pub open spec fn dictated<B: Builder>(doc: Document) -> Document {
    let first = B::with_items(
        B::with_string(B::with_title(doc, "Greeting"@), "一般的なあいさつ"@),
        greetings(),
    );
    let second = B::with_items(
        B::with_string(B::with_title(first, "時間帯に応じたあいさつ"@), "一般的なあいさつ"@),
        greetings_by_time(),
    );
    B::with_close(second)
}

/// Dictates a fixed document to the builder that it holds.
#[derive(Debug)]
pub struct Director<B: Builder> {
    builder: B,
}

impl<B: Builder> Director<B> {
    pub closed spec fn spec_builder(&self) -> B {
        self.builder
    }

    pub fn new(builder: B) -> (director: Self)
        ensures
            director.spec_builder() == builder,
    {
        Self { builder }
    }

    /// The builder, with what has been dictated to it.
    pub fn builder(&self) -> (builder: &B)
        ensures
            *builder == self.spec_builder(),
    {
        &self.builder
    }

    pub fn build(&mut self)
        ensures
            final(self).spec_builder().document() == dictated::<B>(
                old(self).spec_builder().document(),
            ),
    {
        self.builder.make_title("Greeting");
        self.builder.make_string("一般的なあいさつ");
        let first = ["How are you?", "Hello.", "Hi."];
        assert(views(first@) =~= greetings());
        self.builder.make_items(&first);
        self.builder.make_title("時間帯に応じたあいさつ");
        self.builder.make_string("一般的なあいさつ");
        let second = ["Good morning.", "Good afternoon.", "Good evening."];
        assert(views(second@) =~= greetings_by_time());
        self.builder.make_items(&second);
        self.builder.close();
    }
}

/// Writes the document as plain text.
#[derive(Debug)]
pub struct TextBuilder {
    string: String,
}

impl TextBuilder {
    pub closed spec fn text(&self) -> Seq<char> {
        self.string@
    }

    pub fn new() -> (builder: Self)
        ensures
            builder.text() == Seq::<char>::empty(),
    {
        Self { string: String::new() }
    }

    pub fn get_text_result(&self) -> (result: &str)
        ensures
            result@ == self.text(),
    {
        self.string.as_str()
    }
}

impl Builder for TextBuilder {
    open spec fn document(&self) -> Document {
        Document { text: self.text(), file_name: None }
    }

    /// A rule, then the title between corner brackets and an empty line.
    open spec fn with_title(doc: Document, title: Seq<char>) -> Document {
        Document {
            text: doc.text + "==============================\n"@ + "『"@ + title + "』\n\n"@,
            file_name: doc.file_name,
        }
    }

    /// The paragraph after a black square, and an empty line.
    open spec fn with_string(doc: Document, str: Seq<char>) -> Document {
        Document { text: doc.text + "■"@ + str + "\n\n"@, file_name: doc.file_name }
    }

    /// Each item on a line of its own, after a wide space and a dot.
    open spec fn with_items(doc: Document, items: Seq<Seq<char>>) -> Document {
        Document { text: doc.text + wrap_each("　・"@, items, "\n"@), file_name: doc.file_name }
    }

    /// A rule.
    open spec fn with_close(doc: Document) -> Document {
        Document { text: doc.text + "==============================\n"@, file_name: doc.file_name }
    }

    fn make_title(&mut self, title: &str) {
        self.string.append("==============================\n");
        self.string.append("『");
        self.string.append(title);
        self.string.append("』\n\n");
    }

    fn make_string(&mut self, str: &str) {
        self.string.append("■");
        self.string.append(str);
        self.string.append("\n\n");
    }

    fn make_items(&mut self, items: &[&str]) {
        append_each(&mut self.string, "　・", items, "\n");
    }

    fn close(&mut self) {
        self.string.append("==============================\n");
    }
}

/// Writes the document as HTML, for a file named after the title.
#[derive(Debug)]
pub struct HtmlBuilder {
    file_name: Option<String>,
    string: String,
}

impl HtmlBuilder {
    pub closed spec fn text(&self) -> Seq<char> {
        self.string@
    }

    pub closed spec fn file_name(&self) -> Option<Seq<char>> {
        match self.file_name {
            Some(name) => Some(name@),
            None => None,
        }
    }

    pub fn new() -> (builder: Self)
        ensures
            builder.text() == Seq::<char>::empty(),
            builder.file_name() is None,
    {
        Self { file_name: None, string: String::new() }
    }

    /// Tells whether a title has been made, and so the file has a name.
    pub fn has_html_result(&self) -> (named: bool)
        ensures
            named == self.file_name() is Some,
    {
        self.file_name.is_some()
    }

    /// The name of the file that the document is meant for. There is one
    /// as soon as a title has been made.
    pub fn get_html_result(&self) -> (result: &str)
        requires
            self.file_name() is Some,
        ensures
            result@ == self.file_name()->0,
    {
        self.file_name.as_ref().unwrap().as_str()
    }

    /// The HTML written so far.
    pub fn get_html_text(&self) -> (result: &str)
        ensures
            result@ == self.text(),
    {
        self.string.as_str()
    }
}

impl Builder for HtmlBuilder {
    open spec fn document(&self) -> Document {
        Document { text: self.text(), file_name: self.file_name() }
    }

    /// The head of a page with the title, and the title as a heading;
    /// the file is named after the title.
    open spec fn with_title(doc: Document, title: Seq<char>) -> Document {
        Document {
            text: doc.text + "<!DOCTYPE html>\n"@ + "<html>\n"@ + "<head><title>"@ + title
                + "</title></head>\n"@ + "<body>\n"@ + "<h1>"@ + title + "</h1>\n\n"@,
            file_name: Some(title + ".html"@),
        }
    }

    open spec fn with_string(doc: Document, str: Seq<char>) -> Document {
        Document { text: doc.text + "<p>"@ + str + "</p>\n\n"@, file_name: doc.file_name }
    }

    open spec fn with_items(doc: Document, items: Seq<Seq<char>>) -> Document {
        Document {
            text: doc.text + "<ul>\n"@ + wrap_each("<li>"@, items, "</li>\n"@) + "</ul>\n\n"@,
            file_name: doc.file_name,
        }
    }

    open spec fn with_close(doc: Document) -> Document {
        Document { text: doc.text + "</body>"@ + "</html>\n"@, file_name: doc.file_name }
    }

    fn make_title(&mut self, title: &str) {
        let mut name = String::from_str(title);
        name.append(".html");
        self.file_name = Some(name);
        self.string.append("<!DOCTYPE html>\n");
        self.string.append("<html>\n");
        self.string.append("<head><title>");
        self.string.append(title);
        self.string.append("</title></head>\n");
        self.string.append("<body>\n");
        self.string.append("<h1>");
        self.string.append(title);
        self.string.append("</h1>\n\n");
    }

    fn make_string(&mut self, str: &str) {
        self.string.append("<p>");
        self.string.append(str);
        self.string.append("</p>\n\n");
    }

    fn make_items(&mut self, items: &[&str]) {
        self.string.append("<ul>\n");
        append_each(&mut self.string, "<li>", items, "</li>\n");
        self.string.append("</ul>\n\n");
    }

    fn close(&mut self) {
        self.string.append("</body>");
        self.string.append("</html>\n");
    }
}

} // verus!
