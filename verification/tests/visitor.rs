use design_patterns::visitor::enum_base;
use design_patterns::visitor::trait_base;
use design_patterns::visitor::{
    Document, Element, HtmlExporterVisitor, HyperLink, PlainTextExporterVisitor, Text, Title, Visitor,
};
use std::rc::Rc;

const HTML: &str = "<h1>The Visitor Pattern Example</h1>\n\
<p>The visitor pattern helps us add extra functionality without changing the classes.</p>\n\
<a href=\"https://www.google.com/\">Go check it online!</a>\n\
<p>Thanks!</p>\n";

const PLAIN: &str = "The Visitor Pattern Example\n\
The visitor pattern helps us add extra functionality without changing the classes.\n\
Go check it online! https://www.google.com/\n\
Thanks!\n";

#[test]
fn visitor_test() {
    let values: Vec<Rc<dyn Element>> = vec![
        Rc::new(Title::new("The Visitor Pattern Example")),
        Rc::new(Text::new(
            "The visitor pattern helps us add extra functionality without changing the classes.",
        )),
        Rc::new(HyperLink::new("Go check it online!", "https://www.google.com/")),
        Rc::new(Text::new("Thanks!")),
    ];
    let document: Document = Document::new(values);

    let mut html_exporter = HtmlExporterVisitor::new();
    let mut plain_text_exporter = PlainTextExporterVisitor::new();

    println!("Export to html:");
    document.accept(&mut html_exporter);
    println!("{}", html_exporter.get_html());
    assert_eq!(html_exporter.get_html(), HTML);

    println!("Export to plain:");
    document.accept(&mut plain_text_exporter);
    println!("{}", plain_text_exporter.get_text());
    assert_eq!(plain_text_exporter.get_text(), PLAIN);
}

#[test]
fn visitor_enum_base_test() {
    let values: Vec<enum_base::Element> = vec![
        enum_base::Element::of_title("The Visitor Pattern Example"),
        enum_base::Element::of_text(
            "The visitor pattern helps us add extra functionality without changing the classes.",
        ),
        enum_base::Element::of_hyper_link("Go check it online!", "https://www.google.com/"),
        enum_base::Element::of_text("Thanks!"),
    ];

    let document = enum_base::Document::new(values);
    let mut html_exporter = enum_base::Visitor::of_html_exporter();
    let mut plain_text_exporter = enum_base::Visitor::of_plain_text_exporter();

    document.accept(&mut html_exporter);
    assert_eq!(html_exporter.get_result(), HTML);

    document.accept(&mut plain_text_exporter);
    assert_eq!(plain_text_exporter.get_result(), PLAIN);
    document.accept(&mut plain_text_exporter);
    assert_eq!(plain_text_exporter.get_result(), format!("{}{}", PLAIN, PLAIN));
}

#[test]
fn visitor_trait_base_test() {
    let values: Vec<Box<dyn trait_base::Element>> = vec![
        Box::new(trait_base::Title::new("The Visitor Pattern Example")),
        Box::new(trait_base::Text::new(
            "The visitor pattern helps us add extra functionality without changing the classes.",
        )),
        Box::new(trait_base::HyperLink::new("Go check it online!", "https://www.google.com/")),
        Box::new(trait_base::Text::new("Thanks!")),
    ];
    let document: trait_base::Document = trait_base::Document::new(values);

    let mut html_exporter = trait_base::HtmlExporterVisitor::new();
    let mut plain_text_exporter = trait_base::PlainTextExporterVisitor::new();

    document.accept(&mut html_exporter);
    assert_eq!(html_exporter.get_html(), HTML);

    document.accept(&mut plain_text_exporter);
    assert_eq!(plain_text_exporter.get_text(), PLAIN);
}

#[test]
fn visitor_single_elements_and_empty_document() {
    let mut html: HtmlExporterVisitor = HtmlExporterVisitor::new();
    html.visit_title(&Title::new("t"));
    html.visit_text(&Text::new("p"));
    html.visit_hyperlink(&HyperLink::new("a", "u"));
    assert_eq!(html.get_html(), "<h1>t</h1>\n<p>p</p>\n<a href=\"u\">a</a>\n");
    let empty: Document = Document::new(Vec::new());
    empty.accept(&mut html);
    assert_eq!(html.get_html(), "<h1>t</h1>\n<p>p</p>\n<a href=\"u\">a</a>\n");
    let mut plain = enum_base::Visitor::of_plain_text_exporter();
    enum_base::HyperLink::new("a", "u").accept(&mut plain);
    enum_base::Title::new("t").accept(&mut plain);
    assert_eq!(plain.get_result(), "a u\nt\n");
}

#[test]
fn visitor_trait_base_default_exporters_are_empty() {
    let html = trait_base::HtmlExporterVisitor::default();
    assert_eq!(html.get_html(), "");
    let plain = trait_base::PlainTextExporterVisitor::default();
    assert_eq!(plain.get_text(), "");
}
