use design_patterns::builder::{Builder, Director, HtmlBuilder, TextBuilder};

#[test]
fn builder_test() {
    let builder = TextBuilder::new();
    let mut director = Director::new(builder);
    director.build();
    let result = director.builder().get_text_result();
    println!("{}", result);
    let expected = "==============================\n\
『Greeting』\n\n\
■一般的なあいさつ\n\n\
\u{3000}・How are you?\n\
\u{3000}・Hello.\n\
\u{3000}・Hi.\n\
==============================\n\
『時間帯に応じたあいさつ』\n\n\
■一般的なあいさつ\n\n\
\u{3000}・Good morning.\n\
\u{3000}・Good afternoon.\n\
\u{3000}・Good evening.\n\
==============================\n";
    assert_eq!(result, expected);
}

#[test]
fn builder_html_names_the_file_after_the_last_title() {
    let mut director = Director::new(HtmlBuilder::new());
    director.build();
    let builder = director.builder();
    assert_eq!(builder.get_html_result(), "時間帯に応じたあいさつ.html");
    let html = builder.get_html_text();
    assert!(html.starts_with("<!DOCTYPE html>\n<html>\n<head><title>Greeting</title></head>\n<body>\n<h1>Greeting</h1>\n\n<p>一般的なあいさつ</p>\n\n<ul>\n<li>How are you?</li>\n<li>Hello.</li>\n<li>Hi.</li>\n</ul>\n\n"));
    assert!(html.ends_with("<li>Good evening.</li>\n</ul>\n\n</body></html>\n"));
}

#[test]
fn builder_steps_one_by_one() {
    let mut text = TextBuilder::new();
    assert_eq!(text.get_text_result(), "");
    text.make_items(&[]);
    assert_eq!(text.get_text_result(), "");
    text.make_string("a");
    assert_eq!(text.get_text_result(), "■a\n\n");
    text.close();
    assert_eq!(text.get_text_result(), "■a\n\n==============================\n");
    let mut html = HtmlBuilder::new();
    html.make_items(&["x"]);
    assert_eq!(html.get_html_text(), "<ul>\n<li>x</li>\n</ul>\n\n");
    html.make_title("t");
    assert_eq!(html.get_html_result(), "t.html");
}
