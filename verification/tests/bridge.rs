use design_patterns::bridge::enum_base;
use design_patterns::bridge::{CountDisplay, Display, DisplayDefault, DisplayImpl, StringDisplayImpl};

#[test]
fn bridge_test() {
    let mut d1: Box<dyn Display> =
        Box::new(DisplayDefault::new(Box::new(StringDisplayImpl::new("Hello, Japan."))));
    let mut d2: Box<dyn Display> =
        Box::new(DisplayDefault::new(Box::new(StringDisplayImpl::new("Hello, World"))));
    let mut d3: CountDisplay<StringDisplayImpl> =
        CountDisplay::new(Box::new(StringDisplayImpl::new("Hello, Universe.")));
    assert_eq!(d1.display(), "++\n|Hello, Japan.|\n++\n");
    assert_eq!(d2.display(), "++\n|Hello, World|\n++\n");
    assert_eq!(d3.display(), "++\n|Hello, Universe.|\n++\n");
    let many = d3.multi_display(5);
    println!("{}", many);
    assert_eq!(many, format!("++\n{}++\n", "|Hello, Universe.|\n".repeat(5)));
}

#[test]
fn bridge_with_trait_object_implementation() {
    let imp: Box<dyn DisplayImpl> = Box::new(StringDisplayImpl::new("dyn"));
    let mut d: CountDisplay = CountDisplay::new(imp);
    assert_eq!(d.open(), "++\n");
    assert_eq!(d.print(), "|dyn|\n");
    assert_eq!(d.close(), "++\n");
    assert_eq!(d.multi_display(0), "++\n++\n");
    let mut default: DisplayDefault = DisplayDefault::new(Box::new(StringDisplayImpl::new("x")));
    assert_eq!(default.display(), "++\n|x|\n++\n");
}

#[test]
fn bridge_enum_base_test() {
    let mut d1 = enum_base::Display::of_default(enum_base::DisplayImpl::of_string("Hello, Japan."));
    let mut d2 = enum_base::Display::of_default(enum_base::DisplayImpl::of_string("Hello, World"));
    let mut d3 = enum_base::Display::of_count(enum_base::DisplayImpl::of_string("Hello, Universe."));
    assert_eq!(d1.display(), "++\n|Hello, Japan.|\n++\n");
    assert_eq!(d2.display(), "++\n|Hello, World|\n++\n");
    assert_eq!(d3.display(), "++\n|Hello, Universe.|\n++\n");
    let many = d3.as_count_display_mut().unwrap().multi_display(5);
    assert_eq!(many, format!("++\n{}++\n", "|Hello, Universe.|\n".repeat(5)));
    assert!(d1.as_count_display_mut().is_none());
}

#[test]
fn bridge_frame_line_has_one_dash_for_each_column() {
    assert_eq!(design_patterns::bridge::frame_line_string(0), "++\n");
    assert_eq!(design_patterns::bridge::frame_line_string(3), "+---+\n");
    let imp = enum_base::DisplayImpl::String("ab".to_owned(), 2);
    assert_eq!(imp.print_line(), "+--+\n");
    assert_eq!(imp.raw_print(), "|ab|\n");
}
