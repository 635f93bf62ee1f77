use design_patterns::bridge::generic_base::{CountDisplay, Display, DisplayDefault, StringDisplayImpl};

#[test]
fn generic_base_test() {
    let mut d1 = DisplayDefault::new(StringDisplayImpl::new("Hello, Japan."));
    let mut d2 = DisplayDefault::new(StringDisplayImpl::new("Hello, World"));
    let mut d3 = CountDisplay::new(StringDisplayImpl::new("Hello, Universe."));
    assert_eq!(d1.display(), "++\n|Hello, Japan.|\n++\n");
    assert_eq!(d2.display(), "++\n|Hello, World|\n++\n");
    assert_eq!(d3.display(), "++\n|Hello, Universe.|\n++\n");
    let many = d3.multi_display(5);
    assert_eq!(many, format!("++\n{}++\n", "|Hello, Universe.|\n".repeat(5)));
}

