use design_patterns::template_method::{AbstractDisplay, CharDisplay, StringDisplay};
use design_patterns::template_method_new::DisplayType;

fn display_generic<T: AbstractDisplay>(ad: T) -> String {
    ad.display()
}

fn display_impl(ad: impl AbstractDisplay) -> String {
    ad.display()
}

fn display_dyn(ad: Box<dyn AbstractDisplay>) -> String {
    ad.display()
}

#[test]
fn _1_usage_static_dispatch_generic() {
    let d1: CharDisplay = CharDisplay::new('H');
    let d2: StringDisplay = StringDisplay::new("Hello,world.".to_owned());
    assert_eq!(display_generic(d1), "<<HHHHH>>\n");
    assert_eq!(display_generic(d2), format!("<<{}>>\n", "Hello,world.".repeat(5)));
}

#[test]
fn _2_usage_static_dispatch_impl_trait() {
    let d1: CharDisplay = CharDisplay::new('H');
    let d2: StringDisplay = StringDisplay::new("Hello,world.".to_owned());
    assert_eq!(display_impl(d1), "<<HHHHH>>\n");
    assert_eq!(display_impl(d2), format!("<<{}>>\n", "Hello,world.".repeat(5)));
}

#[test]
fn _3_usage_dynamic_dispatch() {
    let d1: Box<dyn AbstractDisplay> = Box::new(CharDisplay::new('H'));
    let d2: Box<dyn AbstractDisplay> = Box::new(StringDisplay::new("Hello,world.".to_owned()));
    assert_eq!(display_dyn(d1), "<<HHHHH>>\n");
    assert_eq!(display_dyn(d2), format!("<<{}>>\n", "Hello,world.".repeat(5)));
}

#[test]
fn template_method_new_test() {
    let d1 = DisplayType::Char('H');
    let d2 = DisplayType::String("Hello,world.".to_owned());
    let out1 = d1.display();
    let out2 = d2.display();
    println!("{}{}", out1, out2);
    assert_eq!(out1, "<<HHHHH>>\n");
    assert_eq!(out2, format!("+------------+\n{}+------------+\n", "|Hello,world.|\n".repeat(5)));
}

#[test]
fn template_method_steps() {
    let c = CharDisplay::new('昼');
    assert_eq!(c.open(), "<<");
    assert_eq!(c.print(), "昼");
    assert_eq!(c.close(), ">>\n");
    let wide = DisplayType::String("昼".to_owned());
    assert_eq!(wide.print_line(), "+---+\n");
    assert_eq!(wide.open(), "+---+\n");
    assert_eq!(wide.print(), "|昼|\n");
    assert_eq!(DisplayType::Char('x').print_line(), "");
    assert_eq!(DisplayType::String(String::new()).display(), "++\n||\n||\n||\n||\n||\n++\n");
}
