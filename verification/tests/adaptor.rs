use design_patterns::adaptor::enum_base;
use design_patterns::adaptor::trait_base;
use design_patterns::adaptor::{Banner, Print, PrintBanner};

#[test]
fn adaptor_test() {
    let p = PrintBanner::new(Banner::new("Hello"));
    let weak = p.print_weak();
    let strong = p.print_strong();
    println!("{}{}", weak, strong);
    assert_eq!(weak, "(Hello)\n");
    assert_eq!(strong, "*Hello*\n");
}

fn print_enum(p: &enum_base::Print) -> String {
    format!("{}{}", p.print_weak(), p.print_strong())
}

#[test]
fn enum_base_test() {
    let p: enum_base::Print = enum_base::Print::of_print(Banner::new("Hello"));
    let out = print_enum(&p);
    println!("{}", out);
    assert_eq!(out, "(Hello)\n*Hello*\n");
}

fn print_dyn(p: &dyn trait_base::Print) -> String {
    format!("{}{}", p.print_weak(), p.print_strong())
}

#[test]
fn trait_base_test() {
    let print_banner = trait_base::PrintBanner::new(Banner::new("Hello"));
    let out = print_dyn(&print_banner);
    println!("{}", out);
    assert_eq!(out, "(Hello)\n*Hello*\n");
}

#[test]
fn banner_shows_empty_and_wide_text() {
    assert_eq!(Banner::new("").show_with_paren(), "()\n");
    assert_eq!(Banner::new("").show_with_aster(), "**\n");
    assert_eq!(Banner::new("昼間").show_with_paren(), "(昼間)\n");
}
