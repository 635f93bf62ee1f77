use design_patterns::flyweight::{BigChar, BigCharFactory, BigString};
use std::cell::Cell;
use std::rc::Rc;

fn picture(c: char) -> String {
    format!("[{}{}{}]\n", c, c, c)
}

#[test]
fn flyweight_test() {
    let loads = Cell::new(0u32);
    let load = |c: char| {
        loads.set(loads.get() + 1);
        picture(c)
    };
    let mut factory = BigCharFactory::new();
    let bs = BigString::new("1928374650564738291", &mut factory, &load);
    let shown = bs.to_string();
    println!("{}", shown);
    let mut expected = String::new();
    for c in "1928374650564738291".chars() {
        expected.push_str(&picture(c));
    }
    assert_eq!(shown, expected);
    assert_eq!(loads.get(), 10);
    let again = BigString::new("0123456789", &mut factory, &load);
    assert_eq!(loads.get(), 10);
    assert_eq!(again.to_string().len(), 60);
}

#[test]
fn flyweight_factory_shares_what_it_keeps() {
    let loads = Cell::new(0u32);
    let load = |c: char| {
        loads.set(loads.get() + 1);
        picture(c)
    };
    let mut factory = BigCharFactory::new();
    let a = factory.get_big_char('a', &load);
    let b = factory.get_big_char('b', &load);
    let a2 = factory.get_big_char('a', &load);
    assert!(Rc::ptr_eq(&a, &a2));
    assert!(!Rc::ptr_eq(&a, &b));
    assert_eq!(loads.get(), 2);
    assert_eq!(a.to_string(), "[aaa]\n");
    assert_eq!(b.to_string(), "[bbb]\n");
    assert_eq!(Rc::strong_count(&a), 3);
}

#[test]
fn flyweight_empty_string_and_plain_char() {
    let load = |c: char| picture(c);
    let mut factory = BigCharFactory::new();
    let empty = BigString::new("", &mut factory, &load);
    assert_eq!(empty.to_string(), "");
    let big = BigChar::new('昼', "day\n".to_owned());
    assert_eq!(big.to_string(), "day\n");
    let wide = BigString::new("昼昼", &mut factory, &load);
    assert_eq!(wide.to_string(), "[昼昼昼]\n[昼昼昼]\n");
}
