use design_patterns::decorator::enum_base::Display as EnumDisplay;
use design_patterns::decorator::{Display, FullBorder, SideBorder, StringDisplay};
use std::rc::Rc;

#[test]
fn decorator_test() {
    let b1 = Rc::new(StringDisplay::new("Hello, world."));
    let b2 = Rc::new(SideBorder::new(b1.clone(), '#'));
    let b3 = FullBorder::new(b2.clone());
    assert_eq!(b1.show(), "Hello, world.\n");
    assert_eq!(b2.show(), "#Hello, world.#\n");
    assert_eq!(b3.show(), "+---------------+\n|#Hello, world.#|\n+---------------+\n");
    let b4 = SideBorder::new(
        Rc::new(FullBorder::new(Rc::new(FullBorder::new(Rc::new(SideBorder::new(
            Rc::new(FullBorder::new(Rc::new(StringDisplay::new("Hello, world.")))),
            '*',
        )))))),
        '/',
    );
    let shown = b4.show();
    println!("{}", shown);
    assert_eq!(b4.get_rows(), 7);
    assert_eq!(b4.get_columns(), 23);
    assert_eq!(b4.get_row_text(3), "/||*|Hello, world.|*||/");
    assert_eq!(b4.get_row_text(0), "/+-------------------+/");
}

#[test]
fn decorator_dyn_underlying() {
    let inner: Rc<dyn Display> = Rc::new(StringDisplay::new("ab"));
    let side: Rc<dyn Display> = Rc::new(SideBorder::new(inner, '!'));
    let full: FullBorder = FullBorder::new(side);
    assert_eq!(full.show(), "+----+\n|!ab!|\n+----+\n");
}

#[test]
fn decorator_enum_base_test() {
    let b1 = Rc::new(EnumDisplay::of_string("Hello, world."));
    let b2 = Rc::new(EnumDisplay::of_side_border(b1.clone(), '#'));
    let b3 = EnumDisplay::of_full_border(b2.clone());
    assert_eq!(b1.show(), "Hello, world.\n");
    assert_eq!(b2.show(), "#Hello, world.#\n");
    assert_eq!(b3.show(), "+---------------+\n|#Hello, world.#|\n+---------------+\n");
    let b4 = EnumDisplay::of_side_border(
        Rc::new(EnumDisplay::of_full_border(Rc::new(EnumDisplay::of_full_border(Rc::new(
            EnumDisplay::of_side_border(
                Rc::new(EnumDisplay::of_full_border(Rc::new(EnumDisplay::of_string("Hello, world.")))),
                '*',
            ),
        ))))),
        '/',
    );
    println!("{}", b4.show());
    assert_eq!(b4.get_rows(), 7);
    assert_eq!(b4.get_columns(), 23);
    assert_eq!(b4.get_row_text(3), "/||*|Hello, world.|*||/");
}

#[test]
fn decorator_columns_count_bytes() {
    let d = EnumDisplay::of_string("昼間");
    assert_eq!(d.get_columns(), 6);
    let s = StringDisplay::new("昼間");
    assert_eq!(s.get_columns(), 6);
    assert_eq!(EnumDisplay::make_line('-', 3), "---");
}
