use design_patterns::proxy::enum_base::{Printable, PrintableBehavior};

const MAKING_BLOB: &str = "Printerのインスタンス(Blob)を生成中.\n.\n.\n.\n.\n完了。\n";

fn process(p: &mut Printable) -> String {
    let mut out = format!("名前は現在{}です。\n", p.get_printer_name());
    p.set_printer_name("Blob");
    out.push_str(&format!("名前は現在{}です。\n", p.get_printer_name()));
    out.push_str(&p.print("Hello, world."));
    out
}

#[test]
fn proxy_enum_base_test() {
    let mut proxy = Printable::of_printer_proxy("Alice");
    let out = process(&mut proxy);
    println!("{}", out);
    assert_eq!(
        out,
        format!("名前は現在Aliceです。\n名前は現在Blobです。\n{}=== Blob ===\nHello, world.\n", MAKING_BLOB)
    );
}

#[test]
fn proxy_enum_printer_made_at_once() {
    let (mut direct, text) = Printable::of_printer("D");
    assert_eq!(text, "Printerのインスタンス(D)を生成中.\n.\n.\n.\n.\n完了。\n");
    assert_eq!(direct.print("x"), "=== D ===\nx\n");
    assert_eq!(direct.get_printer_name(), "D");
}
