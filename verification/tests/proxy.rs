use design_patterns::proxy::{Printable, Printer, PrinterProxy};

const MAKING_BLOB: &str = "Printerのインスタンス(Blob)を生成中.\n.\n.\n.\n.\n完了。\n";

#[test]
fn proxy_test() {
    let mut p = PrinterProxy::new("Alice");
    println!("名前は現在{}です。", p.get_printer_name());
    assert_eq!(p.get_printer_name(), "Alice");
    p.set_printer_name("Blob");
    println!("名前は現在{}です。", p.get_printer_name());
    assert_eq!(p.get_printer_name(), "Blob");
    let out = p.print("Hello, world.");
    println!("{}", out);
    assert_eq!(out, format!("{}=== Blob ===\nHello, world.\n", MAKING_BLOB));
    assert_eq!(p.print("Again."), "=== Blob ===\nAgain.\n");
}

#[test]
fn proxy_printer_itself() {
    let (mut printer, made) = Printer::new("P");
    assert_eq!(made, "Printerのインスタンス(P)を生成中.\n.\n.\n.\n.\n完了。\n");
    assert_eq!(printer.print("t"), "=== P ===\nt\n");
    printer.set_printer_name("Q");
    assert_eq!(printer.get_printer_name(), "Q");
    assert_eq!(Printer::heavy_job("work"), "work.\n.\n.\n.\n.\n完了。\n");
}

#[test]
fn proxy_renamed_after_it_was_realized() {
    let mut p = PrinterProxy::new("A");
    assert_eq!(p.realize(), "Printerのインスタンス(A)を生成中.\n.\n.\n.\n.\n完了。\n");
    assert_eq!(p.realize(), "");
    p.set_printer_name("B");
    assert_eq!(p.print("t"), "=== B ===\nt\n");
}
