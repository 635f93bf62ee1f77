use design_patterns::command::generic_base::{Command, DoubleEchoCommand, EchoCommand, MacroCommand};

#[test]
fn command_generic_base_test() {
    let mut mc = MacroCommand::new();
    mc.append(EchoCommand::new("Hello"));
    let out = mc.execute();
    println!("{}", out);
    assert_eq!(out, "Hello\n");
    assert_eq!(DoubleEchoCommand::new("ab").execute(), "abab\n");
    mc.append(EchoCommand::new("World"));
    mc.undo();
    assert_eq!(mc.execute(), "World\n");
}
