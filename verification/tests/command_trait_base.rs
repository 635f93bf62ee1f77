use design_patterns::command::trait_base::{Command, EchoCommand, MacroCommand};

#[test]
fn command_trait_base_test() {
    let mut mc = MacroCommand::new();
    mc.append(Box::new(EchoCommand::new("Hello")));
    let out = mc.execute();
    println!("{}", out);
    assert_eq!(out, "Hello\n");
}

#[test]
fn command_trait_base_undo_takes_back_the_last() {
    let mut mc = MacroCommand::new();
    mc.append(Box::new(EchoCommand::new("a")));
    mc.append(Box::new(EchoCommand::new("b")));
    let mut nested = MacroCommand::new();
    nested.append(Box::new(EchoCommand::new("n")));
    mc.append(Box::new(nested));
    assert_eq!(mc.execute(), "a\nb\nn\n");
    mc.undo();
    assert_eq!(mc.execute(), "a\nb\n");
    mc.undo();
    mc.undo();
    mc.undo();
    assert_eq!(mc.execute(), "");
}
