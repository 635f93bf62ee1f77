use design_patterns::command::enum_base;
use design_patterns::command::{Command, EchoCommand, MacroCommand};
use std::collections::VecDeque;

#[test]
fn command_test() {
    let mut mc = MacroCommand::new();
    mc.append(Box::new(EchoCommand::new("Hello")));
    let out = mc.execute();
    println!("{}", out);
    assert_eq!(out, "Hello\n");
}

#[test]
fn command_undo_takes_back_the_first() {
    let mut mc = MacroCommand::new();
    mc.undo();
    assert_eq!(mc.execute(), "");
    mc.append(Box::new(EchoCommand::new("a")));
    mc.append(Box::new(EchoCommand::new("b")));
    mc.append(Box::new(EchoCommand::new("c")));
    assert_eq!(mc.execute(), "a\nb\nc\n");
    mc.undo();
    assert_eq!(mc.execute(), "b\nc\n");
    mc.clear();
    assert_eq!(mc.execute(), "");
}

#[test]
fn command_enum_base_test() {
    let mut mc = enum_base::Command::of_macro_with_empty_commands();
    mc.as_macro_mut().unwrap().append(enum_base::Command::of_echo("Hello"));
    let out = mc.execute();
    println!("{}", out);
    assert_eq!(out, "Hello\n");
}

#[test]
fn command_enum_nested_macros() {
    let mut inner = VecDeque::new();
    inner.push_back(enum_base::Command::of_echo("x"));
    inner.push_back(enum_base::Command::Double("y".to_owned()));
    let mut outer = enum_base::Command::of_macro_with_empty_commands();
    outer.as_macro_mut().unwrap().append(enum_base::Command::of_echo("first"));
    outer.as_macro_mut().unwrap().append(enum_base::Command::of_macro(inner));
    assert_eq!(outer.execute(), "first\nx\nyy\n");
    outer.as_macro_mut().unwrap().undo();
    assert_eq!(outer.execute(), "x\nyy\n");
    outer.as_macro_mut().unwrap().clear();
    assert_eq!(outer.execute(), "");
    let mut echo = enum_base::Command::of_echo("e");
    assert!(echo.as_macro().is_none());
    assert!(echo.as_macro_mut().is_none());
}
