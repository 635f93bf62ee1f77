use design_patterns::state::enum_base;
use design_patterns::state::trait_base::{Action, Context, Day, Night, Shift, State, StateContext};
use design_patterns::state::{daytime, hour_message_string, log_line_string, state_message_string};

fn label(hour: u32) -> &'static str {
    if (9..17).contains(&hour) {
        "[昼間]"
    } else {
        "[夜間]"
    }
}

fn action(hour: u32) -> &'static str {
    let day = (9..17).contains(&hour);
    match (hour % 3, day) {
        (0, true) => "金庫使用(昼間)",
        (0, false) => "非常：夜間の金庫使用！",
        (1, true) => "非常ベル(昼間)",
        (1, false) => "非常ベル(夜間)",
        (_, true) => "通常の通話(昼間)",
        (_, false) => "夜間の通話録音",
    }
}

#[test]
fn state_enum_base_test() {
    let mut context = enum_base::StateContext::new(enum_base::State::Day);
    let out = context.run();
    println!("{}", out);
    let mut expected = String::new();
    for hour in 0..=24 {
        let l = label(hour);
        expected.push_str(&format!("{}:時刻は{}時になりました。\n", l, hour));
        expected.push_str(&format!("{}:現在の状態は{}です。\n", l, l));
        expected.push_str(&format!("{}:{}\n", l, action(hour)));
    }
    assert_eq!(out, expected);
}

#[test]
fn state_trait_base_test() {
    let mut context: StateContext = StateContext::new(Box::new(Day));
    let out = context.run();
    println!("{}", out);
    let mut expected = String::new();
    for hour in 0..=24 {
        expected.push_str(&format!("{}:{}\n", label(hour), action(hour)));
    }
    assert_eq!(out, expected);
    assert_eq!(context.record_log("end"), "[夜間]:end\n");
}

#[test]
fn state_enum_steps() {
    let mut context = enum_base::StateContext::new(enum_base::State::Night);
    let (state, logged) = enum_base::State::Night.do_clock(&mut context, 9);
    assert_eq!(state, enum_base::State::Day);
    assert_eq!(logged, "[昼間]:時刻は9時になりました。\n[昼間]:現在の状態は[昼間]です。\n");
    let (state, _) = enum_base::State::Day.do_clock(&mut context, 16);
    assert_eq!(state, enum_base::State::Day);
    let (state, _) = enum_base::State::Day.do_clock(&mut context, 17);
    assert_eq!(state, enum_base::State::Night);
    assert_eq!(enum_base::State::Night.do_use(&context), "[夜間]:非常：夜間の金庫使用！\n");
    assert_eq!(enum_base::State::Day.do_use(&context), "[夜間]:金庫使用(昼間)\n");
    assert_eq!(enum_base::State::Day.do_alarm(&context), "[夜間]:非常ベル(昼間)\n");
    assert_eq!(enum_base::State::Night.do_phone(&context), "[夜間]:夜間の通話録音\n");
    assert_eq!(enum_base::State::Day.opposite(), enum_base::State::Night);
    assert_eq!(enum_base::State::Night.to_string(), "[夜間]");
}

#[test]
fn state_trait_steps() {
    assert!(matches!(Day.do_clock(8), Some(Shift::Night)));
    assert!(Day.do_clock(9).is_none());
    assert!(Day.do_clock(16).is_none());
    assert!(matches!(Day.do_clock(17), Some(Shift::Night)));
    assert!(matches!(Night.do_clock(9), Some(Shift::Day)));
    assert!(Night.do_clock(17).is_none());
    assert!(matches!(Night.do_use(), Action::CallSecurityCenter("非常：夜間の金庫使用！")));
    assert!(matches!(Day.do_phone(), Action::RecordLog("通常の通話(昼間)")));
    assert_eq!(Day.to_string(), "[昼間]");
    let mut context: StateContext = StateContext::new(Box::new(Night));
    context.set_clock(10);
    assert_eq!(context.call_security_center("m"), "[昼間]:m\n");
    context.change_state(Box::new(Night));
    assert_eq!(context.perform(Action::RecordLog("x")), "[夜間]:x\n");
    assert!(daytime(9) && daytime(16) && !daytime(8) && !daytime(17));
    assert_eq!(hour_message_string(24), "時刻は24時になりました。");
    assert_eq!(state_message_string("[昼間]"), "現在の状態は[昼間]です。");
    assert_eq!(log_line_string("a", "b"), "a:b\n");
}
