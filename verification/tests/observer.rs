use design_patterns::observer::enum_base;
use design_patterns::observer::trait_base::{
    DigitObserver, GraphObserver, NumberGenerator, Observer, RandomNumberGenerator,
};
use design_patterns::observer::{digit_line_string, graph_line_string};
use std::rc::Rc;

fn check_run(out: &str, largest: u32) {
    let lines: Vec<&str> = out.lines().collect();
    assert_eq!(lines.len(), 40);
    let mut i = 0;
    while i < 40 {
        let number: u32 = lines[i].strip_prefix("DigitObserver:").unwrap().parse().unwrap();
        assert!(number <= largest);
        assert_eq!(lines[i + 1], format!("GraphObserver:{}", "*".repeat(number as usize)));
        i += 2;
    }
    assert!(out.ends_with('\n'));
}

#[test]
fn observer_enum_base_test() {
    let mut generator = enum_base::NumberGenerator::of_random();
    let observer1 = enum_base::Observer::Digit;
    let observer2 = enum_base::Observer::Graph;
    generator.add_observer(observer1);
    generator.add_observer(observer2);
    let out = generator.execute();
    println!("{}", out);
    check_run(&out, 48);
    let lines: Vec<&str> = out.lines().collect();
    assert_eq!(generator.notify_observers(), format!("{}\n{}\n", lines[38], lines[39]));
    assert_eq!(lines[38], format!("DigitObserver:{}", generator.get_number()));
}

#[test]
fn observer_trait_base_test() {
    let mut generator = RandomNumberGenerator::new();
    let observer1 = DigitObserver::new();
    let observer2 = GraphObserver::new();
    generator.add_observer(Box::new(observer1));
    generator.add_observer(Box::new(observer2));
    let out = generator.execute();
    println!("{}", out);
    check_run(&out, 49);
}

#[test]
fn observer_lines() {
    assert_eq!(digit_line_string(0), "DigitObserver:0\n");
    assert_eq!(digit_line_string(49), "DigitObserver:49\n");
    assert_eq!(graph_line_string(0), "GraphObserver:\n");
    assert_eq!(graph_line_string(3), "GraphObserver:***\n");
    assert_eq!(DigitObserver::new().update(12), "DigitObserver:12\n");
    assert_eq!(GraphObserver::new().update(2), "GraphObserver:**\n");
}

#[test]
fn observer_trait_base_add_and_delete() {
    let mut generator = RandomNumberGenerator::new();
    assert_eq!(generator.get_number(), 0);
    assert_eq!(generator.notify_observers(), "");
    generator.add_observer(Box::new(DigitObserver::new()));
    generator.add_observer(Box::new(GraphObserver::new()));
    generator.add_observer(Box::new(DigitObserver::new()));
    assert_eq!(
        generator.execute_with(4),
        "DigitObserver:4\nGraphObserver:****\nDigitObserver:4\n"
    );
    assert_eq!(generator.get_number(), 4);
    generator.delete_observer(0);
    assert_eq!(generator.notify_observers(), "GraphObserver:****\nDigitObserver:4\n");
    generator.delete_observer(1);
    assert_eq!(generator.execute_with(1), "GraphObserver:*\n");
}

struct Doubler;

impl enum_base::AnyObserver for Doubler {
    fn update_text(&self, _number: u32) -> vstd::seq::Seq<char> {
        unreachable!()
    }

    fn update(&self, number: u32) -> String {
        format!("twice:{}\n", 2 * number)
    }
}

#[test]
fn observer_enum_base_any_observer_and_delete() {
    let mut generator = enum_base::NumberGenerator::of_random();
    generator.add_observer(enum_base::Observer::Graph);
    generator.add_observer(enum_base::Observer::Any(Rc::new(Doubler)));
    generator.add_observer(enum_base::Observer::Digit);
    assert_eq!(generator.execute_with(3), "GraphObserver:***\ntwice:6\nDigitObserver:3\n");
    assert_eq!(generator.get_number(), 3);
    generator.delete_observer(1);
    assert_eq!(generator.notify_observers(), "GraphObserver:***\nDigitObserver:3\n");
    assert_eq!(enum_base::Observer::<dyn enum_base::AnyObserver>::Digit.update(&generator), "DigitObserver:3\n");
    let mut inner = enum_base::RandomNumberNumberGenerator::new();
    inner.set_number(7);
    assert_eq!(inner.get_number(), 7);
    let mut smallest = u32::MAX;
    let mut largest = 0;
    for _ in 0..400 {
        inner.draw();
        let number = inner.get_number();
        assert!(number < 49);
        smallest = smallest.min(number);
        largest = largest.max(number);
    }
    assert!(smallest < 20);
    assert!(largest > 28);
}

#[test]
fn observer_handles_and_copies() {
    let mut generator = enum_base::NumberGenerator::of_random();
    let shared: Rc<dyn enum_base::AnyObserver> = Rc::new(Doubler);
    let any = enum_base::Observer::Any(shared.clone());
    generator.add_observer(any.clone());
    generator.add_observer(enum_base::Observer::Digit.clone());
    assert_eq!(Rc::strong_count(&shared), 3);
    assert_eq!(generator.get_observers().len(), 2);
    assert_eq!(generator.execute_with(2), "twice:4\nDigitObserver:2\n");
    let mut boxed = RandomNumberGenerator::new();
    boxed.add_observer(Box::new(GraphObserver::new()));
    assert_eq!(boxed.get_observers().len(), 1);
    assert_eq!(boxed.get_observers()[0].update(1), "GraphObserver:*\n");
}
