use design_patterns::mediator::{
    same_text, Colleague, ConcreteColleagueA, ConcreteColleagueB, ConcreteMediator, Mediator,
};

#[test]
fn mediator_test() {
    let mut mediator = ConcreteMediator::new();
    let colleague_a = ConcreteColleagueA::new("A");
    let colleague_b = ConcreteColleagueB::new("B");

    mediator.add_colleague(Box::new(ConcreteColleagueA::new("A")));
    mediator.add_colleague(Box::new(ConcreteColleagueB::new("B")));

    let from_a = mediator.run(&colleague_a);
    let from_b = mediator.run(&colleague_b);
    println!("{}{}", from_a, from_b);
    assert_eq!(from_a, "B received: Hello\n");
    assert_eq!(from_b, "A received: Hi\n");
}

#[test]
fn mediator_tells_all_but_the_sender_in_order() {
    let mut mediator = ConcreteMediator::new();
    assert_eq!(mediator.colleague_changed("x", "m"), "");
    mediator.add_colleague(Box::new(ConcreteColleagueA::new("A")));
    mediator.add_colleague(Box::new(ConcreteColleagueB::new("B")));
    mediator.add_colleague(Box::new(ConcreteColleagueA::new("C")));
    assert_eq!(mediator.colleague_changed("B", "m"), "A received: m\nC received: m\n");
    assert_eq!(
        mediator.colleague_changed("nobody", "m"),
        "A received: m\nB received: m\nC received: m\n"
    );
    mediator.add_colleague(Box::new(ConcreteColleagueB::new("A")));
    assert_eq!(mediator.colleague_changed("C", "again"), "A received: again\nB received: again\n");
}

#[test]
fn mediator_colleagues_alone() {
    let mut a = ConcreteColleagueA::new("A");
    assert_eq!(a.name(), "A");
    assert_eq!(a.run(), "Hello");
    assert_eq!(a.on_changed("x"), "A received: x\n");
    assert_eq!(ConcreteColleagueB::new("B").run(), "Hi");
    assert!(same_text("ab", "ab"));
    assert!(!same_text("ab", "abc"));
}

#[test]
fn mediator_keeps_one_colleague_for_each_name() {
    let mut mediator = ConcreteMediator::new();
    mediator.add_colleague(Box::new(ConcreteColleagueA::new("A")));
    mediator.add_colleague(Box::new(ConcreteColleagueA::new("A")));
    mediator.add_colleague(Box::new(ConcreteColleagueB::new("A")));
    assert_eq!(mediator.colleague_changed("x", "m"), "A received: m\n");
    mediator.add_colleague(Box::new(ConcreteColleagueB::new("B")));
    mediator.add_colleague(Box::new(ConcreteColleagueB::new("A")));
    assert_eq!(mediator.colleague_changed("x", "m"), "A received: m\nB received: m\n");
}
