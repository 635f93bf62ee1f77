use design_patterns::chain_of_responsibility::enum_base::Support as EnumSupport;
use design_patterns::chain_of_responsibility::trait_base::{
    LimitSupport, NoSupport, OddSupport, SpecialSupport, Support,
};
use design_patterns::chain_of_responsibility::Trouble;
use std::rc::Rc;

fn expected_lines() -> Vec<String> {
    let mut lines = Vec::new();
    let mut i = 0;
    while i < 500 {
        let who = if i < 100 {
            Some("[Bob@LimitSupport]")
        } else if i == 429 {
            Some("[Charlie@SpecialSupport]")
        } else if i < 200 {
            Some("[Diana@LimitSupport]")
        } else if i % 2 == 1 {
            Some("[Elmo@OddSupport]")
        } else if i < 300 {
            Some("[Fred@LimitSupport]")
        } else {
            None
        };
        lines.push(match who {
            Some(w) => format!("[Trouble {}] is resolved by {}.\n", i, w),
            None => format!("[Trouble {}] cannot be resolved.\n", i),
        });
        i += 33;
    }
    lines
}

#[test]
fn chain_enum_base_test() {
    let fred = Rc::new(EnumSupport::of_limit("Fred", 300, None));
    let elmo = Rc::new(EnumSupport::of_odd("Elmo", Some(fred)));
    let diana = Rc::new(EnumSupport::of_limit("Diana", 200, Some(elmo)));
    let charlie = Rc::new(EnumSupport::of_special("Charlie", 429, Some(diana)));
    let bob = Rc::new(EnumSupport::of_limit("Bob", 100, Some(charlie)));
    let alice = EnumSupport::of_no("Alice", Some(bob));

    let mut lines = Vec::new();
    for i in (0..500).step_by(33) {
        let t = Trouble::new(i);
        let line = alice.support(&t);
        println!("{}", line);
        lines.push(line);
    }
    assert_eq!(lines, expected_lines());
    assert_eq!(lines[0], "[Trouble 0] is resolved by [Bob@LimitSupport].\n");
    assert_eq!(lines[13], "[Trouble 429] is resolved by [Charlie@SpecialSupport].\n");
    assert_eq!(lines[12], "[Trouble 396] cannot be resolved.\n");
}

#[test]
fn chain_trait_base_test() {
    let fred = Rc::new(LimitSupport::new("Fred", 300, None));
    let elmo = Rc::new(OddSupport::new("Elmo", Some(fred)));
    let diana = Rc::new(LimitSupport::new("Diana", 200, Some(elmo)));
    let charlie = Rc::new(SpecialSupport::new("Charlie", 429, Some(diana)));
    let bob = Rc::new(LimitSupport::new("Bob", 100, Some(charlie)));
    let alice = NoSupport::new("Alice", Some(bob));

    let mut lines = Vec::new();
    for i in (0..500).step_by(33) {
        let t = Trouble::new(i);
        let line = alice.support(&t);
        println!("{}", line);
        lines.push(line);
    }
    assert_eq!(lines, expected_lines());
}

#[test]
fn chain_trouble_is_written_with_its_number() {
    assert_eq!(Trouble::new(0).to_string(), "[Trouble 0]");
    assert_eq!(Trouble::new(429).to_string(), "[Trouble 429]");
    assert_eq!(Trouble::new(u32::MAX).to_string(), "[Trouble 4294967295]");
    assert_eq!(Trouble::new(7).number(), 7);
}

#[test]
fn chain_of_one_support() {
    let odd = OddSupport::new("Odd", None);
    assert!(odd.resolve(&Trouble::new(1)));
    assert!(!odd.resolve(&Trouble::new(2)));
    assert_eq!(odd.support(&Trouble::new(2)), "[Trouble 2] cannot be resolved.\n");
    assert_eq!(odd.support(&Trouble::new(3)), "[Trouble 3] is resolved by [Odd@OddSupport].\n");
    let limit = EnumSupport::of_limit("L", 5, None);
    assert!(limit.resolve(&Trouble::new(4)));
    assert!(!limit.resolve(&Trouble::new(5)));
    let no = EnumSupport::of_no("N", None);
    assert_eq!(no.support(&Trouble::new(1)), "[Trouble 1] cannot be resolved.\n");
}
