use design_patterns::strategy::trait_base::{Hand, ProbeStrategy, Strategy, WinningStrategy};

#[test]
fn strategy_trait_draws() {
    let mut winning = WinningStrategy::new();
    assert!(matches!(winning.next_hand_with(0), Hand::Rock));
    winning.study(true);
    assert!(matches!(winning.next_hand_with(2), Hand::Rock));
    assert!(matches!(winning.next_hand(), Hand::Rock));
    let mut probe = ProbeStrategy::new();
    assert_eq!(probe.get_sum(0), 3);
    assert!(matches!(probe.next_hand_with(2), Hand::Scissors));
    probe.study(true);
    assert_eq!(probe.get_sum(0), 4);
    assert!(matches!(probe.next_hand_with(0), Hand::Rock));
    probe.study(false);
    assert_eq!(probe.get_sum(2), 5);
}

#[test]
fn strategy_trait_clones_keep_what_was_learnt() {
    let mut winning = WinningStrategy::new();
    winning.next_hand_with(1);
    winning.study(true);
    let mut copy = winning.clone();
    assert!(matches!(copy.next_hand_with(2), Hand::Paper));
    let mut probe = ProbeStrategy::new();
    probe.next_hand_with(2);
    probe.study(true);
    let copy = probe.clone();
    assert_eq!(copy.get_sum(0), 4);
    assert_eq!(copy.get_sum(1), 3);
}
