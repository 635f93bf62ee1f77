use design_patterns::strategy::enum_base::{Hand, Strategy};

#[test]
fn strategy_enum_hands_and_draws() {
    assert!(matches!(Hand::get_hand(0), Hand::Rock));
    assert!(matches!(Hand::get_hand(1), Hand::Paper));
    assert!(matches!(Hand::get_hand(2), Hand::Scissors));
    assert!(matches!(Hand::get_hand(200), Hand::Scissors));
    assert!(Hand::Rock.is_stronger_than(Hand::Scissors));
    assert!(Hand::Scissors.is_stronger_than(Hand::Paper));
    assert!(Hand::Paper.is_stronger_than(Hand::Rock));
    assert!(!Hand::Rock.is_stronger_than(Hand::Paper));
    assert!(!Hand::Rock.is_stronger_than(Hand::Rock));

    let mut winning = Strategy::of_winning();
    assert!(matches!(winning.next_hand_with(1), Hand::Paper));
    winning.study(true);
    assert!(matches!(winning.next_hand_with(2), Hand::Paper));
    winning.study(false);
    assert!(matches!(winning.next_hand_with(2), Hand::Scissors));

    let mut probe = Strategy::of_probe();
    assert_eq!(Strategy::get_sum(&[[1, 2, 3], [4, 5, 6], [7, 8, 9]], 1), 15);
    assert!(matches!(probe.next_hand_with(0), Hand::Rock));
    assert!(matches!(probe.next_hand_with(1), Hand::Paper));
    assert!(matches!(probe.next_hand_with(3), Hand::Scissors));
    probe.study(false);
    match &probe {
        Strategy::Probe { prev_hand_value, current_hand_value, history, .. } => {
            assert_eq!(*prev_hand_value, 1);
            assert_eq!(*current_hand_value, 2);
            assert_eq!(*history, [[1, 1, 1], [2, 2, 1], [1, 1, 1]]);
        }
        _ => panic!("a probing strategy stays one"),
    }
    probe.study(true);
    match &probe {
        Strategy::Probe { history, .. } => assert_eq!(*history, [[1, 1, 1], [2, 2, 2], [1, 1, 1]]),
        _ => panic!("a probing strategy stays one"),
    }
    for _ in 0..100 {
        let mut fresh = Strategy::of_winning();
        let hand = fresh.next_hand();
        assert!(matches!(hand, Hand::Rock | Hand::Paper | Hand::Scissors));
    }
}
