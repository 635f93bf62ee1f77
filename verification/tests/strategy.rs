use design_patterns::strategy::enum_base;
use design_patterns::strategy::trait_base;
use design_patterns::strategy::Hand;

#[test]
fn strategy_enum_base_test() {
    let mut player1 = enum_base::Player::new("Taro", enum_base::Strategy::of_winning());
    let mut player2 = enum_base::Player::new("Hana", enum_base::Strategy::of_probe());
    let mut wins1 = 0;
    let mut wins2 = 0;
    for _ in 0..10000 {
        let next_hand1 = player1.next_hand();
        let next_hand2 = player2.next_hand();
        if next_hand1.is_stronger_than(next_hand2) {
            player1.win();
            player2.lose();
            wins1 += 1;
        } else if next_hand2.is_stronger_than(next_hand1) {
            player1.lose();
            player2.win();
            wins2 += 1;
        } else {
            player1.even();
            player2.even();
        }
    }
    println!("Total result:");
    println!("{}", player1.to_string());
    println!("{}", player2.to_string());
    assert_eq!(player1.to_string(), format!("[Taro: 10000 games, {} win, {} lose]", wins1, wins2));
    assert_eq!(player2.to_string(), format!("[Hana: 10000 games, {} win, {} lose]", wins2, wins1));
}

#[test]
fn strategy_trait_base_test() {
    let mut player1: trait_base::Player =
        trait_base::Player::new("Taro", Box::new(trait_base::WinningStrategy::new()));
    let mut player2: trait_base::Player =
        trait_base::Player::new("Hana", Box::new(trait_base::ProbeStrategy::new()));
    let mut wins1 = 0;
    let mut wins2 = 0;
    for _ in 0..10000 {
        let next_hand1 = player1.next_hand();
        let next_hand2 = player2.next_hand();
        if next_hand1.is_stronger_than(next_hand2) {
            player1.win();
            player2.lose();
            wins1 += 1;
        } else if next_hand2.is_stronger_than(next_hand1) {
            player1.lose();
            player2.win();
            wins2 += 1;
        } else {
            player1.even();
            player2.even();
        }
    }
    assert_eq!(player1.to_string(), format!("[Taro: 10000 games, {} win, {} lose]", wins1, wins2));
    assert_eq!(player2.to_string(), format!("[Hana: 10000 games, {} win, {} lose]", wins2, wins1));
}

#[test]
fn strategy_japanese_hands() {
    assert_eq!(Hand::get_hand(0), Hand::GUU);
    assert_eq!(Hand::get_hand(1), Hand::CHO);
    assert_eq!(Hand::get_hand(2), Hand::PAA);
    assert_eq!(Hand::GUU.name(), "グー");
    assert_eq!(Hand::CHO.name(), "チョキ");
    assert_eq!(Hand::PAA.to_string(), "パー");
    assert_eq!(Hand::PAA.hand_value(), 2);
    assert_eq!(Hand::GUU.fight(Hand::GUU), 0);
    assert_eq!(Hand::GUU.fight(Hand::CHO), 1);
    assert_eq!(Hand::GUU.fight(Hand::PAA), -1);
    assert_eq!(Hand::PAA.fight(Hand::GUU), 1);
    assert!(Hand::CHO.is_stronger_than(Hand::PAA));
    assert!(Hand::CHO.is_weaker_than(Hand::GUU));
    assert!(!Hand::CHO.is_weaker_than(Hand::CHO));
    assert!(!Hand::CHO.is_stronger_than(Hand::CHO));
}
