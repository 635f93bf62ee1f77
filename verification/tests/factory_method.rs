use design_patterns::factory_method::{Factory, IdCard, IdCardFactory, Product};

#[test]
fn factory_method_test() {
    let mut factory = IdCardFactory::new();
    let (card1, made1) = factory.create("Hiroshi Yuki");
    let (card2, made2) = factory.create("Tomura");
    let (card3, made3) = factory.create("Hanako Sato");
    println!("{}{}{}", made1, made2, made3);
    assert_eq!(made1, "Hiroshi Yukiのカードを作ります\n[IdCard:Hiroshi Yuki]を登録しました\n");
    assert_eq!(made2, "Tomuraのカードを作ります\n[IdCard:Tomura]を登録しました\n");
    assert_eq!(made3, "Hanako Satoのカードを作ります\n[IdCard:Hanako Sato]を登録しました\n");
    assert_eq!(card1.use_it(), "Hiroshi Yukiを使います\n");
    assert_eq!(card2.use_it(), "Tomuraを使います\n");
    assert_eq!(card3.use_it(), "Hanako Satoを使います\n");
}

#[test]
fn factory_method_card_alone() {
    let (card, made) = IdCard::new("A");
    assert_eq!(made, "Aのカードを作ります\n");
    assert_eq!(card.owner(), "A");
    assert_eq!(card.to_string(), "[IdCard:A]");
    let mut factory = IdCardFactory::new();
    let (product, text) = factory.create_product("B");
    assert_eq!(text, "Bのカードを作ります\n");
    assert_eq!(factory.register_product(&product), "[IdCard:B]を登録しました\n");
}
