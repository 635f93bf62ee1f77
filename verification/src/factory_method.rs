//! Factories that make products and register each one they make.

use std::rc::Rc;
use vstd::prelude::*;
use vstd::string::*;

verus! {

/// Something that a factory makes and that can be used.
pub trait Product {
    /// How the product is written.
    spec fn label(&self) -> Seq<char>;

    /// What using the product writes.
    spec fn use_text(&self) -> Seq<char>;

    fn to_string(&self) -> (out: String)
        ensures
            out@ == self.label(),
    ;

    fn use_it(&self) -> (out: String)
        ensures
            out@ == self.use_text(),
    ;
}

/// Makes products of one type for their owners.
pub trait Factory {
    type P: Product;

    /// `product` is the product that the factory makes for `owner`.
    spec fn makes(&self, owner: Seq<char>, product: Self::P) -> bool;

    /// What making a product for `owner` writes.
    spec fn creation_text(&self, owner: Seq<char>) -> Seq<char>;

    /// What registering `product` writes.
    spec fn registration_text(&self, product: Self::P) -> Seq<char>;

    fn create_product(&self, owner: &str) -> (made: (Rc<Self::P>, String))
        ensures
            self.makes(owner@, *made.0),
            made.1@ == self.creation_text(owner@),
    ;

    fn register_product(&mut self, product: &Rc<Self::P>) -> (out: String)
        ensures
            out@ == old(self).registration_text(**product),
    ;

    /// Makes a product for `owner` and registers it. Gives the product
    /// and what was written on the way.
    fn create(&mut self, owner: &str) -> (made: (Rc<Self::P>, String))
        ensures
            old(self).makes(owner@, *made.0),
            made.1@ == old(self).creation_text(owner@) + old(self).registration_text(*made.0),
    {
        let (p, mut out) = self.create_product(owner);
        let registered = self.register_product(&p);
        out.append(registered.as_str());
        (p, out)
    }
}

/// A card that names its owner.
#[derive(Debug)]
pub struct IdCard {
    owner: String,
}

impl IdCard {
    pub closed spec fn spec_owner(&self) -> Seq<char> {
        self.owner@
    }

    /// Makes a card, and gives it with the line that its making writes.
    pub fn new(owner: &str) -> (made: (Self, String))
        ensures
            made.0.spec_owner() == owner@,
            made.1@ == owner@ + "のカードを作ります\n"@,
    {
        let mut out = String::from_str(owner);
        out.append("のカードを作ります\n");
        (Self { owner: owner.to_owned() }, out)
    }

    pub fn owner(&self) -> (owner: &str)
        ensures
            owner@ == self.spec_owner(),
    {
        self.owner.as_str()
    }
}

impl Product for IdCard {
    open spec fn label(&self) -> Seq<char> {
        "[IdCard:"@ + self.spec_owner() + "]"@
    }

    open spec fn use_text(&self) -> Seq<char> {
        self.spec_owner() + "を使います\n"@
    }

    fn to_string(&self) -> (out: String) {
        let mut out = String::from_str("[IdCard:");
        out.append(self.owner.as_str());
        out.append("]");
        out
    }

    fn use_it(&self) -> (out: String) {
        let mut out = self.owner.clone();
        out.append("を使います\n");
        out
    }
}

/// The factory of cards.
#[derive(Debug)]
pub struct IdCardFactory;

impl IdCardFactory {
    pub fn new() -> Self {
        Self
    }
}

impl Factory for IdCardFactory {
    type P = IdCard;

    open spec fn makes(&self, owner: Seq<char>, product: IdCard) -> bool {
        product.spec_owner() == owner
    }

    open spec fn creation_text(&self, owner: Seq<char>) -> Seq<char> {
        owner + "のカードを作ります\n"@
    }

    open spec fn registration_text(&self, product: IdCard) -> Seq<char> {
        product.label() + "を登録しました\n"@
    }

    fn create_product(&self, owner: &str) -> (made: (Rc<IdCard>, String)) {
        let (card, out) = IdCard::new(owner);
        (Rc::new(card), out)
    }

    fn register_product(&mut self, product: &Rc<IdCard>) -> (out: String) {
        let mut out = product.to_string();
        out.append("を登録しました\n");
        out
    }
}

} // verus!
