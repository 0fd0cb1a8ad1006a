//! A closed family of pizzas, each knowing its menu name and toppings.
//!
//! Every pizza states its name and toppings twice: as specification
//! (`spec_name`, `spec_toppings`) and as executable code proved to match.
//! The family is a closed sum, [`NewYorkStylePizza`], so a factory can hand
//! any of its members back as one value.

use vstd::prelude::*;

verus! {

/// A pizza: something with a menu name and a list of toppings.  Presenting
/// steps such as baking or boxing are the caller's business; a pizza value
/// only answers what it is made of.
pub trait Pizza: Sized {
    /// The menu name.
    spec fn spec_name(self) -> Seq<char>;

    /// The toppings, in order.
    spec fn spec_toppings(self) -> Seq<Seq<char>>;

    /// The menu name of this pizza.
    fn name(&self) -> (r: String)
        ensures
            r@ == self.spec_name(),
    ;

    /// The toppings of this pizza, in order.
    fn toppings(&self) -> (r: Vec<String>)
        ensures
            r@.len() == self.spec_toppings().len(),
            forall|i: int|
                0 <= i < r@.len() ==> (#[trigger] r@[i])@ == self.spec_toppings()[i],
    ;
}

/// The menu of the New York store.
#[derive(Clone, Copy, Debug, PartialEq, Eq, Structural)]
pub enum NewYorkStylePizzaMenu {
    NYStyleCheesePizza,
    NYStyleMargheritaPizza,
    NYStylePepperoniPizza,
}

/// The cheese pizza of the New York store.
#[derive(Clone, Copy, Debug, PartialEq, Eq, Structural)]
pub struct NYStleCheesePizza;

/// The margherita pizza of the New York store.
#[derive(Clone, Copy, Debug, PartialEq, Eq, Structural)]
pub struct NYStyleMargheritaPizza;

/// The pepperoni pizza of the New York store.
#[derive(Clone, Copy, Debug, PartialEq, Eq, Structural)]
pub struct NYStylePepperoniPizza;

impl Pizza for NYStleCheesePizza {
    open spec fn spec_name(self) -> Seq<char> {
        "NYStyleCheesePizza"@
    }

    open spec fn spec_toppings(self) -> Seq<Seq<char>> {
        seq!["NY cheese"@, "NY cheese2"@]
    }

    fn name(&self) -> String {
        "NYStyleCheesePizza".to_owned()
    }

    fn toppings(&self) -> Vec<String> {
        two_toppings("NY cheese", "NY cheese2")
    }
}

impl Pizza for NYStyleMargheritaPizza {
    open spec fn spec_name(self) -> Seq<char> {
        "NYStyleMargheritaPizza"@
    }

    open spec fn spec_toppings(self) -> Seq<Seq<char>> {
        seq!["NY tomato"@, "NY basil"@]
    }

    fn name(&self) -> String {
        "NYStyleMargheritaPizza".to_owned()
    }

    fn toppings(&self) -> Vec<String> {
        two_toppings("NY tomato", "NY basil")
    }
}

impl Pizza for NYStylePepperoniPizza {
    open spec fn spec_name(self) -> Seq<char> {
        "NYStylePepperoniPizza"@
    }

    open spec fn spec_toppings(self) -> Seq<Seq<char>> {
        seq!["NY pepperoni"@, "NY pepperoni2"@]
    }

    fn name(&self) -> String {
        "NYStylePepperoniPizza".to_owned()
    }

    fn toppings(&self) -> Vec<String> {
        two_toppings("NY pepperoni", "NY pepperoni2")
    }
}

/// A vector of exactly the two given toppings.
fn two_toppings(first: &str, second: &str) -> (r: Vec<String>)
    ensures
        r@.len() == 2,
        r@[0]@ == first@,
        r@[1]@ == second@,
{
    let mut r: Vec<String> = Vec::new();
    r.push(first.to_owned());
    r.push(second.to_owned());
    r
}

/// The closed family of pizzas the New York store can produce: exactly one
/// of its three menu items.
#[derive(Clone, Copy, Debug, PartialEq, Eq, Structural)]
pub enum NewYorkStylePizza {
    Cheese(NYStleCheesePizza),
    Margherita(NYStyleMargheritaPizza),
    Pepperoni(NYStylePepperoniPizza),
}

impl Pizza for NewYorkStylePizza {
    open spec fn spec_name(self) -> Seq<char> {
        match self {
            NewYorkStylePizza::Cheese(p) => p.spec_name(),
            NewYorkStylePizza::Margherita(p) => p.spec_name(),
            NewYorkStylePizza::Pepperoni(p) => p.spec_name(),
        }
    }

    open spec fn spec_toppings(self) -> Seq<Seq<char>> {
        match self {
            NewYorkStylePizza::Cheese(p) => p.spec_toppings(),
            NewYorkStylePizza::Margherita(p) => p.spec_toppings(),
            NewYorkStylePizza::Pepperoni(p) => p.spec_toppings(),
        }
    }

    fn name(&self) -> String {
        match self {
            NewYorkStylePizza::Cheese(p) => p.name(),
            NewYorkStylePizza::Margherita(p) => p.name(),
            NewYorkStylePizza::Pepperoni(p) => p.name(),
        }
    }

    fn toppings(&self) -> Vec<String> {
        match self {
            NewYorkStylePizza::Cheese(p) => p.toppings(),
            NewYorkStylePizza::Margherita(p) => p.toppings(),
            NewYorkStylePizza::Pepperoni(p) => p.toppings(),
        }
    }
}

} // verus!
