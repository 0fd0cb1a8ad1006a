//! A factory trait for producing pizzas, and the New York store.
//!
//! A factory names, as specification, which pizza each menu entry stands
//! for, and its executable `create_pizza` is proved to hand back exactly
//! that pizza.  Ordering ceremony — announcing, preparing, baking, cutting,
//! boxing — is presentation and stays with the caller.

use crate::pizza::{
    NYStleCheesePizza, NYStyleMargheritaPizza, NYStylePepperoniPizza, NewYorkStylePizza,
    NewYorkStylePizzaMenu, Pizza,
};
use vstd::prelude::*;

verus! {

/// A producer of pizzas for a menu type `T`.
pub trait PizzaFactory<T>: Sized {
    /// The pizza family this factory produces.
    type P: Pizza;

    /// Which pizza each menu entry stands for.
    spec fn spec_create(self, menu: T) -> Self::P;

    /// Produce the pizza that `menu` names.
    fn create_pizza(&self, menu: T) -> (r: Self::P)
        ensures
            r == self.spec_create(menu),
    ;
}

/// A pizza store in New York, producing the New York style family.
#[derive(Clone, Copy, Debug, PartialEq, Eq, Structural)]
pub struct NewYorkPizzaStore;

impl PizzaFactory<NewYorkStylePizzaMenu> for NewYorkPizzaStore {
    type P = NewYorkStylePizza;

    open spec fn spec_create(self, menu: NewYorkStylePizzaMenu) -> NewYorkStylePizza {
        match menu {
            NewYorkStylePizzaMenu::NYStyleCheesePizza => NewYorkStylePizza::Cheese(
                NYStleCheesePizza,
            ),
            NewYorkStylePizzaMenu::NYStyleMargheritaPizza => NewYorkStylePizza::Margherita(
                NYStyleMargheritaPizza,
            ),
            NewYorkStylePizzaMenu::NYStylePepperoniPizza => NewYorkStylePizza::Pepperoni(
                NYStylePepperoniPizza,
            ),
        }
    }

    fn create_pizza(&self, menu: NewYorkStylePizzaMenu) -> NewYorkStylePizza {
        match menu {
            NewYorkStylePizzaMenu::NYStyleCheesePizza => NewYorkStylePizza::Cheese(
                NYStleCheesePizza,
            ),
            NewYorkStylePizzaMenu::NYStyleMargheritaPizza => NewYorkStylePizza::Margherita(
                NYStyleMargheritaPizza,
            ),
            NewYorkStylePizzaMenu::NYStylePepperoniPizza => NewYorkStylePizza::Pepperoni(
                NYStylePepperoniPizza,
            ),
        }
    }
}

} // verus!
