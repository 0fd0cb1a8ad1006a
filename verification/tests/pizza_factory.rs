use fsm_kit::factory::{NewYorkPizzaStore, PizzaFactory};
use fsm_kit::pizza::{NewYorkStylePizza, NewYorkStylePizzaMenu, Pizza};

#[test]
fn store_creates_each_menu_entry() {
    let store = NewYorkPizzaStore;
    let cheese = store.create_pizza(NewYorkStylePizzaMenu::NYStyleCheesePizza);
    assert!(matches!(cheese, NewYorkStylePizza::Cheese(_)));
    let margherita = store.create_pizza(NewYorkStylePizzaMenu::NYStyleMargheritaPizza);
    assert!(matches!(margherita, NewYorkStylePizza::Margherita(_)));
    let pepperoni = store.create_pizza(NewYorkStylePizzaMenu::NYStylePepperoniPizza);
    assert!(matches!(pepperoni, NewYorkStylePizza::Pepperoni(_)));
}

#[test]
fn created_pizzas_report_their_menu_names() {
    let store = NewYorkPizzaStore;
    let cheese = store.create_pizza(NewYorkStylePizzaMenu::NYStyleCheesePizza);
    assert_eq!(cheese.name(), "NYStyleCheesePizza");
    let margherita = store.create_pizza(NewYorkStylePizzaMenu::NYStyleMargheritaPizza);
    assert_eq!(margherita.name(), "NYStyleMargheritaPizza");
    let pepperoni = store.create_pizza(NewYorkStylePizzaMenu::NYStylePepperoniPizza);
    assert_eq!(pepperoni.name(), "NYStylePepperoniPizza");
}

#[test]
fn created_pizzas_report_their_toppings() {
    let store = NewYorkPizzaStore;
    let cheese = store.create_pizza(NewYorkStylePizzaMenu::NYStyleCheesePizza);
    assert_eq!(cheese.toppings(), vec!["NY cheese", "NY cheese2"]);
    let margherita = store.create_pizza(NewYorkStylePizzaMenu::NYStyleMargheritaPizza);
    assert_eq!(margherita.toppings(), vec!["NY tomato", "NY basil"]);
    let pepperoni = store.create_pizza(NewYorkStylePizzaMenu::NYStylePepperoniPizza);
    assert_eq!(pepperoni.toppings(), vec!["NY pepperoni", "NY pepperoni2"]);
}
