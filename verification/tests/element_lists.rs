use fsm_kit::lists::{
    generics_example, trait_object_example, AnyStructure, GenericsList, MyStructure1, MyStructure2,
    SomeTrait, TraitObjectList,
};

#[test]
fn generics_list_holds_one_kind() {
    let mut list: GenericsList<MyStructure2> = GenericsList::new();
    list.add(MyStructure2);
    list.add(MyStructure2);
    list.add(MyStructure2);
    assert_eq!(
        list.names(),
        vec!["MyStructure2", "MyStructure2", "MyStructure2"]
    );
}

#[test]
fn trait_object_list_mixes_kinds() {
    let mut list = TraitObjectList::new();
    list.add(AnyStructure::Second(MyStructure2));
    list.add(AnyStructure::First(MyStructure1));
    assert_eq!(list.names(), vec!["MyStructure2", "MyStructure1"]);
}

#[test]
fn element_kinds_report_their_names() {
    assert_eq!(MyStructure1.name(), "MyStructure1");
    assert_eq!(MyStructure2.name(), "MyStructure2");
    assert_eq!(AnyStructure::First(MyStructure1).name(), "MyStructure1");
    assert_eq!(AnyStructure::Second(MyStructure2).name(), "MyStructure2");
}

#[test]
fn generics_example_names_one_kind_twice() {
    assert_eq!(generics_example(), vec!["MyStructure1", "MyStructure1"]);
}

#[test]
fn trait_object_example_names_both_kinds() {
    assert_eq!(trait_object_example(), vec!["MyStructure1", "MyStructure2"]);
}
