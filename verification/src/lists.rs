//! Two ways to hold a collection of named elements behind one trait.
//!
//! [`GenericsList`] is monomorphic: one list holds elements of one concrete
//! implementor of [`SomeTrait`], fixed at compile time.  [`TraitObjectList`]
//! mixes implementors in a single list; since the set of implementors here
//! is closed, the mixing is done with the sum type [`AnyStructure`] rather
//! than with heap-allocated dynamic dispatch.

use vstd::prelude::*;

verus! {

/// An element that reports a name.
pub trait SomeTrait: Sized {
    /// The name this element reports.
    spec fn spec_name(self) -> Seq<char>;

    /// Report the element's name.
    fn name(&self) -> (r: String)
        ensures
            r@ == self.spec_name(),
    ;
}

/// A list of elements of one concrete `SomeTrait` implementor.
pub struct GenericsList<T: SomeTrait> {
    elements: Vec<T>,
}

impl<T: SomeTrait> View for GenericsList<T> {
    type V = Seq<T>;

    /// A list is abstractly the sequence of its elements.
    closed spec fn view(&self) -> Seq<T> {
        self.elements@
    }
}

impl<T: SomeTrait> GenericsList<T> {
    /// An empty list.
    pub fn new() -> (r: Self)
        ensures
            r@ == Seq::<T>::empty(),
    {
        GenericsList { elements: Vec::new() }
    }

    /// Append `t` at the end of the list.
    pub fn add(&mut self, t: T)
        ensures
            final(self)@ == old(self)@.push(t),
    {
        self.elements.push(t);
    }

    /// The names of all elements, in list order.
    pub fn names(&self) -> (r: Vec<String>)
        ensures
            r@.len() == self@.len(),
            forall|i: int| 0 <= i < r@.len() ==> (#[trigger] r@[i])@ == self@[i].spec_name(),
    {
        let mut r: Vec<String> = Vec::new();
        let mut i: usize = 0;
        while i < self.elements.len()
            invariant
                i <= self@.len(),
                r@.len() == i,
                forall|j: int| 0 <= j < i ==> (#[trigger] r@[j])@ == self@[j].spec_name(),
            decreases self@.len() - i,
        {
            let element = &self.elements[i];
            r.push(element.name());
            i += 1;
        }
        r
    }
}

/// An element kind with the fixed name `MyStructure1`.
#[derive(Clone, Copy, Debug, PartialEq, Eq, Structural)]
pub struct MyStructure1;

/// An element kind with the fixed name `MyStructure2`.
#[derive(Clone, Copy, Debug, PartialEq, Eq, Structural)]
pub struct MyStructure2;

impl SomeTrait for MyStructure1 {
    open spec fn spec_name(self) -> Seq<char> {
        "MyStructure1"@
    }

    fn name(&self) -> String {
        "MyStructure1".to_owned()
    }
}

impl SomeTrait for MyStructure2 {
    open spec fn spec_name(self) -> Seq<char> {
        "MyStructure2"@
    }

    fn name(&self) -> String {
        "MyStructure2".to_owned()
    }
}

/// Exactly one of the element kinds: the closed sum that lets one list mix
/// them.
#[derive(Clone, Copy, Debug, PartialEq, Eq, Structural)]
pub enum AnyStructure {
    First(MyStructure1),
    Second(MyStructure2),
}

impl SomeTrait for AnyStructure {
    open spec fn spec_name(self) -> Seq<char> {
        match self {
            AnyStructure::First(s) => s.spec_name(),
            AnyStructure::Second(s) => s.spec_name(),
        }
    }

    fn name(&self) -> String {
        match self {
            AnyStructure::First(s) => s.name(),
            AnyStructure::Second(s) => s.name(),
        }
    }
}

/// A list that mixes the element kinds.
pub struct TraitObjectList {
    elements: Vec<AnyStructure>,
}

impl View for TraitObjectList {
    type V = Seq<AnyStructure>;

    /// A list is abstractly the sequence of its elements.
    closed spec fn view(&self) -> Seq<AnyStructure> {
        self.elements@
    }
}

impl TraitObjectList {
    /// An empty list.
    pub fn new() -> (r: Self)
        ensures
            r@ == Seq::<AnyStructure>::empty(),
    {
        TraitObjectList { elements: Vec::new() }
    }

    /// Append `element` at the end of the list.
    pub fn add(&mut self, element: AnyStructure)
        ensures
            final(self)@ == old(self)@.push(element),
    {
        self.elements.push(element);
    }

    /// The names of all elements, in list order.
    pub fn names(&self) -> (r: Vec<String>)
        ensures
            r@.len() == self@.len(),
            forall|i: int| 0 <= i < r@.len() ==> (#[trigger] r@[i])@ == self@[i].spec_name(),
    {
        let mut r: Vec<String> = Vec::new();
        let mut i: usize = 0;
        while i < self.elements.len()
            invariant
                i <= self@.len(),
                r@.len() == i,
                forall|j: int| 0 <= j < i ==> (#[trigger] r@[j])@ == self@[j].spec_name(),
            decreases self@.len() - i,
        {
            let element = &self.elements[i];
            r.push(element.name());
            i += 1;
        }
        r
    }
}

/// A list of one concrete element kind: values of a second kind cannot be
/// added, so the list's names are all the one kind's name.
pub fn generics_example() -> (r: Vec<String>)
    ensures
        r@.len() == 2,
        r@[0]@ == "MyStructure1"@,
        r@[1]@ == "MyStructure1"@,
{
    let mut list: GenericsList<MyStructure1> = GenericsList::new();
    list.add(MyStructure1);
    list.add(MyStructure1);
    list.names()
}

/// One list that mixes both element kinds through the closed sum, in the
/// order they were added.
pub fn trait_object_example() -> (r: Vec<String>)
    ensures
        r@.len() == 2,
        r@[0]@ == "MyStructure1"@,
        r@[1]@ == "MyStructure2"@,
{
    let mut list = TraitObjectList::new();
    list.add(AnyStructure::First(MyStructure1));
    list.add(AnyStructure::Second(MyStructure2));
    list.names()
}

} // verus!
