//! A publish–subscribe pair of traits, and a news feed as subject.
//!
//! An [`Observer`] is a named subscriber; a [`Subject`] keeps subscribers
//! in subscription order, adds them with `subscribe` and removes the first
//! subscriber of a given name with `unsubscribe`.  Posting hands the data
//! to every subscriber in order; what a subscriber does with it (typically
//! display) is the implementor's business and outside the contracts.

use vstd::prelude::*;

verus! {

/// A named subscriber to a subject's updates.
pub trait Observer<T>: Sized {
    /// The name by which this subscriber is told apart from others.
    spec fn spec_name(self) -> Seq<char>;

    /// React to `data` posted by a subject this observer subscribed to.
    /// Nothing is promised of the reaction.
    fn notify(&self, data: &T);

    /// The subscriber's name.
    fn name(&self) -> (r: String)
        ensures
            r@ == self.spec_name(),
    ;
}

/// The subscriber sequence after removing the first subscriber called
/// `name`; the sequence unchanged when no subscriber is called so.
pub open spec fn remove_first_named<T, O: Observer<T>>(observers: Seq<O>, name: Seq<char>) -> Seq<
    O,
>
    decreases observers.len(),
{
    if observers.len() == 0 {
        observers
    } else if observers[0].spec_name() == name {
        observers.drop_first()
    } else {
        seq![observers[0]] + remove_first_named::<T, O>(observers.drop_first(), name)
    }
}

/// Something observers can subscribe to.
pub trait Subject<T, O: Observer<T>>: Sized {
    /// The current subscribers, in subscription order.
    spec fn spec_observers(self) -> Seq<O>;

    /// Add `observer` at the end of the subscriber list.
    fn subscribe(&mut self, observer: O)
        ensures
            final(self).spec_observers() == old(self).spec_observers().push(observer),
    ;

    /// Remove the first subscriber bearing the same name as `observer`;
    /// do nothing when no subscriber bears it.
    fn unsubscribe(&mut self, observer: &O)
        ensures
            final(self).spec_observers() == remove_first_named::<T, O>(
                old(self).spec_observers(),
                observer.spec_name(),
            ),
    ;
}

/// A news feed: a subject whose articles are strings.
pub struct News<O> {
    observers: Vec<O>,
}

impl<O: Observer<String>> News<O> {
    /// A feed with no subscribers.
    pub fn new() -> (r: Self)
        ensures
            r.spec_observers() == Seq::<O>::empty(),
    {
        News { observers: Vec::new() }
    }

    /// The names of the current subscribers, in subscription order.
    pub fn subscriber_names(&self) -> (r: Vec<String>)
        ensures
            r@.len() == self.spec_observers().len(),
            forall|i: int|
                0 <= i < r@.len() ==> (#[trigger] r@[i])@ == self.spec_observers()[i].spec_name(),
    {
        let mut r: Vec<String> = Vec::new();
        let mut i: usize = 0;
        while i < self.observers.len()
            invariant
                i <= self.observers@.len(),
                r@.len() == i,
                forall|j: int|
                    0 <= j < i ==> (#[trigger] r@[j])@ == self.observers@[j].spec_name(),
            decreases self.observers@.len() - i,
        {
            let observer = &self.observers[i];
            r.push(observer.name());
            i += 1;
        }
        r
    }

    /// Hand `article` to every subscriber, in subscription order.  The
    /// subscriber list is left untouched; the reactions are the
    /// subscribers' own.
    pub fn post(&self, article: &String) {
        let mut i: usize = 0;
        while i < self.observers.len()
            invariant
                i <= self.observers@.len(),
            decreases self.observers@.len() - i,
        {
            let observer = &self.observers[i];
            observer.notify(article);
            i += 1;
        }
    }
}

impl<O: Observer<String>> Subject<String, O> for News<O> {
    closed spec fn spec_observers(self) -> Seq<O> {
        self.observers@
    }

    fn subscribe(&mut self, observer: O) {
        self.observers.push(observer);
    }

    fn unsubscribe(&mut self, observer: &O) {
        let target = observer.name();
        let mut i: usize = 0;
        while i < self.observers.len()
            invariant
                target@ == observer.spec_name(),
                i <= self.observers@.len(),
                self.observers@ == old(self).observers@,
                forall|j: int|
                    0 <= j < i ==> (#[trigger] self.observers@[j]).spec_name()
                        != observer.spec_name(),
            decreases self.observers@.len() - i,
        {
            let candidate = self.observers[i].name();
            if candidate == target {
                proof {
                    lemma_remove_first_named_at::<String, O>(
                        self.observers@,
                        observer.spec_name(),
                        i as int,
                    );
                }
                self.observers.remove(i);
                return;
            }
            i += 1;
        }
        proof {
            lemma_remove_first_named_absent::<String, O>(self.observers@, observer.spec_name());
        }
    }
}

/// When the first `i` subscribers bear other names and the `i`-th bears
/// `name`, removing the first subscriber so named removes exactly the
/// `i`-th.
proof fn lemma_remove_first_named_at<T, O: Observer<T>>(observers: Seq<O>, name: Seq<char>, i: int)
    requires
        0 <= i < observers.len(),
        forall|j: int| 0 <= j < i ==> (#[trigger] observers[j]).spec_name() != name,
        observers[i].spec_name() == name,
    ensures
        remove_first_named::<T, O>(observers, name) == observers.remove(i),
    decreases i,
{
    if i == 0 {
        assert(observers.remove(0) =~= observers.drop_first());
    } else {
        lemma_remove_first_named_at::<T, O>(observers.drop_first(), name, i - 1);
        assert(observers.drop_first().remove(i - 1) =~= observers.remove(i).drop_first());
        assert(seq![observers[0]] + observers.drop_first().remove(i - 1) =~= observers.remove(i));
    }
}

/// When no subscriber bears `name`, removing the first subscriber so named
/// changes nothing.
proof fn lemma_remove_first_named_absent<T, O: Observer<T>>(observers: Seq<O>, name: Seq<char>)
    requires
        forall|j: int|
            0 <= j < observers.len() ==> (#[trigger] observers[j]).spec_name() != name,
    ensures
        remove_first_named::<T, O>(observers, name) == observers,
    decreases observers.len(),
{
    if observers.len() > 0 {
        lemma_remove_first_named_absent::<T, O>(observers.drop_first(), name);
        assert(seq![observers[0]] + observers.drop_first() =~= observers);
    }
}

/// A subscriber that carries only its name and reacts to notifications by
/// doing nothing.  Subscriber kinds that display or record what they are
/// told implement [`Observer`] themselves.
#[derive(Clone, Debug, PartialEq, Eq)]
pub struct Listener {
    name: String,
}

impl Listener {
    /// A listener with the given name.
    pub fn new(name: String) -> (r: Listener)
        ensures
            r.spec_name() == name@,
    {
        Listener { name }
    }
}

impl Observer<String> for Listener {
    closed spec fn spec_name(self) -> Seq<char> {
        self.name@
    }

    fn notify(&self, data: &String) {
    }

    fn name(&self) -> String {
        self.name.clone()
    }
}

} // verus!
