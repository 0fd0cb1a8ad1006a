//! A first-in-first-out queue of characters, kept as two stacks.
//!
//! Newly pushed elements accumulate in one vector; when a pop finds the
//! other vector empty, the accumulated elements are moved over and reversed
//! so that the oldest element sits at its end, ready to be popped cheaply.
//! Abstractly the queue is just the sequence of its elements, oldest first.

use vstd::prelude::*;

verus! {

/// A FIFO queue of characters.
pub struct Queue {
    /// Elements moved over by an earlier pop; the oldest is at the end.
    older: Vec<char>,
    /// Elements pushed since the last move; the newest is at the end.
    younger: Vec<char>,
}

impl Queue {
    /// The elements already moved over for popping, oldest at the end.
    pub closed spec fn older_part(&self) -> Seq<char> {
        self.older@
    }

    /// The elements pushed since the last internal move, newest at the end.
    pub closed spec fn younger_part(&self) -> Seq<char> {
        self.younger@
    }

    /// An empty queue.
    pub fn new() -> (q: Queue)
        ensures
            q@ == Seq::<char>::empty(),
    {
        let q = Queue { older: Vec::new(), younger: Vec::new() };
        proof {
            assert(q@ =~= Seq::<char>::empty());
        }
        q
    }

    /// Append `c` at the back of the queue.
    pub fn push(&mut self, c: char)
        ensures
            final(self)@ == old(self)@.push(c),
    {
        self.younger.push(c);
        proof {
            assert(self@ =~= old(self)@.push(c));
        }
    }

    /// Remove and return the oldest element, or `None` when the queue is
    /// empty.
    pub fn pop(&mut self) -> (r: Option<char>)
        ensures
            old(self)@.len() == 0 ==> r is None && final(self)@ == old(self)@,
            old(self)@.len() > 0 ==> r == Some(old(self)@[0]) && final(self)@ == old(
                self,
            )@.drop_first(),
    {
        if self.older.len() == 0 {
            if self.younger.len() == 0 {
                proof {
                    assert(self@ =~= old(self)@);
                }
                return None;
            }
            core::mem::swap(&mut self.older, &mut self.younger);
            reverse_in_place(&mut self.older);
        }
        proof {
            assert(self.older@.len() > 0);
            assert(self@ =~= old(self)@);
            assert(self@[0] == self.older@.last());
        }
        let r = self.older.pop();
        proof {
            assert(self@ =~= old(self)@.drop_first());
        }
        r
    }

    /// Whether the queue holds no elements.
    pub fn is_empty(&self) -> (r: bool)
        ensures
            r == (self@.len() == 0),
    {
        self.older.len() == 0 && self.younger.len() == 0
    }

    /// Take the queue apart into its two internal stacks: the elements an
    /// earlier pop moved over (oldest at the end), and the elements pushed
    /// since (newest at the end).  Together they carry every element.
    pub fn split(self) -> (r: (Vec<char>, Vec<char>))
        ensures
            r.0@ == self.older_part(),
            r.1@ == self.younger_part(),
            r.0@.reverse() + r.1@ == self@,
    {
        (self.older, self.younger)
    }
}

impl View for Queue {
    type V = Seq<char>;

    /// The queue's contents, oldest first.
    open spec fn view(&self) -> Seq<char> {
        self.older_part().reverse() + self.younger_part()
    }
}

/// Reverse the order of a vector's elements in place.
fn reverse_in_place(v: &mut Vec<char>)
    ensures
        final(v)@ == old(v)@.reverse(),
{
    let len = v.len();
    let mut i: usize = 0;
    while i < len / 2
        invariant
            v@.len() == len,
            i <= len / 2,
            forall|j: int| 0 <= j < i ==> v@[j] == old(v)@[len - 1 - j],
            forall|j: int| 0 <= j < i ==> v@[len - 1 - j] == old(v)@[j],
            forall|j: int| i <= j < len - i ==> v@[j] == old(v)@[j],
        decreases len - i,
    {
        let a = v[i];
        let b = v[len - 1 - i];
        v.set(i, b);
        v.set(len - 1 - i, a);
        i += 1;
    }
    proof {
        assert(v@ =~= old(v)@.reverse());
    }
}

} // verus!
