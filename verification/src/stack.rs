//! The stack and the tiles it is built from.

use vstd::prelude::*;

use crate::model::{compares, is_search_result, popped, top_of};

verus! {

/// One element of a stack together with everything below it.
#[derive(Debug)]
pub struct Tile<T> {
    pub value: T,
    pub next: Option<Box<Tile<T>>>,
}

impl<T> View for Tile<T> {
    type V = Seq<T>;

    /// The elements from the bottom of the chain up to this tile.
    open spec fn view(&self) -> Seq<T> {
        self.elements()
    }
}

impl<T> Tile<T> {
    /// The elements from the bottom of the chain up to this tile, whose own
    /// value comes last.
    pub open spec fn elements(self) -> Seq<T>
        decreases self,
    {
        match self.next {
            None => seq![self.value],
            Some(below) => below.elements().push(self.value),
        }
    }

    /// The chain up to a tile ends with the tile's own value, and what comes
    /// before it is the chain up to the tile below.
    pub proof fn lemma_value_on_top(self)
        ensures
            self.elements().len() >= 1,
            self.elements().last() == self.value,
            self.elements().drop_last() == (match self.next {
                None => Seq::empty(),
                Some(below) => below.elements(),
            }),
    {
    }

    /// A tile with nothing below it.
    pub fn new(value: T) -> (tile: Self)
        ensures
            tile.value == value,
            tile.next is None,
            tile@ == seq![value],
    {
        Tile { value, next: None }
    }
}

/// A stack of elements of type `T`.
///
/// `head` owns the topmost tile, which owns the one below it, and so on down
/// to the bottom; `size` counts the tiles.
#[derive(Debug)]
pub struct Stack<T> {
    pub head: Option<Box<Tile<T>>>,
    pub size: usize,
}

impl<T> View for Stack<T> {
    type V = Seq<T>;

    /// The elements of the stack, bottom first and top last.
    open spec fn view(&self) -> Seq<T> {
        match self.head {
            None => Seq::empty(),
            Some(top) => top@,
        }
    }
}

impl<T> Stack<T> {
    /// The stack is well formed when `size` is the number of its tiles.
    pub open spec fn wf(&self) -> bool {
        self.size == self@.len()
    }

    /// A well-formed stack has no head exactly when its size is 0.
    pub proof fn lemma_head_absent_iff_empty(self)
        requires
            self.wf(),
        ensures
            self.head is None <==> self.size == 0,
    {
        if let Some(top) = self.head {
            top.lemma_value_on_top();
        }
    }

    /// An empty stack.
    pub fn new() -> (stack: Self)
        ensures
            stack.wf(),
            stack.head is None,
            stack.size == 0,
            stack@ == Seq::<T>::empty(),
    {
        Stack { head: None, size: 0 }
    }

    /// The element on top of the stack, which stays where it is; nothing
    /// where the stack is empty.
    pub fn peek(&self) -> (top: Option<&T>)
        ensures
            (match top {
                Some(value) => top_of(self@) == Some(*value),
                None => top_of(self@) is None,
            }),
    {
        match self.head {
            Some(ref v) => {
                proof {
                    v.lemma_value_on_top();
                }
                Some(&v.value)
            },
            None => None,
        }
    }

    /// Takes the top element off the stack and returns it; on an empty stack
    /// returns nothing and changes nothing.
    pub fn pop(&mut self) -> (top: Option<T>)
        requires
            old(self).wf(),
        ensures
            final(self).wf(),
            top == top_of(old(self)@),
            final(self)@ == popped(old(self)@),
            top is Some ==> final(self).size == old(self).size - 1,
            top is None ==> *final(self) == *old(self),
    {
        match self.head.take() {
            Some(v) => {
                proof {
                    v.lemma_value_on_top();
                }
                self.head = v.next;
                self.size -= 1;
                Some(v.value)
            },
            None => None,
        }
    }

    /// Puts `data` on top of the stack.
    pub fn push(&mut self, data: T)
        requires
            old(self).wf(),
            old(self)@.len() < usize::MAX,
        ensures
            final(self).wf(),
            final(self)@ == old(self)@.push(data),
            final(self).size == old(self).size + 1,
    {
        self.size += 1;
        match self.head.take() {
            Some(v) => {
                self.head = Some(Box::new(Tile { value: data, next: Some(v) }));
            },
            None => {
                self.head = Some(Box::new(Tile { value: data, next: None }));
            },
        }
    }
}

impl<T: PartialEq> Stack<T> {
    /// The elements that a search has still to look at, with `ptr` at the
    /// topmost of them.
    spec fn remaining(ptr: Option<&Box<Tile<T>>>) -> Seq<T> {
        match ptr {
            None => Seq::empty(),
            Some(p) => p@,
        }
    }

    /// Looks for `data` from the top of the stack downwards and gives the
    /// position of the first element that equals it. Positions count from 1
    /// at the bottom, so the top has position `size`.
    pub fn search(&self, data: T) -> (found: Option<usize>)
        requires
            self.wf(),
        ensures
            is_search_result(self@, data, found),
            self@.len() == 0 ==> found is None,
    {
        let mut ptr: Option<&Box<Tile<T>>> = self.head.as_ref();
        let mut pos: usize = self.size;
        while ptr.is_some()
            invariant
                pos <= self@.len(),
                Self::remaining(ptr) == self@.take(pos as int),
                forall|i: int| pos <= i < self@.len() ==> compares(#[trigger] self@[i], data, false),
            decreases pos,
        {
            let p = ptr.unwrap();
            proof {
                p.lemma_value_on_top();
            }
            if p.value == data {
                return Some(pos);
            }
            ptr = p.next.as_ref();
            pos -= 1;
        }
        return None;
    }
}

} // verus!
