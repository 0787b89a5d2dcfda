//! A stack safe for concurrent use: a singly linked chain of nodes and a
//! length counter, guarded as one unit by a mutual-exclusion lock.

use crate::EmptyStackError;
use vstd::prelude::*;
use vstd::rwlock::{RwLock, RwLockPredicate};

verus! {

/// One link of the chain; each node owns the rest of the chain below it.
struct Node<T> {
    datum: T,
    next: Option<Box<Node<T>>>,
}

/// Data held by a chain of nodes, bottom of the stack first: the datum at
/// `head` comes last.
spec fn chain_view<T>(n: Option<Box<Node<T>>>) -> Seq<T>
    decreases n,
{
    match n {
        None => Seq::empty(),
        Some(node) => chain_view(node.next).push(node.datum),
    }
}

/// The sequential core of the concurrent stack: a singly linked chain of
/// heap nodes together with a count of them.
pub struct Chain<T> {
    length: usize,
    head: Option<Box<Node<T>>>,
}

impl<T> View for Chain<T> {
    type V = Seq<T>;

    /// The data on the chain, bottom of the stack first.
    closed spec fn view(&self) -> Seq<T> {
        chain_view(self.head)
    }
}

impl<T> Chain<T> {
    /// The length counter agrees with the number of nodes on the chain.
    pub closed spec fn wf(&self) -> bool {
        self.length == chain_view(self.head).len()
    }

    /// An empty chain.
    pub fn new() -> (r: Chain<T>)
        ensures
            r@ == Seq::<T>::empty(),
            r.wf(),
    {
        Chain { length: 0, head: None }
    }

    /// Number of elements on the chain.
    pub fn len(&self) -> (r: usize)
        requires
            self.wf(),
        ensures
            r == self@.len(),
    {
        self.length
    }

    /// Wraps `datum` in a new node that takes ownership of the old chain and
    /// becomes its head.
    pub fn push(&mut self, datum: T)
        requires
            old(self).wf(),
            old(self)@.len() < usize::MAX,
        ensures
            final(self).wf(),
            final(self)@ == old(self)@.push(datum),
    {
        let next = self.head.take();
        self.head = Some(Box::new(Node { datum, next }));
        self.length = self.length + 1;
    }

    /// Detaches the head node and returns its datum, or `None` when the
    /// chain is empty.
    pub fn try_pop(&mut self) -> (r: Option<T>)
        requires
            old(self).wf(),
        ensures
            final(self).wf(),
            old(self)@.len() == 0 ==> r is None && final(self)@ == old(self)@,
            old(self)@.len() > 0 ==> r == Some(old(self)@.last()) && final(self)@ == old(self)@.drop_last(),
    {
        if self.length == 0 {
            return None;
        }
        self.length = self.length - 1;
        let node = self.head.take().unwrap();
        let Node { datum, next } = *node;
        self.head = next;
        proof {
            assert(old(self)@.drop_last() =~= self@);
        }
        Some(datum)
    }

    /// Detaches the head node of a non-empty chain and returns its datum.
    pub fn pop(&mut self) -> (r: T)
        requires
            old(self).wf(),
            old(self)@.len() > 0,
        ensures
            final(self).wf(),
            r == old(self)@.last(),
            final(self)@ == old(self)@.drop_last(),
    {
        self.try_pop().unwrap()
    }
}

/// Lock predicate: every chain stored in the lock is well formed.
pub struct ChainWf;

impl<T> RwLockPredicate<Chain<T>> for ChainWf {
    open spec fn inv(self, v: Chain<T>) -> bool {
        v.wf()
    }
}

/// A stack safe for concurrent use by many threads. One mutual-exclusion
/// lock guards the chain and its length counter as a single unit, so
/// operations are linearizable: each takes effect entirely inside its own
/// critical section, and the lock keeps every stored chain well formed.
pub struct Stack<T> {
    inner: RwLock<Chain<T>, ChainWf>,
}

impl<T> Stack<T> {
    /// An empty stack.
    pub fn new() -> Stack<T> {
        Stack { inner: RwLock::new(Chain::new(), Ghost(ChainWf)) }
    }

    /// Number of elements at the moment the lock is held; another thread may
    /// change it as soon as the lock is released.
    pub fn len(&self) -> usize {
        let handle = self.inner.acquire_read();
        let n = handle.borrow().len();
        handle.release_read();
        n
    }

    /// Places `datum` on top of the stack. A chain can never actually reach
    /// `usize::MAX` nodes (each node occupies more than one byte of the
    /// address space), so the guard below exists only to keep the length
    /// counter's arithmetic checkable; on that unreachable branch the datum
    /// would be discarded.
    pub fn push(&self, datum: T) {
        let (mut chain, handle) = self.inner.acquire_write();
        if chain.len() < usize::MAX {
            chain.push(datum);
        }
        handle.release_write(chain);
    }

    /// Detaches the top element, or returns `None` when the stack is empty
    /// at the moment the lock is held; emptiness is never an error here.
    pub fn try_pop(&self) -> Option<T> {
        let (mut chain, handle) = self.inner.acquire_write();
        let r = chain.try_pop();
        handle.release_write(chain);
        r
    }

    /// Like [`Stack::try_pop`], but an empty stack is reported as
    /// [`EmptyStackError`].
    pub fn pop(&self) -> Result<T, EmptyStackError> {
        match self.try_pop() {
            Some(datum) => Ok(datum),
            None => Err(EmptyStackError),
        }
    }
}

} // verus!
