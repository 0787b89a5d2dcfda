//! A growable stack backed by a single contiguous buffer.

use vstd::prelude::*;
use vstd::std_specs::cmp::PartialEqSpec;
use vstd::string::StringExecFns;

verus! {

/// Capacity claimed by [`Stack::new`].
pub const DEFAULT_CAPACITY: usize = 32;

/// Capacity the buffer grows to when a push finds it full: a stack that has
/// never claimed storage grows to four slots, any other doubles.
pub open spec fn grown_capacity(capacity: int) -> int {
    if capacity == 0 {
        4
    } else {
        2 * capacity
    }
}

/// A last-in-first-out container backed by one contiguous buffer of
/// `capacity` slots, of which the first `length` hold the live elements.
/// A push that finds the buffer full first grows it, so pushes stay
/// amortized O(1).
#[derive(Debug)]
pub struct Stack<T> {
    data: Vec<T>,
    capacity: usize,
}

impl<T> View for Stack<T> {
    type V = Seq<T>;

    /// The live elements, bottom of the stack first.
    closed spec fn view(&self) -> Seq<T> {
        self.data@
    }
}

impl<T> Stack<T> {
    /// Number of storage slots the stack has claimed; never less than the
    /// number of live elements.
    pub closed spec fn cap(&self) -> usize {
        self.capacity
    }

    /// The buffer never holds more live elements than it has slots.
    pub closed spec fn wf(&self) -> bool {
        self.data@.len() <= self.capacity
    }

    /// Creates an empty stack that claims exactly `capacity` slots; no
    /// storage is allocated when `capacity == 0`.
    pub fn with_capacity(capacity: usize) -> (r: Stack<T>)
        ensures
            r@ == Seq::<T>::empty(),
            r.cap() == capacity,
            r.wf(),
    {
        Stack { data: Vec::with_capacity(capacity), capacity }
    }

    /// Creates an empty stack with the default capacity.
    pub fn new() -> (r: Stack<T>)
        ensures
            r@ == Seq::<T>::empty(),
            r.cap() == DEFAULT_CAPACITY,
            r.wf(),
    {
        Stack::with_capacity(DEFAULT_CAPACITY)
    }

    /// Returns a reference to the top element; the stack is not changed.
    pub fn peek(&self) -> (r: &T)
        requires
            self@.len() > 0,
        ensures
            *r == self@.last(),
    {
        &self.data[self.data.len() - 1]
    }

    /// Removes the top element and hands ownership of it to the caller.
    pub fn pop(&mut self) -> (r: T)
        requires
            old(self).wf(),
            old(self)@.len() > 0,
        ensures
            final(self).wf(),
            r == old(self)@.last(),
            final(self)@ == old(self)@.drop_last(),
            final(self).cap() == old(self).cap(),
    {
        self.data.pop().unwrap()
    }

    /// Places `value` on top of the stack, growing the buffer first when it
    /// is full.
    pub fn push(&mut self, value: T)
        requires
            old(self).wf(),
            old(self)@.len() == old(self).cap() ==> 2 * old(self).cap() <= usize::MAX,
        ensures
            final(self).wf(),
            final(self)@ == old(self)@.push(value),
            old(self)@.len() < old(self).cap() ==> final(self).cap() == old(self).cap(),
            old(self)@.len() >= old(self).cap() ==> final(self).cap() == grown_capacity(
                old(self).cap() as int,
            ),
    {
        if self.data.len() == self.capacity {
            let capacity = self.new_capacity();
            self.resize(capacity);
        }
        self.data.push(value);
    }

    /// Number of live elements.
    pub fn len(&self) -> (r: usize)
        ensures
            r == self@.len(),
    {
        self.data.len()
    }

    /// The capacity a full buffer grows to.
    fn new_capacity(&self) -> (r: usize)
        requires
            2 * self.cap() <= usize::MAX,
        ensures
            r == grown_capacity(self.cap() as int),
    {
        if self.capacity == 0 {
            4
        } else {
            self.capacity * 2
        }
    }

    /// Grows the buffer to `capacity` slots, keeping every live element;
    /// shrinking below the current capacity is not supported.
    fn resize(&mut self, capacity: usize)
        requires
            old(self).wf(),
            capacity >= old(self).cap(),
        ensures
            final(self).wf(),
            final(self)@ == old(self)@,
            final(self).cap() == capacity,
    {
        if capacity == self.capacity {
            return;
        }
        let additional = capacity - self.data.len();
        self.data.reserve(additional);
        self.capacity = capacity;
    }
}

/// The character for one decimal digit.
pub open spec fn digit_char(d: int) -> char {
    if d == 0 {
        '0'
    } else if d == 1 {
        '1'
    } else if d == 2 {
        '2'
    } else if d == 3 {
        '3'
    } else if d == 4 {
        '4'
    } else if d == 5 {
        '5'
    } else if d == 6 {
        '6'
    } else if d == 7 {
        '7'
    } else if d == 8 {
        '8'
    } else {
        '9'
    }
}

/// The decimal digits of `n`, most significant first.
pub open spec fn dec_digits(n: nat) -> Seq<char>
    decreases n,
{
    if n < 10 {
        seq![digit_char(n as int)]
    } else {
        dec_digits(n / 10) + seq![digit_char((n % 10) as int)]
    }
}

/// The elements' decimal forms in index order, comma separated.
pub open spec fn rendered_items(s: Seq<u64>) -> Seq<char>
    decreases s.len(),
{
    if s.len() == 0 {
        Seq::empty()
    } else if s.len() == 1 {
        dec_digits(s[0] as nat)
    } else {
        rendered_items(s.drop_last()) + seq![',', ' '] + dec_digits(s.last() as nat)
    }
}

/// The bracketed string form of a stack's contents, bottom first.
pub open spec fn rendered(s: Seq<u64>) -> Seq<char> {
    seq!['['] + rendered_items(s) + seq![']']
}

/// One decimal digit as text.
fn digit_str(d: u64) -> (r: &'static str)
    requires
        d < 10,
    ensures
        r@ == seq![digit_char(d as int)],
{
    let r: &'static str = if d == 0 {
        "0"
    } else if d == 1 {
        "1"
    } else if d == 2 {
        "2"
    } else if d == 3 {
        "3"
    } else if d == 4 {
        "4"
    } else if d == 5 {
        "5"
    } else if d == 6 {
        "6"
    } else if d == 7 {
        "7"
    } else if d == 8 {
        "8"
    } else {
        "9"
    };
    proof {
        reveal_strlit("0");
        reveal_strlit("1");
        reveal_strlit("2");
        reveal_strlit("3");
        reveal_strlit("4");
        reveal_strlit("5");
        reveal_strlit("6");
        reveal_strlit("7");
        reveal_strlit("8");
        reveal_strlit("9");
        assert(r@ =~= seq![digit_char(d as int)]);
    }
    r
}

/// The decimal form of `n`.
fn u64_to_dec(n: u64) -> (r: String)
    ensures
        r@ == dec_digits(n as nat),
    decreases n,
{
    let digit = n % 10;
    let mut r = if n < 10 {
        String::new()
    } else {
        u64_to_dec(n / 10)
    };
    r.append(digit_str(digit));
    proof {
        assert(r@ =~= dec_digits(n as nat));
    }
    r
}

impl Stack<u64> {
    /// The string form of the contents, in index order (bottom of the stack
    /// first, top last), comma separated and bracketed: `[0, 1, 2]`.
    pub fn display_string(&self) -> (r: String)
        ensures
            r@ == rendered(self@),
    {
        let mut r = String::new();
        r.append("[");
        proof {
            reveal_strlit("[");
            reveal_strlit("]");
            reveal_strlit(", ");
            assert(r@ =~= seq!['['] + rendered_items(self@.take(0)));
        }
        let n = self.data.len();
        for i in 0..n
            invariant
                n == self@.len(),
                r@ == seq!['['] + rendered_items(self@.take(i as int)),
        {
            if i > 0 {
                r.append(", ");
            }
            let d = u64_to_dec(self.data[i]);
            r.append(d.as_str());
            proof {
                reveal_strlit(", ");
                assert(self@.take(i + 1).drop_last() =~= self@.take(i as int));
                assert(self@.take(i + 1).last() == self@[i as int]);
                assert(r@ =~= seq!['['] + rendered_items(self@.take(i + 1)));
            }
        }
        r.append("]");
        proof {
            reveal_strlit("]");
            assert(self@.take(n as int) =~= self@);
            assert(r@ =~= rendered(self@));
        }
        r
    }
}

impl<T> Default for Stack<T> {
    /// Equivalent to [`Stack::new`].
    fn default() -> (r: Stack<T>)
        ensures
            r@ == Seq::<T>::empty(),
            r.cap() == DEFAULT_CAPACITY,
            r.wf(),
    {
        Stack::new()
    }
}

impl<T: Clone> Clone for Stack<T> {
    /// Deep copy: a new buffer with the same claimed capacity and each live
    /// element cloned into the same index. The copy owns its own storage, so
    /// mutating either stack never affects the other.
    fn clone(&self) -> (r: Stack<T>)
        ensures
            r@.len() == self@.len(),
            forall|i: int| #![all_triggers] 0 <= i < self@.len() ==> cloned::<T>(self@[i], r@[i]),
            r.cap() == self.cap(),
            self.wf() ==> r.wf(),
    {
        Stack { data: self.data.clone(), capacity: self.capacity }
    }
}

impl<T: PartialEq> PartialEq for Stack<T> {
    /// Structural equality: the same number of live elements, equal at every
    /// index. The claimed capacity plays no part.
    fn eq(&self, other: &Stack<T>) -> (r: bool) {
        if self.data.len() != other.data.len() {
            return false;
        }
        let n = self.data.len();
        for i in 0..n
            invariant
                n == self@.len(),
                n == other@.len(),
                T::obeys_eq_spec() ==> (forall|k: int|
                    0 <= k < i ==> self@[k].eq_spec(&other@[k])),
        {
            if self.data[i] != other.data[i] {
                return false;
            }
        }
        true
    }
}

impl<T: Eq> Eq for Stack<T> {}

impl<T: PartialEq> vstd::std_specs::cmp::PartialEqSpecImpl for Stack<T> {
    open spec fn obeys_eq_spec() -> bool {
        T::obeys_eq_spec()
    }

    open spec fn eq_spec(&self, other: &Stack<T>) -> bool {
        self@.len() == other@.len() && (forall|i: int|
            0 <= i < self@.len() ==> self@[i].eq_spec(&other@[i]))
    }
}

} // verus!
