use stacks::treiber::{Chain, Stack};
use stacks::EmptyStackError;

#[test]
fn test_push_pop() {
    let s = Stack::new();
    assert!(s.len() == 0);
    s.push(42);
    assert!(s.len() == 1);
    assert!(s.pop().unwrap() == 42);
    assert!(s.len() == 0);
}

#[test]
fn test_push_pop_3() {
    let s = Stack::new();
    assert!(s.len() == 0);
    s.push(42);
    s.push(43);
    s.push(44);
    assert!(s.len() == 3);
    assert!(s.pop().unwrap() == 44);
    assert!(s.pop().unwrap() == 43);
    assert!(s.pop().unwrap() == 42);
    assert!(s.len() == 0);
}

#[test]
fn test_push_try_pop_empty() {
    let s: Stack<usize> = Stack::new();
    assert!(s.try_pop().is_none());
}

#[test]
fn test_push_try_pop_3() {
    let s = Stack::new();
    assert!(s.len() == 0);
    s.push(42);
    s.push(43);
    s.push(44);
    assert!(s.len() == 3);
    assert!(s.try_pop().unwrap() == 44);
    assert!(s.try_pop().unwrap() == 43);
    assert!(s.try_pop().unwrap() == 42);
    assert!(s.len() == 0);
}

// Popping an empty stack reports the emptiness error; try_pop never errs.
#[test]
fn pop_empty_error() {
    let s: Stack<usize> = Stack::new();
    assert!(s.pop() == Err(EmptyStackError));
    assert!(s.try_pop().is_none());
    assert!(s.len() == 0);
}

// The sequential chain on its own keeps LIFO order.
#[test]
fn chain_lifo() {
    let mut c = Chain::new();
    assert!(c.len() == 0);
    c.push(1);
    c.push(2);
    c.push(3);
    assert!(c.len() == 3);
    assert!(c.pop() == 3);
    assert!(c.try_pop() == Some(2));
    assert!(c.pop() == 1);
    assert!(c.try_pop().is_none());
    assert!(c.len() == 0);
}

// Ten threads each push then pop until the pop lands; every pushed value is
// popped exactly once, so the grand total is 10 * (0 + 1 + ... + 999).
#[test]
fn test_parallel() {
    let s = Stack::new();
    let sum = std::sync::Mutex::new(0u64);
    crossbeam::scope(|sc| {
        for _ in 0..10 {
            sc.spawn(|_| {
                let mut local_sum = 0u64;
                for i in 0..1000u64 {
                    s.push(i);
                    let mut v = s.try_pop();
                    while v.is_none() {
                        v = s.try_pop();
                    }
                    local_sum += v.unwrap();
                }
                println!("{}", local_sum);
                *sum.lock().unwrap() += local_sum;
            });
        }
    })
    .unwrap();
    assert!(*sum.lock().unwrap() == 4995000);
}
