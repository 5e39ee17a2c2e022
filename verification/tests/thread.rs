use picolibc::thread::{LocalKey, StateInner};

fn counter() -> u32 {
    7
}

#[test]
fn first_use_sees_the_initial_value() {
    let mut k = LocalKey::new(counter);
    assert_eq!(k.get(1), 7);
    assert_eq!(k.get(2), 7);
}

#[test]
fn set_then_get_on_the_same_thread() {
    let mut k = LocalKey::new(counter);
    k.set(1, 42);
    assert_eq!(k.get(1), 42);
    assert_eq!(k.get(1), 42);
}

#[test]
fn threads_do_not_see_each_others_values() {
    let mut k = LocalKey::new(counter);
    k.set(1, 42);
    assert_eq!(k.get(2), 7);
    k.set(2, 5);
    assert_eq!(k.get(1), 42);
    assert_eq!(k.get(2), 5);
}

#[test]
fn replace_answers_the_old_value() {
    let mut k = LocalKey::new(counter);
    assert_eq!(k.replace(3, 9), 7);
    assert_eq!(k.replace(3, 10), 9);
    assert_eq!(k.get(3), 10);
}

#[test]
fn take_leaves_the_default() {
    let mut k = LocalKey::new(counter);
    k.set(1, 11);
    assert_eq!(k.take(1), 11);
    assert_eq!(k.get(1), 0);
}

#[test]
fn update_applies_the_function() {
    let mut k = LocalKey::new(counter);
    k.update(1, |x| x * 3);
    assert_eq!(k.get(1), 21);
}

#[test]
fn with_sees_the_value() {
    let mut k = LocalKey::new(counter);
    assert_eq!(k.with(1, |v| *v + 1), 8);
    assert_eq!(k.try_with(1, |v| *v + 2).ok(), Some(9));
}

#[test]
fn borrowed_vectors_keep_their_mutations() {
    let mut k = LocalKey::new(|| vec![1u8, 2, 3, 4]);
    assert_eq!(k.with_borrow(1, |v| v.clone()), vec![1, 2, 3, 4]);
    k.with_borrow_mut(1, |v| v.push(5));
    assert_eq!(k.with_borrow(1, |v| v.clone()), vec![1, 2, 3, 4, 5]);
    assert_eq!(k.with_borrow(2, |v| v.len()), 4);
}

#[test]
fn get_or_init_creates_once() {
    let mut s = StateInner::Uninit;
    assert_eq!(*s.get_or_init(&|| 3), 3);
    assert_eq!(*s.get_or_init(&|| 4), 3);
}

#[test]
fn a_threads_value_keeps_its_place() {
    let mut k = LocalKey::new(counter);
    let first = k.with(1, |v| format!("{:p}", v));
    for t in 2..200 {
        k.set(t, 1);
    }
    k.set(1, 3);
    assert_eq!(k.with(1, |v| format!("{:p}", v)), first);
    assert_eq!(k.with_borrow_mut(1, |v| format!("{:p}", v)), first);
    assert_eq!(k.take(1), 3);
    assert_eq!(k.with_borrow(1, |v| format!("{:p}", v)), first);
}
