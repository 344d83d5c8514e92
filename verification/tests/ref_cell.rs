use riji::ref_cell::{BorrowFlag, Ref, RefCell};
use std::cell::Cell;
use std::rc::Rc;

struct Tally {
    drops: Rc<Cell<u32>>,
}

impl Drop for Tally {
    fn drop(&mut self) {
        self.drops.set(self.drops.get() + 1);
    }
}

#[test]
fn flag_starts_unused() {
    let flag = BorrowFlag::unused();
    assert!(!flag.is_reading());
    assert!(!flag.is_writing());
}

#[test]
fn flag_counts_shared_holds() {
    let mut flag = BorrowFlag::unused();
    assert!(flag.add_ref());
    assert!(flag.add_ref());
    assert!(flag.is_reading());
    assert!(!flag.is_writing());
    flag.rm_ref();
    assert!(flag.is_reading());
    flag.rm_ref();
    assert!(!flag.is_reading());
}

#[test]
fn flag_refuses_exclusive_while_shared() {
    let mut flag = BorrowFlag::unused();
    assert!(flag.add_ref());
    assert!(!flag.add_ref_mut());
    assert!(flag.is_reading());
    assert!(!flag.is_writing());
}

#[test]
fn flag_refuses_anything_while_exclusive() {
    let mut flag = BorrowFlag::unused();
    assert!(flag.add_ref_mut());
    assert!(flag.is_writing());
    assert!(!flag.is_reading());
    assert!(!flag.add_ref());
    assert!(!flag.add_ref_mut());
    assert!(flag.is_writing());
    flag.rm_ref_mut();
    assert!(!flag.is_writing());
    assert!(flag.add_ref_mut());
}

#[test]
fn new_cell_is_free() {
    let cell = RefCell::new(7u32);
    assert!(!cell.flag().is_reading());
    assert!(!cell.flag().is_writing());
    assert_eq!(cell.into_inner(), 7);
}

#[test]
fn two_shared_holds_together() {
    let mut cell = RefCell::new(String::from("shared"));
    let first = cell.try_borrow();
    let second = cell.try_borrow();
    assert!(first.is_some());
    assert!(second.is_some());
    let first = first.unwrap();
    let second = second.unwrap();
    assert_eq!(cell.get(&first), "shared");
    assert_eq!(cell.get(&second), "shared");
    cell.release(first);
    assert!(cell.flag().is_reading());
    cell.release(second);
    assert!(!cell.flag().is_reading());
}

#[test]
fn exclusive_fails_while_shared_is_out() {
    let mut cell = RefCell::new(1u8);
    let guard = cell.borrow();
    assert!(cell.try_borrow_mut().is_none());
    assert!(cell.flag().is_reading());
    cell.release(guard);
}

#[test]
fn exclusive_fails_while_exclusive_is_out() {
    let mut cell = RefCell::new(1u8);
    let guard = cell.borrow_mut();
    assert!(cell.try_borrow_mut().is_none());
    assert!(cell.try_borrow().is_none());
    assert!(cell.flag().is_writing());
    cell.release(guard);
    assert!(!cell.flag().is_writing());
}

#[test]
fn exclusive_succeeds_after_all_released() {
    let mut cell = RefCell::new(0i64);
    let a = cell.borrow();
    let b = cell.borrow();
    let c = cell.borrow();
    cell.release(b);
    cell.release(a);
    assert!(cell.try_borrow_mut().is_none());
    cell.release(c);
    let exclusive = cell.try_borrow_mut();
    assert!(exclusive.is_some());
    cell.release(exclusive.unwrap());
    assert!(cell.try_borrow_mut().is_some());
}

#[test]
fn shared_twice_exclusive_mutates_shared_observes() {
    let mut cell = RefCell::new(5);
    let first = cell.try_borrow();
    let second = cell.try_borrow();
    assert!(first.is_some() && second.is_some());
    assert!(cell.try_borrow_mut().is_none());
    cell.release(first.unwrap());
    cell.release(second.unwrap());
    let exclusive = cell.try_borrow_mut().unwrap();
    *cell.get_mut(&exclusive) = 6;
    cell.release(exclusive);
    let reader = cell.try_borrow().unwrap();
    assert_eq!(*cell.get(&reader), 6);
    cell.release(reader);
}

#[test]
fn failed_derivation_releases_the_hold() {
    let mut cell = RefCell::new(vec![1, 2, 3]);
    let guard = cell.borrow();
    let derived: Result<Ref<usize>, &str> = cell.try_project(guard, |_| Err("not ready"));
    match derived {
        Ok(_) => panic!("the derivation was meant to fail"),
        Err(e) => assert_eq!(e, "not ready"),
    }
    assert!(!cell.flag().is_reading());
    let exclusive = cell.try_borrow_mut();
    assert!(exclusive.is_some());
}

#[test]
fn derived_value_keeps_the_hold() {
    let mut cell = RefCell::new(vec![1, 2, 3]);
    let guard = cell.borrow();
    let derived = cell.project(guard, |v: &Vec<i32>| v.iter().sum::<i32>());
    assert_eq!(*derived, 6);
    assert!(cell.try_borrow_mut().is_none());
    cell.release(derived);
    assert!(cell.try_borrow_mut().is_some());
}

#[test]
fn successful_derivation_keeps_the_hold() {
    let mut cell = RefCell::new(String::from("abc"));
    let guard = cell.borrow();
    let derived: Result<Ref<usize>, String> = cell.try_project(guard, |s: &String| Ok(s.len()));
    let derived = match derived {
        Ok(kept) => kept,
        Err(_) => panic!("the derivation was meant to succeed"),
    };
    assert_eq!(*derived, 3);
    assert!(cell.flag().is_reading());
    assert!(cell.try_borrow_mut().is_none());
    cell.release(derived);
    assert!(!cell.flag().is_reading());
    assert!(cell.try_borrow_mut().is_some());
}

#[test]
fn failed_derivation_leaves_other_holds() {
    let mut cell = RefCell::new(1u8);
    let other = cell.borrow();
    let guard = cell.borrow();
    let derived: Result<Ref<u8>, u8> = cell.try_project(guard, |v: &u8| Err(*v));
    assert!(derived.is_err());
    assert!(cell.flag().is_reading());
    assert!(cell.try_borrow_mut().is_none());
    cell.release(other);
    assert!(cell.try_borrow_mut().is_some());
}

#[test]
fn transpose_keeps_a_success() {
    let mut cell = RefCell::new(());
    let guard = cell.borrow();
    let carried: Ref<Result<u32, String>> = Ref::map(guard, |_| Ok(9));
    let turned = Ref::transpose(carried, &mut cell);
    let kept = match turned {
        Ok(kept) => kept,
        Err(_) => panic!("a success was carried"),
    };
    assert_eq!(*kept, 9);
    assert!(cell.flag().is_reading());
    cell.release(kept);
    assert!(!cell.flag().is_reading());
}

#[test]
fn transpose_releases_on_failure() {
    let mut cell = RefCell::new(());
    let guard = cell.borrow_mut();
    let carried: Ref<Result<u32, String>> = Ref::map(guard, |_| Err(String::from("broken")));
    assert!(cell.flag().is_writing());
    let turned = Ref::transpose(carried, &mut cell);
    match turned {
        Ok(_) => panic!("a failure was carried"),
        Err(e) => assert_eq!(e, "broken"),
    }
    assert!(!cell.flag().is_writing());
    assert!(cell.try_borrow_mut().is_some());
}

#[test]
fn map_replaces_the_carried_value() {
    let mut cell = RefCell::new(2u32);
    let guard = cell.borrow();
    let doubled = cell.project(guard, |v: &u32| *v * 2);
    let shown = Ref::map(doubled, |v: u32| v.to_string());
    assert_eq!(*shown, "4");
    assert!(cell.flag().is_reading());
    cell.release(shown);
}

#[test]
fn carried_value_can_be_changed() {
    let mut cell = RefCell::new(0u8);
    let guard = cell.borrow();
    let mut carried = Ref::map(guard, |_| vec![1u8]);
    carried.push(2);
    assert_eq!(*carried, vec![1u8, 2]);
    cell.release(carried);
}

#[test]
fn leaked_hold_stays() {
    let mut cell = RefCell::new(11u16);
    assert_eq!(*cell.leak_ref(), 11);
    assert!(cell.flag().is_reading());
    assert!(cell.try_borrow_mut().is_none());
    assert!(cell.try_borrow().is_some());
}

#[test]
fn bare_counts_block_like_guards() {
    let mut cell = RefCell::new(0u8);
    cell.increment_ref();
    assert!(cell.flag().is_reading());
    assert!(cell.try_borrow_mut().is_none());
    let mut other = RefCell::new(0u8);
    other.increment_ref_mut();
    assert!(other.flag().is_writing());
    assert!(other.try_borrow().is_none());
}

#[test]
fn cell_drops_its_value_once() {
    let drops = Rc::new(Cell::new(0));
    let mut cell = RefCell::new(Tally { drops: drops.clone() });
    let guard = cell.borrow();
    let derived = cell.project(guard, |t: &Tally| t.drops.get());
    assert_eq!(*derived, 0);
    cell.release(derived);
    assert_eq!(drops.get(), 0);
    drop(cell);
    assert_eq!(drops.get(), 1);
}

#[test]
fn release_drops_the_carried_value() {
    let drops = Rc::new(Cell::new(0));
    let mut cell = RefCell::new(0u8);
    let guard = cell.borrow();
    let counter = drops.clone();
    let carried = Ref::map(guard, move |_| Tally { drops: counter });
    assert_eq!(drops.get(), 0);
    cell.release(carried);
    assert_eq!(drops.get(), 1);
}

#[test]
fn counter_agrees_with_guards_that_are_out() {
    let mut cell = RefCell::new(0u8);
    let shared = cell.borrow();
    assert!(cell.counts(&shared));
    cell.release(shared);
    let exclusive = cell.borrow_mut();
    assert!(cell.counts(&exclusive));
    let mut other = RefCell::new(0u8);
    assert!(!other.counts(&exclusive));
    let reader = other.borrow();
    assert!(!other.counts(&exclusive));
    assert!(!cell.counts(&reader));
    other.release(reader);
    cell.release(exclusive);
}

#[test]
fn cell_from_a_value_is_free() {
    let mut cell: RefCell<&str> = RefCell::from("value");
    assert!(!cell.flag().is_reading());
    assert!(!cell.flag().is_writing());
    let guard = cell.try_borrow_mut().unwrap();
    assert_eq!(*cell.get(&guard), "value");
    cell.release(guard);
}
