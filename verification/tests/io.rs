use gitlab_rescue::io::IO;
use std::cell::RefCell;
use std::rc::Rc;

#[test]
fn unit_applies_the_function() {
    assert_eq!(IO::unit(|| 7).apply(), 7);
}

#[test]
fn unit_carries_nothing_out() {
    let log = Rc::new(RefCell::new(Vec::new()));
    let seen = log.clone();
    let io = IO::unit(move || seen.borrow_mut().push("effect"));
    assert!(log.borrow().is_empty());
    io.apply();
    assert_eq!(*log.borrow(), vec!["effect"]);
}

#[test]
fn map_applies_the_function_to_the_result() {
    assert_eq!(IO::unit(|| 20).map(|n: i32| n + 1).apply(), 21);
    assert_eq!(IO::unit(|| "a").map(|s: &str| s.len()).map(|n: usize| n * 2).apply(), 2);
}

#[test]
fn map_carries_nothing_out_before_apply() {
    let log = Rc::new(RefCell::new(Vec::new()));
    let (first, second) = (log.clone(), log.clone());
    let io = IO::unit(move || first.borrow_mut().push(1)).map(move |_| second.borrow_mut().push(2));
    assert!(log.borrow().is_empty());
    io.apply();
    assert_eq!(*log.borrow(), vec![1, 2]);
}

#[test]
fn flat_map_applies_both_effects_in_order() {
    let log = Rc::new(RefCell::new(Vec::new()));
    let (first, second) = (log.clone(), log.clone());
    let io = IO::unit(move || {
        first.borrow_mut().push("one");
        3
    })
    .flat_map(move |n: i32| {
        IO::unit(move || {
            second.borrow_mut().push("two");
            n * 2
        })
    });
    assert!(log.borrow().is_empty());
    assert_eq!(io.apply(), 6);
    assert_eq!(*log.borrow(), vec!["one", "two"]);
}
