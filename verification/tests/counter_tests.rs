use todo_list::counter::Counter;

#[test]
fn default_works() {
    let counter = Counter::default();
    assert_eq!(counter.get_counter(), 0);
}

#[test]
fn increment_works() {
    let mut counter = Counter::new(1);
    assert_eq!(counter.get_counter(), 1);
    counter.increment_counter();
    assert_eq!(counter.get_counter(), 2);
}

#[test]
fn decrement_works() {
    let mut counter = Counter::new(1);
    assert_eq!(counter.get_counter(), 1);
    counter.decrement_counter();
    assert_eq!(counter.get_counter(), 0);
}

#[test]
fn new_keeps_initial_value() {
    let counter = Counter::new(-7);
    assert_eq!(counter.get_counter(), -7);
}
