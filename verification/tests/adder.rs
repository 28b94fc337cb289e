use task_executor::adder;

#[test]
fn it_works() {
    let result = adder::add(2, 2);
    assert_eq!(result, 4);
}

#[test]
fn exploration() {
    assert_eq!(2 * 2, 4);
}

#[test]
fn add_reaches_the_largest_word() {
    assert_eq!(adder::add(usize::MAX - 1, 1), usize::MAX);
    assert_eq!(adder::add(0, 0), 0);
}
