use hello::{add, return_function, subtract};

#[test]
fn test_add_success() {
    assert_eq!(add(1, 2), 3);
}

#[test]
#[should_panic(expected = "test panic")]
fn test_add_panic() {
    panic!("test panic")
}

#[test]
fn return_function_adds_one() {
    assert_eq!(return_function(5), 6);
    assert_eq!(return_function(-1), 0);
}

#[test]
fn test_subtract_success() {
    assert_eq!(subtract(1, 2), -1);
}
