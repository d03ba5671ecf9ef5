use std::cell::RefCell;
use std::rc::Rc;

use hello::smart_point::ref_cell_def::{LimitTracker, Messenger};

struct MockMessenger {
    sent_messages: RefCell<Vec<String>>,
}

impl MockMessenger {
    fn new() -> MockMessenger {
        MockMessenger { sent_messages: RefCell::new(vec![]) }
    }
}

impl Messenger for MockMessenger {
    fn send(&self, message: &str) {
        self.sent_messages.borrow_mut().push(String::from(message));
    }
}

#[test]
fn it_sends_an_over_75_percent_warning_message() {
    let mock_messenger = MockMessenger::new();
    let mut limit_tracker = LimitTracker::new(&mock_messenger, 100);

    limit_tracker.set_value(80);
    assert_eq!(mock_messenger.sent_messages.borrow().len(), 1);
}

#[test]
fn tracker_thresholds_pick_the_right_message() {
    let mock_messenger = MockMessenger::new();
    let mut limit_tracker = LimitTracker::new(&mock_messenger, 100);

    limit_tracker.set_value(50);
    assert_eq!(mock_messenger.sent_messages.borrow().len(), 0);

    limit_tracker.set_value(75);
    assert_eq!(
        mock_messenger.sent_messages.borrow().last().unwrap(),
        "Warning: You've used up over 75% of your quota!"
    );

    limit_tracker.set_value(90);
    assert_eq!(
        mock_messenger.sent_messages.borrow().last().unwrap(),
        "Urgent warning: You've used up over 90% of your quota!"
    );

    limit_tracker.set_value(100);
    assert_eq!(
        mock_messenger.sent_messages.borrow().last().unwrap(),
        "Error: You are over your quota!"
    );

    assert_eq!(mock_messenger.sent_messages.borrow().len(), 3);
}

#[test]
fn tracker_boundaries_at_nine_tenths() {
    let mock_messenger = MockMessenger::new();
    let mut limit_tracker = LimitTracker::new(&mock_messenger, 10);

    limit_tracker.set_value(8);
    assert_eq!(
        mock_messenger.sent_messages.borrow().last().unwrap(),
        "Warning: You've used up over 75% of your quota!"
    );

    limit_tracker.set_value(9);
    assert_eq!(
        mock_messenger.sent_messages.borrow().last().unwrap(),
        "Urgent warning: You've used up over 90% of your quota!"
    );
}

#[derive(Debug)]
enum List {
    Cons(Rc<RefCell<i32>>, Rc<List>),
    Nil,
}

use List::{Cons, Nil};

#[test]
fn rc_with_ref_ell() {
    let value = Rc::new(RefCell::new(5));

    let a = Rc::new(Cons(Rc::clone(&value), Rc::new(Nil)));

    let b = Cons(Rc::new(RefCell::new(3)), Rc::clone(&a));
    let c = Cons(Rc::new(RefCell::new(4)), Rc::clone(&a));

    *value.borrow_mut() += 10;

    println!("a after = {a:?}");
    println!("b after = {b:?}");
    println!("c after = {c:?}");
}
