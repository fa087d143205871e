use std::cell::RefCell;

use primer::quota_warning;
use primer::LimitTracker;
use primer::Messenger;

struct MockMessenger {
    sent_messages: RefCell<Vec<String>>,
}

impl MockMessenger {
    fn new() -> MockMessenger {
        MockMessenger {
            sent_messages: RefCell::new(vec![]),
        }
    }
}

impl Messenger for MockMessenger {
    fn send(&self, msg: &str) {
        self.sent_messages.borrow_mut().push(String::from(msg))
    }
}

#[test]
fn sends_75_percent_warning_msg() {
    let mock_messenger = MockMessenger::new();
    let mut limit_tracker = LimitTracker::new(&mock_messenger, 100);

    limit_tracker.set_value(80);

    assert_eq!(mock_messenger.sent_messages.borrow().len(), 1);
}

#[test]
fn warns_with_the_right_words() {
    let mock_messenger = MockMessenger::new();
    let mut limit_tracker = LimitTracker::new(&mock_messenger, 100);

    limit_tracker.set_value(80);
    limit_tracker.set_value(100);

    let sent = mock_messenger.sent_messages.borrow();
    assert_eq!(2, sent.len());
    assert_eq!("You've used up 75% of your quota.", sent[0]);
    assert_eq!("Error: You're over your quota.", sent[1]);
}

#[test]
fn low_values_send_nothing() {
    let mock_messenger = MockMessenger::new();
    let mut limit_tracker = LimitTracker::new(&mock_messenger, 100);

    limit_tracker.set_value(10);
    limit_tracker.set_value(74);

    assert_eq!(0, mock_messenger.sent_messages.borrow().len());
}

#[test]
fn quota_warning_levels() {
    assert_eq!(None, quota_warning(74, 100));
    assert_eq!(Some("You've used up 75% of your quota."), quota_warning(75, 100));
    assert_eq!(Some("You've used up 75% of your quota."), quota_warning(99, 100));
    assert_eq!(Some("Error: You're over your quota."), quota_warning(100, 100));
    assert_eq!(Some("Error: You're over your quota."), quota_warning(250, 100));
}

#[test]
fn zero_limit_is_exceeded_by_any_value() {
    assert_eq!(None, quota_warning(0, 0));
    assert_eq!(Some("Error: You're over your quota."), quota_warning(1, 0));
}
