use rust_bucket::limit_tracker::{quota_level, LimitTracker, Messenger, QuotaLevel};
use std::cell::RefCell;

struct MockMessenger {
    sent_message: RefCell<Vec<String>>,
}

impl MockMessenger {
    fn new() -> MockMessenger {
        MockMessenger { sent_message: RefCell::new(vec![]) }
    }
}

impl Messenger for MockMessenger {
    fn send(&self, message: &str) {
        self.sent_message.borrow_mut().push(String::from(message));
    }
}

#[test]
fn it_sends_an_over_75_percent_warning_message() {
    let mock_messenger = MockMessenger::new();
    let mut limit_tracker = LimitTracker::new(&mock_messenger, 100);

    limit_tracker.set_value(80);

    assert_eq!(mock_messenger.sent_message.borrow().len(), 1);
}

#[test]
fn warning_message_names_the_threshold() {
    let mock_messenger = MockMessenger::new();
    let mut limit_tracker = LimitTracker::new(&mock_messenger, 100);

    limit_tracker.set_value(80);

    assert_eq!(
        mock_messenger.sent_message.borrow()[0],
        "Warning: You've used up over 75% of your quota!"
    );
}

#[test]
fn quiet_below_three_quarters() {
    let mock_messenger = MockMessenger::new();
    let mut limit_tracker = LimitTracker::new(&mock_messenger, 100);

    limit_tracker.set_value(74);

    assert_eq!(mock_messenger.sent_message.borrow().len(), 0);
}

#[test]
fn urgent_from_ninety_percent_and_error_from_the_maximum() {
    assert_eq!(quota_level(89, 100), QuotaLevel::Warning);
    assert_eq!(quota_level(90, 100), QuotaLevel::Urgent);
    assert_eq!(quota_level(99, 100), QuotaLevel::Urgent);
    assert_eq!(quota_level(100, 100), QuotaLevel::OverQuota);
    assert_eq!(quota_level(75, 100), QuotaLevel::Warning);
    assert_eq!(quota_level(0, 0), QuotaLevel::Quiet);
    assert_eq!(quota_level(1, 0), QuotaLevel::OverQuota);
}
