use reactive_firmware::action::{Action, ActionList, ACTION_CAPACITY};

#[test]
fn action_list_keeps_order_up_to_capacity() {
    let mut l = ActionList::new();
    assert!(l.is_empty());
    for i in 0..ACTION_CAPACITY {
        l.push(Action::ToggleLed(i));
    }
    assert_eq!(l.len(), 7);
    let expected: Vec<Action> = (0..7).map(Action::ToggleLed).collect();
    assert_eq!(l.as_slice(), expected);
}
