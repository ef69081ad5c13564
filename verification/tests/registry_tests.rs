use todo_list::registry::{zero_address, AccountId, Prioritise, TodoError, TodoItem, TodoList};

fn alice() -> AccountId {
    AccountId { id: 1 }
}

fn bob() -> AccountId {
    AccountId { id: 2 }
}

#[test]
fn register_works() {
    let contract = TodoList::new(alice());
    assert_eq!(contract.owner, alice());
}

#[test]
fn create_todo_works() {
    let mut contract = TodoList::new(alice());

    let name = "Item One".to_owned();
    contract
        .create_todo(alice(), name, Prioritise::HIGH)
        .unwrap_or_default();

    assert_eq!(contract.get_all_todo(), 1);

    let name = "Item two".to_owned();
    contract
        .create_todo(bob(), name, Prioritise::LOW)
        .unwrap_or_default();
    assert_eq!(contract.get_all_todo(), 2);
}

#[test]
fn update_item() {
    let mut contract = TodoList::new(alice());

    let name = "Item One".to_owned();
    contract
        .create_todo(alice(), name, Prioritise::HIGH)
        .unwrap_or_default();

    contract.update_item(alice(), 1).unwrap_or_default();

    let stored = contract.get_item(1).unwrap();

    assert_eq!(stored.is_completed, true);
}

#[test]
fn first_create_assigns_id_one() {
    let mut contract = TodoList::new(alice());
    assert!(contract
        .create_todo(alice(), "Buy milk".to_owned(), Prioritise::LOW)
        .is_ok());
    assert_eq!(contract.get_all_todo(), 1);
    let stored = contract.get_item(1).unwrap();
    assert_eq!(stored.owner, alice());
    assert_eq!(stored.item_name, "Buy milk");
    assert_eq!(stored.is_completed, false);
    assert_eq!(stored.priority, Prioritise::LOW);
}

#[test]
fn listing_ignores_other_owners() {
    let mut contract = TodoList::new(alice());
    contract
        .create_todo(alice(), "Buy milk".to_owned(), Prioritise::LOW)
        .unwrap();
    contract
        .create_todo(bob(), "Write report".to_owned(), Prioritise::HIGH)
        .unwrap();

    let items: Vec<TodoItem> = contract.get_my_todo(bob());
    assert_eq!(items.len(), 1);
    assert_eq!(items[0].owner, bob());
    assert_eq!(items[0].item_name, "Write report");
    assert_eq!(items[0].is_completed, false);
    assert_eq!(items[0].priority, Prioritise::HIGH);
}

#[test]
fn update_by_non_owner_is_unauthorized() {
    let mut contract = TodoList::new(alice());
    contract
        .create_todo(alice(), "Buy milk".to_owned(), Prioritise::LOW)
        .unwrap();

    assert_eq!(contract.update_item(bob(), 1), Err(TodoError::NotAOwner));

    let stored = contract.get_item(1).unwrap();
    assert_eq!(stored.owner, alice());
    assert_eq!(stored.is_completed, false);
}

#[test]
fn update_by_owner_completes() {
    let mut contract = TodoList::new(alice());
    contract
        .create_todo(alice(), "Buy milk".to_owned(), Prioritise::LOW)
        .unwrap();

    assert_eq!(contract.update_item(alice(), 1), Ok(()));
    assert_eq!(contract.get_my_todo(alice())[0].is_completed, true);
}

#[test]
fn update_of_missing_id_is_not_found() {
    let mut contract = TodoList::new(alice());
    assert_eq!(contract.update_item(alice(), 99), Err(TodoError::ItemNotExists));
    assert_eq!(contract.update_item(alice(), 0), Err(TodoError::ItemNotExists));
    assert_eq!(contract.update_item(alice(), -3), Err(TodoError::ItemNotExists));
}

#[test]
fn update_preserves_other_fields() {
    let mut contract = TodoList::new(alice());
    contract
        .create_todo(alice(), "Write report".to_owned(), Prioritise::MEDIUM)
        .unwrap();

    assert_eq!(contract.update_item(alice(), 1), Ok(()));

    let stored = contract.get_item(1).unwrap();
    assert_eq!(stored.owner, alice());
    assert_eq!(stored.item_name, "Write report");
    assert_eq!(stored.is_completed, true);
    assert_eq!(stored.priority, Prioritise::MEDIUM);
}

#[test]
fn update_twice_stays_completed() {
    let mut contract = TodoList::new(alice());
    contract
        .create_todo(alice(), "Buy milk".to_owned(), Prioritise::LOW)
        .unwrap();

    assert_eq!(contract.update_item(alice(), 1), Ok(()));
    assert_eq!(contract.update_item(alice(), 1), Ok(()));
    assert_eq!(contract.get_item(1).unwrap().is_completed, true);
}

#[test]
fn allocator_hands_out_increasing_ids() {
    let mut contract = TodoList::new(alice());
    let first = contract.get_item_id();
    let second = contract.get_item_id();
    let third = contract.get_item_id();
    assert_eq!(first, 1);
    assert_eq!(second, 2);
    assert_eq!(third, 3);
}

#[test]
fn listing_is_in_ascending_id_order() {
    let mut contract = TodoList::new(alice());
    contract
        .create_todo(alice(), "first".to_owned(), Prioritise::LOW)
        .unwrap();
    contract
        .create_todo(bob(), "other".to_owned(), Prioritise::HIGH)
        .unwrap();
    contract
        .create_todo(alice(), "second".to_owned(), Prioritise::MEDIUM)
        .unwrap();
    contract
        .create_todo(alice(), "third".to_owned(), Prioritise::HIGH)
        .unwrap();

    let mine = contract.get_my_todo(alice());
    assert_eq!(mine.len(), 3);
    assert_eq!(mine[0].item_name, "first");
    assert_eq!(mine[1].item_name, "second");
    assert_eq!(mine[2].item_name, "third");
}

#[test]
fn count_after_n_creates_is_n() {
    let mut contract = TodoList::new(alice());
    assert_eq!(contract.get_all_todo(), 0);
    for i in 0..5 {
        contract
            .create_todo(alice(), format!("item {}", i), Prioritise::MEDIUM)
            .unwrap();
    }
    assert_eq!(contract.get_all_todo(), 5);
}

#[test]
fn skipped_id_has_no_record() {
    let mut contract = TodoList::new(alice());
    let skipped = contract.get_item_id();
    assert_eq!(skipped, 1);
    contract
        .create_todo(alice(), "after the gap".to_owned(), Prioritise::LOW)
        .unwrap();

    assert!(contract.get_item(1).is_none());
    assert!(contract.get_item(2).is_some());
    assert_eq!(contract.get_all_todo(), 1);
    assert_eq!(contract.update_item(alice(), 1), Err(TodoError::ItemNotExists));
}

#[test]
fn zero_address_is_the_null_identity() {
    assert_eq!(zero_address(), AccountId { id: 0 });
    assert_ne!(zero_address(), alice());
}

#[test]
fn default_item_is_open_and_unowned() {
    let item = TodoItem::default();
    assert_eq!(item.owner, zero_address());
    assert_eq!(item.item_name, "");
    assert_eq!(item.is_completed, false);
    assert_eq!(item.priority, Prioritise::HIGH);
}
