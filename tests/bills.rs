use bill_manager::menu::{
    add_bill, check_description, remove_bill, view_bills, AddBillError, MainMenu, RemoveBillError,
};
use bill_manager::store::{Bill, BillManager};
use bill_manager::text::{amount_string, decimal_string, parse_index};

fn entries(store: &BillManager) -> Vec<(String, i64)> {
    store
        .get_bills()
        .iter()
        .map(|b| (b.description.clone(), b.amount))
        .collect()
}

fn store_with_rent_and_water() -> BillManager {
    let mut store = BillManager::new();
    assert_eq!(add_bill(&mut store, "Rent".to_string(), "1200", Some(120000)), Ok(()));
    assert_eq!(add_bill(&mut store, "Water".to_string(), "35.75", Some(3575)), Ok(()));
    store
}

#[test]
fn adds_are_listed_in_insertion_order() {
    let mut store = BillManager::new();
    let names = ["a", "b", "c", "d", "e"];
    for (i, name) in names.iter().enumerate() {
        store.add_bill(Bill::new(name.to_string(), i as i64 * 10));
        assert_eq!(store.get_bills().len(), i + 1);
    }
    let expected: Vec<(String, i64)> =
        names.iter().enumerate().map(|(i, n)| (n.to_string(), i as i64 * 10)).collect();
    assert_eq!(entries(&store), expected);
}

#[test]
fn remove_in_range_shifts_later_bills() {
    let mut store = BillManager::new();
    for (name, cents) in [("a", 1), ("b", 2), ("c", 3), ("d", 4)] {
        store.add_bill(Bill::new(name.to_string(), cents));
    }
    assert!(store.remove_bill(1));
    assert_eq!(
        entries(&store),
        vec![("a".to_string(), 1), ("c".to_string(), 3), ("d".to_string(), 4)]
    );
    assert!(store.remove_bill(2));
    assert_eq!(entries(&store), vec![("a".to_string(), 1), ("c".to_string(), 3)]);
}

#[test]
fn remove_out_of_range_fails_and_keeps_store() {
    let mut store = store_with_rent_and_water();
    assert!(!store.remove_bill(2));
    assert!(!store.remove_bill(usize::MAX));
    assert_eq!(store.get_bills().len(), 2);
    let mut empty = BillManager::new();
    assert!(!empty.remove_bill(0));
    assert!(empty.get_bills().is_empty());
}

#[test]
fn empty_description_is_rejected() {
    let mut store = store_with_rent_and_water();
    assert_eq!(
        add_bill(&mut store, String::new(), "10", Some(1000)),
        Err(AddBillError::EmptyDescription)
    );
    assert_eq!(store.get_bills().len(), 2);
    assert_eq!(check_description(""), Err(AddBillError::EmptyDescription));
    assert_eq!(check_description("Gas"), Ok(()));
}

#[test]
fn non_numeric_amount_is_rejected() {
    let mut store = store_with_rent_and_water();
    assert_eq!(
        add_bill(&mut store, "Gas".to_string(), "abc", None),
        Err(AddBillError::InvalidAmount)
    );
    assert_eq!(store.get_bills().len(), 2);
}

#[test]
fn empty_amount_is_rejected() {
    let mut store = BillManager::new();
    assert_eq!(add_bill(&mut store, "Gas".to_string(), "", None), Err(AddBillError::EmptyAmount));
    assert!(store.get_bills().is_empty());
}

#[test]
fn added_bill_comes_back_unchanged() {
    let mut store = BillManager::new();
    assert_eq!(add_bill(&mut store, "Electricity".to_string(), "42.5", Some(4250)), Ok(()));
    assert_eq!(entries(&store), vec![("Electricity".to_string(), 4250)]);
}

#[test]
fn view_of_empty_store() {
    let store = BillManager::new();
    assert_eq!(view_bills(&store), vec!["No bills to display.".to_string()]);
}

#[test]
fn view_lists_numbered_bills() {
    let store = store_with_rent_and_water();
    assert_eq!(
        view_bills(&store),
        vec![
            "Bills:".to_string(),
            "1. Rent - $1200.00".to_string(),
            "2. Water - $35.75".to_string(),
        ]
    );
}

#[test]
fn remove_by_entered_position() {
    let mut store = store_with_rent_and_water();
    assert_eq!(remove_bill(&mut store, "1"), Ok(()));
    assert_eq!(
        view_bills(&store),
        vec!["Bills:".to_string(), "1. Water - $35.75".to_string()]
    );
}

#[test]
fn remove_past_the_end_finds_no_bill() {
    let mut store = store_with_rent_and_water();
    let r = remove_bill(&mut store, "99");
    assert_eq!(r, Err(RemoveBillError::NotFound));
    assert_eq!(
        r.unwrap_err().message(),
        "No bill found at the given index. No bill removed."
    );
    assert_eq!(entries(&store).len(), 2);
}

#[test]
fn remove_position_zero_finds_no_bill() {
    let mut store = store_with_rent_and_water();
    assert_eq!(remove_bill(&mut store, "0"), Err(RemoveBillError::NotFound));
    assert_eq!(entries(&store).len(), 2);
}

#[test]
fn remove_with_unreadable_position() {
    let mut store = store_with_rent_and_water();
    for input in ["", "abc", "-1", "1.0", "+", "99999999999999999999999"] {
        assert_eq!(remove_bill(&mut store, input), Err(RemoveBillError::InvalidIndex));
    }
    assert_eq!(entries(&store).len(), 2);
    assert_eq!(
        RemoveBillError::InvalidIndex.message(),
        "Invalid index. No bill removed."
    );
}

#[test]
fn unrecognised_menu_input_exits() {
    assert_eq!(MainMenu::from_input("9"), None);
    assert_eq!(MainMenu::select("9"), MainMenu::Exit);
    assert_eq!(MainMenu::select(""), MainMenu::Exit);
    assert_eq!(MainMenu::select("11"), MainMenu::Exit);
}

#[test]
fn menu_entries() {
    assert_eq!(MainMenu::from_input("1"), Some(MainMenu::AddBill));
    assert_eq!(MainMenu::from_input("2"), Some(MainMenu::ViewBills));
    assert_eq!(MainMenu::from_input("3"), Some(MainMenu::RemoveBill));
    assert_eq!(MainMenu::from_input("4"), Some(MainMenu::Exit));
    assert_eq!(MainMenu::from_input(""), None);
    assert_eq!(MainMenu::select("2"), MainMenu::ViewBills);
}

#[test]
fn parse_index_forms() {
    assert_eq!(parse_index("7"), Some(7));
    assert_eq!(parse_index("+12"), Some(12));
    assert_eq!(parse_index("007"), Some(7));
    assert_eq!(parse_index(&usize::MAX.to_string()), Some(usize::MAX));
    assert_eq!(parse_index("18446744073709551616"), None);
    assert_eq!(parse_index("1 "), None);
    assert_eq!(parse_index("\u{663}"), None);
}

#[test]
fn number_and_amount_text() {
    assert_eq!(decimal_string(0), "0");
    assert_eq!(decimal_string(1205), "1205");
    assert_eq!(decimal_string(u64::MAX), u64::MAX.to_string());
    assert_eq!(amount_string(0), "0.00");
    assert_eq!(amount_string(5), "0.05");
    assert_eq!(amount_string(-350), "-3.50");
    assert_eq!(amount_string(i64::MIN), "-92233720368547758.08");
    assert_eq!(amount_string(i64::MAX), "92233720368547758.07");
}

#[test]
fn add_error_messages() {
    assert_eq!(
        AddBillError::EmptyDescription.message(),
        "Description cannot be empty. Bill not added."
    );
    assert_eq!(AddBillError::EmptyAmount.message(), "Amount cannot be empty. Bill not added.");
    assert_eq!(AddBillError::InvalidAmount.message(), "Invalid amount. Bill not added.");
}
