use expense_tracker::{add_expense, delete_expense, highest_id, next_id, Expense};

fn expense(id: u32, description: &str, amount: f64) -> Expense<f64> {
    Expense { id, description: description.to_string(), amount }
}

fn ids(expenses: &[Expense<f64>]) -> Vec<u32> {
    expenses.iter().map(|e| e.id).collect()
}

#[test]
fn add_to_empty_datastore_assigns_id_one() {
    let outcome = add_expense(Vec::new(), "Coffee".to_string(), 3.5).unwrap();
    assert_eq!(outcome.save, Some(vec![expense(1, "Coffee", 3.5)]));
    assert_eq!(outcome.message, "Expense added successfully with ID: 1");
    assert!(outcome.message.contains("ID: 1"));
}

#[test]
fn add_after_ids_one_and_two_assigns_three() {
    let before = vec![expense(1, "Coffee", 3.5), expense(2, "Lunch", 11.25)];
    let outcome = add_expense(before, "Book".to_string(), 12.0).unwrap();
    let saved = outcome.save.unwrap();
    assert_eq!(
        saved,
        vec![expense(1, "Coffee", 3.5), expense(2, "Lunch", 11.25), expense(3, "Book", 12.0)]
    );
    assert_eq!(outcome.message, "Expense added successfully with ID: 3");
}

#[test]
fn add_goes_by_the_largest_id_not_by_the_count() {
    let before = vec![expense(7, "a", 1.0), expense(2, "b", 2.0), expense(40, "c", 3.0), expense(5, "d", 4.0)];
    let outcome = add_expense(before, "e".to_string(), 5.0).unwrap();
    let saved = outcome.save.unwrap();
    assert_eq!(ids(&saved), vec![7, 2, 40, 5, 41]);
    assert_eq!(saved[4], expense(41, "e", 5.0));
    assert_eq!(outcome.message, "Expense added successfully with ID: 41");
}

#[test]
fn add_appends_and_keeps_what_was_there() {
    let before = vec![expense(3, "Tea", 2.0), expense(1, "Bus", 1.8)];
    let saved = add_expense(before.clone(), "Rent".to_string(), 900.0).unwrap().save.unwrap();
    assert_eq!(saved.len(), 3);
    assert_eq!(&saved[..2], &before[..]);
    assert_eq!(saved[2], expense(4, "Rent", 900.0));
}

#[test]
fn add_accepts_any_amount_and_description() {
    let saved = add_expense(Vec::new(), String::new(), -4.25).unwrap().save.unwrap();
    assert_eq!(saved, vec![expense(1, "", -4.25)]);
    let saved = add_expense(saved, "Refund\nsecond line".to_string(), 0.0).unwrap().save.unwrap();
    assert_eq!(saved[1], expense(2, "Refund\nsecond line", 0.0));
}

#[test]
fn add_reuses_the_largest_id_once_it_was_deleted() {
    let before = vec![expense(1, "a", 1.0), expense(2, "b", 2.0), expense(3, "c", 3.0)];
    let after_delete = delete_expense(before, 3).save.unwrap();
    let saved = add_expense(after_delete, "d".to_string(), 4.0).unwrap().save.unwrap();
    assert_eq!(ids(&saved), vec![1, 2, 3]);
    assert_eq!(saved[2].description, "d");
}

#[test]
fn add_does_not_reuse_a_smaller_id_that_was_deleted() {
    let before = vec![expense(1, "a", 1.0), expense(2, "b", 2.0), expense(3, "c", 3.0)];
    let after_delete = delete_expense(before, 1).save.unwrap();
    let saved = add_expense(after_delete, "d".to_string(), 4.0).unwrap().save.unwrap();
    assert_eq!(ids(&saved), vec![2, 3, 4]);
}

#[test]
fn add_gives_nothing_when_no_id_is_left() {
    let before = vec![expense(1, "a", 1.0), expense(u32::MAX, "b", 2.0)];
    assert!(add_expense(before.clone(), "c".to_string(), 3.0).is_none());
    assert_eq!(next_id(&before), None);
}

#[test]
fn add_assigns_the_last_id() {
    let before = vec![expense(u32::MAX - 1, "a", 1.0)];
    let outcome = add_expense(before, "b".to_string(), 2.0).unwrap();
    assert_eq!(outcome.save.unwrap()[1].id, u32::MAX);
    assert_eq!(outcome.message, "Expense added successfully with ID: 4294967295");
}

#[test]
fn ids_stay_distinct_over_many_adds() {
    let mut expenses: Vec<Expense<f64>> = Vec::new();
    for n in 0..50u32 {
        expenses = add_expense(expenses, format!("item {}", n), 1.5).unwrap().save.unwrap();
        if n % 7 == 3 {
            expenses = delete_expense(expenses, n / 2 + 1).save.unwrap();
        }
    }
    let mut seen = ids(&expenses);
    seen.sort();
    let count = seen.len();
    seen.dedup();
    assert_eq!(seen.len(), count);
    assert!(seen.iter().all(|id| *id >= 1));
}

#[test]
fn highest_id_of_no_records_is_zero() {
    let none: Vec<Expense<f64>> = Vec::new();
    assert_eq!(highest_id(&none), 0);
    assert_eq!(next_id(&none), Some(1));
}

#[test]
fn highest_id_is_the_largest_wherever_it_stands() {
    assert_eq!(highest_id(&vec![expense(9, "a", 1.0), expense(4, "b", 1.0)]), 9);
    assert_eq!(highest_id(&vec![expense(4, "a", 1.0), expense(9, "b", 1.0)]), 9);
    assert_eq!(highest_id(&vec![expense(4, "a", 1.0), expense(9, "b", 1.0), expense(5, "c", 1.0)]), 9);
    assert_eq!(next_id(&vec![expense(4, "a", 1.0), expense(9, "b", 1.0)]), Some(10));
}

#[test]
fn amount_type_is_free() {
    let outcome = add_expense(Vec::new(), "Coffee".to_string(), "3.50".to_string()).unwrap();
    assert_eq!(
        outcome.save.unwrap(),
        vec![Expense { id: 1, description: "Coffee".to_string(), amount: "3.50".to_string() }]
    );
}
