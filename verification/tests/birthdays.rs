use birthday_reminder::birthday::{EMPTY_LIST_TEXT, LIST_HEADER};
use birthday_reminder::{Birthday, Birthdays};

fn birthday(name: &str, date: &str, username: &str) -> Birthday {
    Birthday { name: name.to_string(), date: date.to_string(), username: username.to_string() }
}

fn three() -> Birthdays {
    Birthdays::new(vec![
        birthday("Ada Lovelace", "10-12", "ada"),
        birthday("Alan Turing", "23-06", ""),
        birthday("Grace Hopper", "09-12", "grace"),
    ])
}

fn sorted(list: &Birthdays) -> Vec<(String, String, String)> {
    let mut all: Vec<(String, String, String)> = list
        .iter()
        .map(|b| (b.name.clone(), b.date.clone(), b.username.clone()))
        .collect();
    all.sort();
    all
}

#[test]
fn new_list_keeps_order_and_length() {
    let list = three();
    assert_eq!(list.len(), 3);
    assert!(!list.is_empty());
    let names: Vec<&str> = list.iter().map(|b| b.name.as_str()).collect();
    assert_eq!(names, vec!["Ada Lovelace", "Alan Turing", "Grace Hopper"]);
}

#[test]
fn default_list_is_empty() {
    let list = Birthdays::default();
    assert_eq!(list.len(), 0);
    assert!(list.is_empty());
    assert!(list.iter().next().is_none());
    assert!(list.get(0).is_none());
}

#[test]
fn get_returns_entry_or_none() {
    let list = three();
    assert_eq!(list.get(1), Some(&birthday("Alan Turing", "23-06", "")));
    assert_eq!(list.get(3), None);
}

#[test]
fn birthdays_are_equal_by_all_three_fields() {
    let a = birthday("Ada Lovelace", "10-12", "ada");
    assert_eq!(a, birthday("Ada Lovelace", "10-12", "ada"));
    assert_ne!(a, birthday("Ada Lovelace", "10-12", ""));
    assert_ne!(a, birthday("Ada Lovelace", "11-12", "ada"));
    assert_ne!(a, birthday("Ada Byron", "10-12", "ada"));
    assert_eq!(a.clone(), a);
    assert_eq!(Birthday::default(), birthday("", "", ""));
}

#[test]
fn append_adds_at_the_end_even_if_equal() {
    let mut list = three();
    list.append(birthday("Ada Lovelace", "10-12", "ada"));
    assert_eq!(list.len(), 4);
    assert_eq!(list.get(3), Some(&birthday("Ada Lovelace", "10-12", "ada")));
    assert_eq!(list.get(0), Some(&birthday("Ada Lovelace", "10-12", "ada")));
}

#[test]
fn contains_finds_equal_entries_only() {
    let list = three();
    assert!(list.contains(&birthday("Alan Turing", "23-06", "")));
    assert!(!list.contains(&birthday("Alan Turing", "23-06", "alan")));
}

#[test]
fn remove_at_middle_returns_it_and_keeps_order() {
    let mut list = three();
    let removed = list.remove_at(1);
    assert_eq!(removed, Some(birthday("Alan Turing", "23-06", "")));
    assert_eq!(list.len(), 2);
    assert_eq!(list.get(0), Some(&birthday("Ada Lovelace", "10-12", "ada")));
    assert_eq!(list.get(1), Some(&birthday("Grace Hopper", "09-12", "grace")));
}

#[test]
fn remove_at_out_of_range_changes_nothing() {
    let mut list = three();
    assert_eq!(list.remove_at(3), None);
    assert_eq!(list.len(), 3);
    assert_eq!(sorted(&list), sorted(&three()));
    let mut empty = Birthdays::default();
    assert_eq!(empty.remove_at(0), None);
    assert!(empty.is_empty());
}

#[test]
fn extend_unions_and_drops_duplicates() {
    let mut list = three();
    let other = Birthdays::new(vec![
        birthday("Alan Turing", "23-06", ""),
        birthday("Edsger Dijkstra", "11-05", "ewd"),
        birthday("Edsger Dijkstra", "11-05", "ewd"),
    ]);
    list.extend(other);
    assert_eq!(list.len(), 4);
    assert_eq!(
        sorted(&list),
        vec![
            ("Ada Lovelace".to_string(), "10-12".to_string(), "ada".to_string()),
            ("Alan Turing".to_string(), "23-06".to_string(), "".to_string()),
            ("Edsger Dijkstra".to_string(), "11-05".to_string(), "ewd".to_string()),
            ("Grace Hopper".to_string(), "09-12".to_string(), "grace".to_string()),
        ]
    );
}

#[test]
fn extend_with_itself_keeps_the_same_entries() {
    let mut list = three();
    list.extend(three());
    assert_eq!(list.len(), 3);
    assert_eq!(sorted(&list), sorted(&three()));
    list.extend(list.clone());
    assert_eq!(sorted(&list), sorted(&three()));
}

#[test]
fn extend_removes_duplicates_already_in_the_list() {
    let mut list = Birthdays::new(vec![
        birthday("Ada Lovelace", "10-12", "ada"),
        birthday("Ada Lovelace", "10-12", "ada"),
    ]);
    list.extend(Birthdays::default());
    assert_eq!(list.len(), 1);
    assert_eq!(list.get(0), Some(&birthday("Ada Lovelace", "10-12", "ada")));
}

#[test]
fn clone_copies_every_entry() {
    let list = three();
    let copy = list.clone();
    assert_eq!(copy.len(), 3);
    for i in 0..3 {
        assert_eq!(copy.get(i), list.get(i));
    }
}

#[test]
fn list_of_empty_says_so() {
    assert_eq!(Birthdays::default().list(), "Список дней рождений пуст");
    assert_eq!(Birthdays::default().list(), EMPTY_LIST_TEXT);
}

#[test]
fn list_numbers_entries_from_zero() {
    let text = three().list();
    assert_eq!(
        text,
        "Список дней рождений:\n\
         0. Ada Lovelace - 10-12 ada\n\
         1. Alan Turing - 23-06 \n\
         2. Grace Hopper - 09-12 grace\n"
    );
    assert!(text.starts_with(LIST_HEADER));
}

#[test]
fn list_numbers_with_two_digits() {
    let mut all = Vec::new();
    for i in 0..12 {
        all.push(birthday(&format!("N{} S", i), "01-01", ""));
    }
    let text = Birthdays::new(all).list();
    let lines: Vec<&str> = text.lines().collect();
    assert_eq!(lines.len(), 13);
    assert_eq!(lines[10], "9. N9 S - 01-01 ");
    assert_eq!(lines[11], "10. N10 S - 01-01 ");
    assert_eq!(lines[12], "11. N11 S - 01-01 ");
}
