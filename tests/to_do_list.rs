use to_do_list::text::{is_text_equal, is_text_less};
use to_do_list::{
    list_file_exists, record_file_name, record_path, saved_file_name, sort_list, Date, Item, Priority,
    ToDoList, ToDoSelectionError,
};

fn day(year: i32, month: u32, day: u32) -> Date {
    Date { year, month, day }
}

fn sample_list() -> ToDoList {
    let mut list = ToDoList::create_to_do_list("example", "An example list");
    list.create_item_on("test1", "First test Item", "High", None, false, day(2024, 1, 5)).unwrap();
    list.create_item_on("test2", "Second test Item", "low", Some((2024, 2, 10)), false, day(2024, 1, 6))
        .unwrap();
    list
}

#[test]
fn it_sorts_hashmap() {
    let map: Vec<(String, u32)> = vec![("d".to_string(), 1), ("b".to_string(), 2), ("a".to_string(), 1)];

    let vec = sort_list(&map);

    assert_eq!(vec[0].0, "a");
    assert_eq!(vec[1].0, "b");
    assert_eq!(vec[2].0, "d");
}

#[test]
fn item_can_be_modified() {
    let mut test_list = sample_list();
    // Description before the change
    let item_ref_before = test_list.get_item_ref("test1").unwrap();
    assert_eq!(item_ref_before.get_description(), "First test Item");
    // Modify the description value
    test_list.update_item_description("test1", "Modified Description").unwrap();
    let item_ref_after = test_list.get_item_ref("test1").unwrap();
    assert_eq!(item_ref_after.get_description(), "Modified Description");
}

#[test]
fn priority_parses_labels_ignoring_case() {
    assert_eq!(Priority::from_str("low"), Priority::Low);
    assert_eq!(Priority::from_str("Medium"), Priority::Medium);
    assert_eq!(Priority::from_str("HIGH"), Priority::High);
    assert_eq!(Priority::from_str("hIgH"), Priority::High);
    assert_eq!(Priority::from_str(""), Priority::Invalid);
    assert_eq!(Priority::from_str("urgent"), Priority::Invalid);
    assert_eq!(Priority::from_str(" low"), Priority::Invalid);
    assert_eq!(Priority::from_lowercase("High"), Priority::Invalid);
    assert_eq!(Priority::from_lowercase("high"), Priority::High);
}

#[test]
fn priority_labels() {
    assert_eq!(Priority::Low.label(), "Low");
    assert_eq!(Priority::Medium.label(), "Medium");
    assert_eq!(Priority::High.label(), "High");
    assert_eq!(Priority::Invalid.label(), "Invalid");
}

#[test]
fn distinct_items_are_both_found() {
    let mut list = ToDoList::create_to_do_list("l", "d");
    list.create_item_on("n1", "first", "high", Some((2030, 1, 2)), false, day(2024, 3, 1)).unwrap();
    list.create_item_on("n2", "second", "low", None, false, day(2024, 3, 2)).unwrap();
    assert!(list.list_contains_item("n1"));
    assert!(list.list_contains_item("n2"));
    assert!(!list.list_contains_item("n3"));
    let it = list.get_item_ref("n1").unwrap();
    assert_eq!(it.get_name(), "n1");
    assert_eq!(it.get_description(), "first");
    assert_eq!(*it.get_priority(), Priority::High);
    assert_eq!(*it.get_creation_date(), day(2024, 3, 1));
    assert_eq!(*it.get_due_date(), Some(day(2030, 1, 2)));
    assert!(!it.is_completed());
}

#[test]
fn create_without_replace_is_refused() {
    let mut list = ToDoList::create_to_do_list("l", "d");
    assert_eq!(list.create_item_on("n", "first", "high", None, false, day(2024, 3, 1)), Ok(()));
    assert_eq!(
        list.create_item_on("n", "second", "low", Some((2025, 1, 1)), false, day(2024, 3, 2)),
        Err(ToDoSelectionError::ToDoAlreadyPresent)
    );
    let it = list.get_item_ref("n").unwrap();
    assert_eq!(it.get_description(), "first");
    assert_eq!(*it.get_priority(), Priority::High);
    assert_eq!(*it.get_creation_date(), day(2024, 3, 1));
    assert_eq!(*it.get_due_date(), None);
    assert_eq!(list.get_items().len(), 1);
}

#[test]
fn create_with_replace_overwrites() {
    let mut list = ToDoList::create_to_do_list("l", "d");
    assert_eq!(list.create_item_on("n", "first", "high", None, true, day(2024, 3, 1)), Ok(()));
    list.close_list_item("n").unwrap();
    assert_eq!(list.create_item_on("n", "second", "low", Some((2025, 1, 1)), true, day(2024, 3, 2)), Ok(()));
    let it = list.get_item_ref("n").unwrap();
    assert_eq!(it.get_description(), "second");
    assert_eq!(*it.get_priority(), Priority::Low);
    assert_eq!(*it.get_creation_date(), day(2024, 3, 2));
    assert_eq!(*it.get_due_date(), Some(day(2025, 1, 1)));
    assert!(!it.is_completed());
    assert_eq!(list.get_items().len(), 1);
}

#[test]
fn create_item_dates_it_today() {
    let mut list = ToDoList::create_to_do_list("l", "d");
    assert_eq!(list.create_item("n", "first", "medium", None, false), Ok(()));
    assert_eq!(list.create_item("n", "again", "low", None, false), Err(ToDoSelectionError::ToDoAlreadyPresent));
    let it = list.get_item_ref("n").unwrap();
    assert_eq!(*it.get_creation_date(), Date::today());
    assert_eq!(*it.get_priority(), Priority::Medium);
}

#[test]
fn delete_then_lookup_fails() {
    let mut list = sample_list();
    assert_eq!(list.delete_item("test1"), Ok(()));
    assert!(matches!(list.get_item_ref("test1"), Err(ToDoSelectionError::ToDoNotFound)));
    assert!(list.list_contains_item("test2"));
    assert_eq!(list.delete_item("test1"), Err(ToDoSelectionError::ToDoNotFound));
    assert_eq!(list.delete_item("absent"), Err(ToDoSelectionError::ToDoNotFound));
    assert_eq!(list.get_items().len(), 1);
    assert_eq!(list.get_item_ref("test2").unwrap().get_description(), "Second test Item");
}

#[test]
fn updates_on_absent_items_fail() {
    let mut list = sample_list();
    assert_eq!(list.update_item_description("x", "d"), Err(ToDoSelectionError::ToDoNotFound));
    assert_eq!(list.update_item_priority("x", "low"), Err(ToDoSelectionError::ToDoNotFound));
    assert_eq!(list.update_item_due_date("x", (2024, 1, 1)), Err(ToDoSelectionError::ToDoNotFound));
    assert_eq!(list.close_list_item("x"), Err(ToDoSelectionError::ToDoNotFound));
    assert_eq!(list.open_list_item("x"), Err(ToDoSelectionError::ToDoNotFound));
    assert_eq!(list.get_items().len(), 2);
}

#[test]
fn priority_and_due_date_can_be_updated() {
    let mut list = sample_list();
    list.update_item_priority("test1", "MEDIUM").unwrap();
    assert_eq!(*list.get_item_ref("test1").unwrap().get_priority(), Priority::Medium);
    list.update_item_priority("test1", "none").unwrap();
    assert_eq!(*list.get_item_ref("test1").unwrap().get_priority(), Priority::Invalid);
    list.update_item_due_date("test1", (2024, 2, 29)).unwrap();
    assert_eq!(*list.get_item_ref("test1").unwrap().get_due_date(), Some(day(2024, 2, 29)));
    // An invalid date leaves the due date as it was.
    assert_eq!(list.update_item_due_date("test1", (2023, 2, 29)), Ok(()));
    assert_eq!(*list.get_item_ref("test1").unwrap().get_due_date(), Some(day(2024, 2, 29)));
}

#[test]
fn save_and_load_round_trip() {
    let mut list = sample_list();
    list.close_list_item("test2").unwrap();
    let mut stored: Vec<(String, Item)> = Vec::new();
    for (key, it) in list.get_items() {
        let copy = Item::from_parts(
            it.get_name(),
            it.get_description(),
            *it.get_priority(),
            *it.get_creation_date(),
            *it.get_due_date(),
            it.is_completed(),
        )
        .unwrap();
        stored.push((key.clone(), copy));
    }
    let loaded = ToDoList::from_parts(list.get_name(), list.get_description(), stored).unwrap();
    assert_eq!(loaded.get_name(), "example");
    assert_eq!(loaded.get_description(), "An example list");
    assert_eq!(loaded.get_items().len(), 2);
    for name in ["test1", "test2"] {
        let a = list.get_item_ref(name).unwrap();
        let b = loaded.get_item_ref(name).unwrap();
        assert_eq!(a.get_name(), b.get_name());
        assert_eq!(a.get_description(), b.get_description());
        assert_eq!(a.get_priority(), b.get_priority());
        assert_eq!(a.get_creation_date(), b.get_creation_date());
        assert_eq!(a.get_due_date(), b.get_due_date());
        assert_eq!(a.is_completed(), b.is_completed());
    }
    assert!(loaded.get_item_ref("test2").unwrap().is_completed());
}

#[test]
fn restoring_refuses_bad_records() {
    let item = |name: &str| Item::from_parts(name, "d", Priority::Low, day(2024, 1, 1), None, false).unwrap();
    let dup = vec![("a".to_string(), item("a")), ("a".to_string(), item("a"))];
    assert!(ToDoList::from_parts("l", "d", dup).is_none());
    let mismatched = vec![("a".to_string(), item("b"))];
    assert!(ToDoList::from_parts("l", "d", mismatched).is_none());
    let fine = vec![("a".to_string(), item("a")), ("b".to_string(), item("b"))];
    assert!(ToDoList::from_parts("l", "d", fine).is_some());
    assert!(Item::from_parts("a", "d", Priority::Low, day(2023, 2, 29), None, false).is_none());
    assert!(Item::from_parts("a", "d", Priority::Low, day(2024, 1, 1), Some(day(2024, 4, 31)), false).is_none());
}

#[test]
fn ordered_view_sorts_by_name() {
    let mut list = ToDoList::create_to_do_list("l", "d");
    for name in ["d", "b", "a"] {
        list.create_item_on(name, "x", "low", None, false, day(2024, 1, 1)).unwrap();
    }
    let view = ToDoList::list_all_items(list.get_items());
    let names: Vec<&str> = view.iter().map(|e| e.0.as_str()).collect();
    assert_eq!(names, vec!["a", "b", "d"]);

    let mut other = ToDoList::create_to_do_list("l", "d");
    for name in ["a", "d", "b"] {
        other.create_item_on(name, "x", "low", None, false, day(2024, 1, 1)).unwrap();
    }
    let view = ToDoList::list_all_items(other.get_items());
    let names: Vec<&str> = view.iter().map(|e| e.1.get_name()).collect();
    assert_eq!(names, vec!["a", "b", "d"]);
}

#[test]
fn sort_orders_by_code_point_and_prefix() {
    let map: Vec<(String, u32)> = vec![
        ("ab".to_string(), 1),
        ("a".to_string(), 2),
        ("B".to_string(), 3),
        ("é".to_string(), 4),
        ("".to_string(), 5),
    ];
    let vec = sort_list(&map);
    let keys: Vec<&str> = vec.iter().map(|e| e.0.as_str()).collect();
    assert_eq!(keys, vec!["", "B", "a", "ab", "é"]);
    assert_eq!(*vec[1].1, 3);
    let empty: Vec<(String, u32)> = Vec::new();
    assert!(sort_list(&empty).is_empty());
}

#[test]
fn overdue_filtering() {
    let today = day(2024, 6, 15);
    let mut list = ToDoList::create_to_do_list("l", "d");
    list.create_item_on("late", "x", "low", Some((2024, 6, 14)), false, day(2024, 1, 1)).unwrap();
    list.create_item_on("due_today", "x", "low", Some((2024, 6, 15)), false, day(2024, 1, 1)).unwrap();
    list.create_item_on("no_date", "x", "low", None, false, day(2024, 1, 1)).unwrap();
    list.create_item_on("last_year", "x", "low", Some((2023, 12, 31)), false, day(2023, 1, 1)).unwrap();
    let overdue = list.filter_overdue_items_on(&today);
    let names: Vec<&str> = ToDoList::list_all_items(&overdue).iter().map(|e| e.0.as_str()).collect();
    assert_eq!(names, vec!["last_year", "late"]);

    list.close_list_item("late").unwrap();
    let overdue = list.filter_overdue_items_on(&today);
    let names: Vec<&str> = ToDoList::list_all_items(&overdue).iter().map(|e| e.0.as_str()).collect();
    assert_eq!(names, vec!["last_year"]);
    assert!(list.list_contains_item("late"));
    assert!(list.get_item_ref("late").unwrap().is_overdue_on(&today));
    assert!(!list.get_item_ref("no_date").unwrap().is_overdue_on(&today));
    assert!(!list.get_item_ref("no_date").unwrap().is_overdue());
}

#[test]
fn overdue_against_the_clock() {
    let mut list = ToDoList::create_to_do_list("l", "d");
    list.create_item("past", "x", "low", Some((2000, 1, 1)), false).unwrap();
    list.create_item("future", "x", "low", Some((200000, 1, 1)), false).unwrap();
    list.create_item("none", "x", "low", None, false).unwrap();
    assert!(list.get_item_ref("past").unwrap().is_overdue());
    assert!(!list.get_item_ref("future").unwrap().is_overdue());
    let overdue = list.filter_overdue_items();
    assert_eq!(overdue.len(), 1);
    assert_eq!(overdue[0].0, "past");
}

#[test]
fn open_items_filter() {
    let mut list = sample_list();
    list.close_list_item("test1").unwrap();
    let open = list.filter_open_items();
    assert_eq!(open.len(), 1);
    assert_eq!(open[0].0, "test2");
    assert_eq!(open[0].1.get_description(), "Second test Item");
    list.open_list_item("test1").unwrap();
    assert_eq!(list.filter_open_items().len(), 2);
}

#[test]
fn invalid_due_date_is_left_out() {
    let mut list = ToDoList::create_to_do_list("l", "d");
    assert_eq!(list.create_item_on("m13", "x", "low", Some((2024, 13, 1)), false, day(2024, 1, 1)), Ok(()));
    assert_eq!(list.create_item_on("apr31", "x", "low", Some((2024, 4, 31)), false, day(2024, 1, 1)), Ok(()));
    assert_eq!(list.create_item_on("feb29", "x", "low", Some((2023, 2, 29)), false, day(2024, 1, 1)), Ok(()));
    assert_eq!(list.create_item_on("leap", "x", "low", Some((2024, 2, 29)), false, day(2024, 1, 1)), Ok(()));
    assert_eq!(*list.get_item_ref("m13").unwrap().get_due_date(), None);
    assert_eq!(*list.get_item_ref("apr31").unwrap().get_due_date(), None);
    assert_eq!(*list.get_item_ref("feb29").unwrap().get_due_date(), None);
    assert_eq!(*list.get_item_ref("leap").unwrap().get_due_date(), Some(day(2024, 2, 29)));
}

#[test]
fn calendar_validity() {
    assert_eq!(Date::from_ymd(2024, 2, 29), Some(day(2024, 2, 29)));
    assert_eq!(Date::from_ymd(1900, 2, 29), None);
    assert_eq!(Date::from_ymd(2000, 2, 29), Some(day(2000, 2, 29)));
    assert_eq!(Date::from_ymd(2024, 0, 1), None);
    assert_eq!(Date::from_ymd(2024, 1, 0), None);
    assert_eq!(Date::from_ymd(2024, 12, 31), Some(day(2024, 12, 31)));
    assert_eq!(Date::from_ymd(2024, 6, 31), None);
    assert_eq!(Date::from_ymd(262142, 12, 31), Some(day(262142, 12, 31)));
    assert_eq!(Date::from_ymd(262143, 1, 1), None);
    assert_eq!(Date::from_ymd(-262143, 1, 1), Some(day(-262143, 1, 1)));
    assert_eq!(Date::from_ymd(-262144, 1, 1), None);
    assert_eq!(Date::from_ymd(-4, 2, 29), Some(day(-4, 2, 29)));
}

#[test]
fn date_order() {
    assert!(day(2023, 12, 31).is_before(&day(2024, 1, 1)));
    assert!(day(2024, 1, 31).is_before(&day(2024, 2, 1)));
    assert!(day(2024, 2, 1).is_before(&day(2024, 2, 2)));
    assert!(!day(2024, 2, 2).is_before(&day(2024, 2, 2)));
    assert!(!day(2024, 3, 1).is_before(&day(2024, 2, 28)));
    assert!(day(-1, 12, 31).is_before(&day(0, 1, 1)));
}

#[test]
fn complete_and_reopen_are_idempotent() {
    let mut list = sample_list();
    assert_eq!(list.close_list_item("test1"), Ok(()));
    assert_eq!(list.close_list_item("test1"), Ok(()));
    assert!(list.get_item_ref("test1").unwrap().is_completed());
    assert_eq!(list.open_list_item("test2"), Ok(()));
    assert_eq!(list.open_list_item("test2"), Ok(()));
    assert!(!list.get_item_ref("test2").unwrap().is_completed());
    assert_eq!(list.open_list_item("test1"), Ok(()));
    assert!(!list.get_item_ref("test1").unwrap().is_completed());
}

#[test]
fn display_lines() {
    let list = sample_list();
    assert_eq!(list.display_line(), "Name: example\tDescription: An example list");
    let a = list.get_item_ref("test1").unwrap();
    assert_eq!(
        a.display_line(),
        "Name: test1\tDescription: First test Item\tPriority: High\tCreation Date:2024-01-05\tDue Date: NA"
    );
    let b = list.get_item_ref("test2").unwrap();
    assert_eq!(
        b.display_line(),
        "Name: test2\tDescription: Second test Item\tPriority: Low\tCreation Date:2024-01-06\tDue Date:2024-02-10"
    );
    assert_eq!(day(2024, 3, 7).to_text(), "2024-03-07");
}

#[test]
fn error_messages() {
    assert_eq!(ToDoSelectionError::ToDoNotFound.message(), "The expected To-Do item does not exist.");
    assert_eq!(ToDoSelectionError::ToDoAlreadyPresent.message(), "The submitted To-Do item already exists.");
}

#[test]
fn record_names() {
    assert_eq!(saved_file_name("example"), "example.json");
    assert_eq!(record_file_name("example"), "example.json");
    assert_eq!(record_file_name("example.json"), "example.json");
    assert_eq!(record_file_name("notes.txt"), "notes.txt");
    assert_eq!(record_file_name(&saved_file_name("example")), record_file_name("example"));
    assert_eq!(record_path("example.json"), "./lists/example.json");
}

#[test]
fn list_files_are_found_with_or_without_extension() {
    let files = vec!["example.json".to_string(), "plain".to_string()];
    assert!(list_file_exists("example", &files));
    assert!(list_file_exists("example.json", &files));
    assert!(list_file_exists("plain", &files));
    assert!(!list_file_exists("other", &files));
    assert!(!list_file_exists("exam", &files));
    assert!(!list_file_exists("example", &Vec::new()));
}

#[test]
fn text_order_and_equality() {
    assert!(is_text_less("a", "b"));
    assert!(is_text_less("a", "ab"));
    assert!(!is_text_less("ab", "a"));
    assert!(!is_text_less("a", "a"));
    assert!(is_text_less("", "a"));
    assert!(is_text_less("Z", "a"));
    assert!(is_text_equal("abc", "abc"));
    assert!(!is_text_equal("abc", "abd"));
    assert!(!is_text_equal("abc", "ab"));
}

#[test]
fn display_lists_items_by_name() {
    let mut list = ToDoList::create_to_do_list("l", "d");
    list.create_item_on("b", "second", "low", Some((2000, 1, 1)), false, day(1999, 1, 1)).unwrap();
    list.create_item_on("a", "first", "high", None, false, day(1999, 1, 2)).unwrap();
    list.create_item_on("c", "third", "medium", Some((2000, 1, 2)), false, day(1999, 1, 3)).unwrap();
    list.close_list_item("c").unwrap();
    let all = list.display_all_items();
    assert_eq!(
        all,
        vec![
            "Name: a\tDescription: first\tPriority: High\tCreation Date:1999-01-02\tDue Date: NA".to_string(),
            "Name: b\tDescription: second\tPriority: Low\tCreation Date:1999-01-01\tDue Date:2000-01-01".to_string(),
            "Name: c\tDescription: third\tPriority: Medium\tCreation Date:1999-01-03\tDue Date:2000-01-02".to_string(),
        ]
    );
    let open = list.display_all_open_items();
    assert_eq!(open.len(), 2);
    assert!(open[0].starts_with("Name: a\t"));
    assert!(open[1].starts_with("Name: b\t"));
    let overdue = list.display_all_overdue_items();
    assert_eq!(overdue.len(), 1);
    assert!(overdue[0].starts_with("Name: b\t"));
}
