use chrono_forge::naming_service::{modify_name_with_count_of_equals, name_suffixes_fit};

fn names(list: &[&str]) -> Vec<String> {
    list.iter().map(|s| s.to_string()).collect()
}

#[test]
fn a_free_name_is_kept() {
    assert_eq!(modify_name_with_count_of_equals("Task", &names(&["Other", "Task2"])), "Task");
    assert_eq!(modify_name_with_count_of_equals("Task", &[]), "Task");
}

#[test]
fn a_taken_name_gets_suffix_one() {
    assert_eq!(modify_name_with_count_of_equals("Task", &names(&["Task"])), "Task(1)");
}

#[test]
fn the_suffix_follows_the_largest_one() {
    let others = names(&["Task", "Task(1)", "Task(7)", "Task(3)"]);
    assert_eq!(modify_name_with_count_of_equals("Task", &others), "Task(8)");
}

#[test]
fn a_suffix_alone_also_counts() {
    assert_eq!(modify_name_with_count_of_equals("Task", &names(&["Task(4)"])), "Task(5)");
}

#[test]
fn suffixes_are_read_as_rust_reads_u32() {
    assert_eq!(modify_name_with_count_of_equals("T", &names(&["T(+2)"])), "T(3)");
    assert_eq!(modify_name_with_count_of_equals("T", &names(&["T(007)"])), "T(8)");
    assert_eq!(modify_name_with_count_of_equals("T", &names(&["T(-1)", "T()", "T(+)", "T( 1)"])), "T");
    assert_eq!(modify_name_with_count_of_equals("T", &names(&["T(4294967296)"])), "T");
    assert_eq!(modify_name_with_count_of_equals("T", &names(&["T(1)x", "xT(1)", "T1)"])), "T");
}

#[test]
fn the_largest_suffix_that_fits() {
    let others = names(&["T(4294967294)"]);
    assert!(name_suffixes_fit("T", &others));
    assert_eq!(modify_name_with_count_of_equals("T", &others), "T(4294967295)");
    assert!(!name_suffixes_fit("T", &names(&["T(4294967295)"])));
    assert!(name_suffixes_fit("T", &names(&["T(4294967296)"])));
}

#[test]
fn non_ascii_names_are_handled_by_character() {
    let others = names(&["Zeitschmiede ✓", "Zeitschmiede ✓(2)"]);
    assert_eq!(modify_name_with_count_of_equals("Zeitschmiede ✓", &others), "Zeitschmiede ✓(3)");
}

#[test]
fn the_result_is_never_an_existing_name() {
    let others = names(&["A", "A(1)", "A(1)(1)", "A(2)", "B"]);
    let result = modify_name_with_count_of_equals("A", &others);
    assert_eq!(result, "A(3)");
    assert!(!others.contains(&result));
}

#[test]
fn the_order_of_the_other_names_does_not_matter() {
    let names = vec!["Work".to_string(), "Work(4)".to_string(), "Home".to_string(), "Work(2)".to_string()];
    let mut reversed = names.clone();
    reversed.reverse();
    assert_eq!(modify_name_with_count_of_equals("Work", &names), "Work(5)");
    assert_eq!(modify_name_with_count_of_equals("Work", &reversed), "Work(5)");
}
