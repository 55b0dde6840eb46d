use leviathan_lab::model::body_hierarchy::BodyHierarchy;
use leviathan_lab::model::naming::{contains_name, format_numbered};

fn names(list: &[&str]) -> Vec<String> {
    list.iter().map(|s| s.to_string()).collect()
}

#[test]
fn unique_name_keeps_a_free_base() {
    assert_eq!(BodyHierarchy::unique_name("Fin", &names(&[])), "Fin");
    assert_eq!(BodyHierarchy::unique_name("Fin", &names(&["Body", "Fin.001"])), "Fin");
}

#[test]
fn unique_name_numbers_a_taken_base() {
    assert_eq!(BodyHierarchy::unique_name("Fin", &names(&["Fin"])), "Fin.001");
    assert_eq!(
        BodyHierarchy::unique_name("Fin", &names(&["Fin", "Fin.001", "Fin.002"])),
        "Fin.003"
    );
}

#[test]
fn unique_name_takes_the_smallest_free_number() {
    assert_eq!(
        BodyHierarchy::unique_name("Fin", &names(&["Fin.002", "Fin", "Fin.003"])),
        "Fin.001"
    );
    assert_eq!(
        BodyHierarchy::unique_name("Fin", &names(&["Fin", "Fin.001", "Fin.003"])),
        "Fin.002"
    );
}

#[test]
fn unique_name_goes_past_three_digits() {
    let mut taken = vec!["Eye".to_string()];
    for i in 1..=1000u32 {
        taken.push(format!("Eye.{:03}", i));
    }
    assert_eq!(BodyHierarchy::unique_name("Eye", &taken), "Eye.1001");
}

#[test]
fn numbered_names_are_zero_padded() {
    assert_eq!(format_numbered("Tail", 0), "Tail.000");
    assert_eq!(format_numbered("Tail", 7), "Tail.007");
    assert_eq!(format_numbered("Tail", 42), "Tail.042");
    assert_eq!(format_numbered("Tail", 100), "Tail.100");
    assert_eq!(format_numbered("Tail", 1234), "Tail.1234");
    assert_eq!(format_numbered("", 4294967295), ".4294967295");
}

#[test]
fn numbered_names_match_the_standard_formatting() {
    for i in [1u32, 9, 10, 99, 100, 999, 1000, 65536] {
        assert_eq!(format_numbered("Head", i), format!("{}.{:03}", "Head", i));
    }
}

#[test]
fn contains_name_compares_whole_names() {
    let list = names(&["Body", "Head"]);
    assert!(contains_name(&list, &"Head".to_string()));
    assert!(!contains_name(&list, &"Hea".to_string()));
    assert!(!contains_name(&list, &"Heads".to_string()));
}
