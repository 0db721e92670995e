use rust_basics::collection::{add_to_each, element_at, get_element, join_with_dashes, push_values};

#[test]
fn push_values_appends_in_order() {
    let mut v: Vec<i32> = Vec::new();
    push_values(&mut v, &vec![5, 6, 7, 8]);
    assert_eq!(v, vec![5, 6, 7, 8]);
    push_values(&mut v, &vec![]);
    assert_eq!(v, vec![5, 6, 7, 8]);
}

#[test]
fn safe_access_present_for_each_index() {
    let v = vec![1, 2, 3, 4, 5];
    for i in 0..5 {
        assert_eq!(get_element(&v, i), Some(v[i]));
    }
    assert_eq!(get_element(&v, 2), Some(3));
}

#[test]
fn safe_access_absent_past_end() {
    let v = vec![1, 2, 3, 4, 5];
    assert_eq!(get_element(&v, 5), None);
    assert_eq!(get_element(&v, usize::MAX), None);
}

#[test]
fn direct_access_in_range() {
    let v = vec![1, 2, 3, 4, 5];
    assert_eq!(element_at(&v, 2), 3);
    assert_eq!(element_at(&v, 4), 5);
}

#[test]
fn add_to_each_changes_in_place() {
    let mut v = vec![100, 32, 57];
    add_to_each(&mut v, 50);
    assert_eq!(v, vec![150, 82, 107]);
}

#[test]
fn add_to_each_on_empty() {
    let mut v: Vec<i32> = Vec::new();
    add_to_each(&mut v, 50);
    assert!(v.is_empty());
}

#[test]
fn join_tic_tac_toe() {
    let s = join_with_dashes(String::from("tic"), "tac", "toe");
    assert_eq!(s, "tic-tac-toe");
}
