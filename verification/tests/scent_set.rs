use robot_grid::ScentSet;

#[test]
fn scent_set_starts_empty() {
    let scents = ScentSet::new();
    assert_eq!(scents.len(), 0);
    assert!(!scents.contains(0, 0));
}

#[test]
fn inserting_marks_exactly_that_cell() {
    let mut scents = ScentSet::new();
    scents.insert(3, -1);
    assert_eq!(scents.len(), 1);
    assert!(scents.contains(3, -1));
    assert!(!scents.contains(-1, 3));
    assert!(!scents.contains(3, 1));
}

#[test]
fn inserting_twice_changes_nothing() {
    let mut scents = ScentSet::new();
    scents.insert(0, -1);
    scents.insert(0, -1);
    assert_eq!(scents.len(), 1);
    scents.insert(51, 7);
    assert_eq!(scents.len(), 2);
    assert!(scents.contains(0, -1));
    assert!(scents.contains(51, 7));
}
