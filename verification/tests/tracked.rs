use spotify_mpris::util::ATracked;

#[test]
fn fresh_cell_reports_no_change() {
    let cell = ATracked::new(Some(7i32));
    assert_eq!(*cell.get(), Some(7));
    assert!(!cell.has_changed());
}

#[test]
fn differing_set_reports_change() {
    let mut cell = ATracked::new(Some("a".to_string()));
    cell.set(Some("b".to_string()));
    assert!(cell.has_changed());
    assert_eq!(*cell.get(), Some("b".to_string()));
}

#[test]
fn change_follows_last_value_not_history() {
    // The report tracks the current value against the acknowledged one,
    // however the intermediate writes matched and diverged.
    let mut cell = ATracked::new(Some(1i32));
    cell.set(Some(2));
    assert!(cell.has_changed());
    cell.set(Some(1));
    assert!(!cell.has_changed());
    cell.set(Some(3));
    cell.set(Some(2));
    cell.set(Some(1));
    assert!(!cell.has_changed());
    cell.set(None);
    assert!(cell.has_changed());
}

#[test]
fn set_of_equal_value_preserves_report() {
    let mut cell = ATracked::new(Some("x".to_string()));
    cell.set(Some("x".to_string()));
    assert!(!cell.has_changed());
    cell.set(Some("y".to_string()));
    cell.set(Some("y".to_string()));
    assert!(cell.has_changed());
    assert_eq!(*cell.get(), Some("y".to_string()));
}

#[test]
fn reset_clears_report_without_touching_value() {
    let mut cell = ATracked::new(Some(10i32));
    cell.set(Some(20));
    assert!(cell.has_changed());
    cell.reset();
    assert!(!cell.has_changed());
    assert_eq!(*cell.get(), Some(20));
}

#[test]
fn after_reset_report_stays_clear_until_differing_set() {
    let mut cell = ATracked::new(Some("a".to_string()));
    cell.set(Some("b".to_string()));
    cell.reset();
    assert!(!cell.has_changed());
    cell.set(Some("b".to_string()));
    assert!(!cell.has_changed());
    cell.set(Some("c".to_string()));
    assert!(cell.has_changed());
}

#[test]
fn reset_twice_is_reset_once() {
    let mut cell = ATracked::new(Some(false));
    cell.set(Some(true));
    cell.reset();
    let value_after_once = *cell.get();
    let changed_after_once = cell.has_changed();
    cell.reset();
    assert_eq!(*cell.get(), value_after_once);
    assert_eq!(cell.has_changed(), changed_after_once);
    assert!(!cell.has_changed());
}

#[test]
fn none_and_some_are_distinct_values() {
    let mut cell: ATracked<Option<u64>> = ATracked::new(None);
    assert!(!cell.has_changed());
    cell.set(Some(0));
    assert!(cell.has_changed());
    cell.set(None);
    assert!(!cell.has_changed());
}
