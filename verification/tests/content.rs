use nova::classic;
use nova::classic::content::Fill;
use nova::content::{get_all_content_names, ContentSelector};

#[test]
fn content_test_get_all_content_names() {
    assert_eq!(
        get_all_content_names(),
        ["Field", "Layers", "Threads", "Cloud"]
    );
}

#[test]
fn mod_test_get_all_content_names() {
    let names = classic::content::get_all_content_names();
    assert!(!names.is_empty());
    assert!(names.contains(&"Fill".to_string()));
    assert!(names.contains(&"Ramp".to_string()));
    assert!(names.contains(&"Simplex".to_string()));
}

#[test]
fn earliest_registry_lists_fill_and_ramp() {
    assert_eq!(
        classic::content::content::get_all_content_names(),
        ["Fill", "Ramp"]
    );
}

#[test]
fn classic_content_is_listed_in_order() {
    assert_eq!(
        classic::content::get_all_content_names(),
        ["Fill", "Ramp", "Simplex"]
    );
    assert_eq!(Fill::new().name(), "Fill");
}

#[test]
fn selector_limits_the_request_and_reports_changes() {
    let mut selector = ContentSelector::new();
    assert_eq!(selector.selected, usize::MAX);
    assert!(selector.select(1, 4));
    assert_eq!(selector.selected, 1);
    assert!(!selector.select(1, 4));
    assert!(selector.select(99, 4));
    assert_eq!(selector.selected, 3);
    assert!(!selector.select(usize::MAX, 4));
    assert_eq!(selector.selected, 3);
}

#[test]
fn classic_selector_ignores_missing_content() {
    let mut selector = ContentSelector::new();
    assert!(!selector.select_if_available(5, 3));
    assert_eq!(selector.selected, usize::MAX);
    assert!(selector.select_if_available(2, 3));
    assert_eq!(selector.selected, 2);
    assert!(!selector.select_if_available(2, 3));
    assert!(selector.select_if_available(0, 3));
    assert_eq!(selector.selected, 0);
}
