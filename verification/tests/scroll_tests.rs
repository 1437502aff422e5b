use rat_ftable::scroll::ScrollAxis;

#[test]
fn scroll_axis_starts_empty() {
    let s = ScrollAxis::new();
    assert_eq!(s.offset, 0);
    assert_eq!(s.max_offset, 0);
    assert_eq!(s.page_len, 0);
}

#[test]
fn set_offset_reports_change() {
    let mut s = ScrollAxis::new();
    assert!(s.set_offset(5));
    assert!(!s.set_offset(5));
    assert_eq!(s.offset(), 5);
}

#[test]
fn set_offset_allows_overscroll() {
    let mut s = ScrollAxis::new();
    s.set_max_offset(10);
    assert!(s.set_offset(1_000_000));
    assert_eq!(s.offset(), 1_000_000);
}

#[test]
fn scroll_down_clamps_to_max() {
    let mut s = ScrollAxis::new();
    s.set_max_offset(10);
    assert!(s.scroll_down(25));
    assert_eq!(s.offset(), 10);
    assert!(!s.scroll_down(1));
}

#[test]
fn scroll_up_clamps_to_zero() {
    let mut s = ScrollAxis::new();
    s.set_offset(3);
    assert!(s.scroll_up(10));
    assert_eq!(s.offset(), 0);
}

#[test]
fn scroll_to_pos_moves_just_enough() {
    let mut s = ScrollAxis::new();
    s.set_page_len(10);
    // below the page: target becomes the last visible position
    assert!(s.scroll_to_pos(25));
    assert_eq!(s.offset(), 16);
    // above the page: target becomes the first visible position
    assert!(s.scroll_to_pos(3));
    assert_eq!(s.offset(), 3);
    // already visible: nothing moves
    assert!(!s.scroll_to_pos(7));
    assert_eq!(s.offset(), 3);
}

#[test]
fn scroll_to_pos_is_idempotent() {
    // the same target twice never moves the offset a second time
    let mut s = ScrollAxis::new();
    s.set_page_len(10);
    s.scroll_to_pos(25);
    let once = s.offset();
    assert!(!s.scroll_to_pos(25));
    assert_eq!(s.offset(), once);

    s.scroll_to_pos(2);
    let once = s.offset();
    assert!(!s.scroll_to_pos(2));
    assert_eq!(s.offset(), once);
}

#[test]
fn items_added_shifts_offset_and_max() {
    let mut s = ScrollAxis::new();
    s.set_offset(5);
    s.set_max_offset(20);
    s.items_added(3, 2);
    assert_eq!(s.offset(), 7);
    assert_eq!(s.max_offset(), 22);
    s.items_added(100, 2);
    assert_eq!(s.offset(), 7);
    assert_eq!(s.max_offset(), 24);
}

#[test]
fn items_removed_shifts_back() {
    let mut s = ScrollAxis::new();
    s.set_offset(7);
    s.set_max_offset(24);
    s.items_removed(3, 2);
    assert_eq!(s.offset(), 5);
    assert_eq!(s.max_offset(), 22);
}

#[test]
fn scroll_by_defaults_to_a_tenth() {
    let mut s = ScrollAxis::new();
    s.set_page_len(50);
    assert_eq!(s.scroll_by(), 5);
    s.set_page_len(3);
    assert_eq!(s.scroll_by(), 1);
    s.set_scroll_by(Some(7));
    assert_eq!(s.scroll_by(), 7);
}

#[test]
fn scroll_to_pos_is_idempotent_with_empty_page() {
    // before any render the page is empty; the target itself becomes
    // the offset, and a second call never moves it again
    let mut s = ScrollAxis::new();
    assert_eq!(s.page_len(), 0);
    assert!(s.scroll_to_pos(42));
    assert_eq!(s.offset(), 42);
    assert!(!s.scroll_to_pos(42));
    assert_eq!(s.offset(), 42);
}
