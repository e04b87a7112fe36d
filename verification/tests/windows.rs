use kotori::window::{
    focus_after_close, get_available_id, get_reader_window, initialization_script, reader_menu_state,
    window_state_label, Focus, WindowKind,
};

fn labels(names: &[&str]) -> Vec<String> {
    names.iter().map(|s| s.to_string()).collect()
}

#[test]
fn window_labels() {
    assert_eq!(WindowKind::Main.label(), "main");
    assert_eq!(WindowKind::Reader(0).label(), "reader-0");
    assert_eq!(WindowKind::Reader(42).label(), "reader-42");
    assert_eq!(WindowKind::Reader(65535).label(), "reader-65535");
}

#[test]
fn labels_identify_windows() {
    let kinds = [WindowKind::Main, WindowKind::Reader(1), WindowKind::Reader(11), WindowKind::Reader(111)];
    for a in kinds {
        for b in kinds {
            assert_eq!(a.label() == b.label(), a == b);
        }
    }
}

#[test]
fn reader_window_is_found_by_its_label() {
    let open = labels(&["main", "reader-0", "reader-12", "reader-1"]);
    assert_eq!(get_reader_window(&open, 12), Some(2));
    assert_eq!(get_reader_window(&open, 1), Some(3));
    assert_eq!(get_reader_window(&open, 2), None);
}

#[test]
fn available_id_is_the_smallest_free_one() {
    assert_eq!(get_available_id(&labels(&["main"])), 0);
    assert_eq!(get_available_id(&labels(&["main", "reader-0", "reader-1", "reader-3"])), 2);
    assert_eq!(get_available_id(&labels(&["reader-1"])), 0);
    assert_eq!(get_available_id(&labels(&["reader-0", "reader-1", "reader-2"])), 3);
}

#[test]
fn initialization_script_tells_the_reader_its_id() {
    assert_eq!(initialization_script(3), "window.KOTORI = { readerWindowId: 3 }");
    assert_eq!(initialization_script(0), "window.KOTORI = { readerWindowId: 0 }");
    assert_eq!(initialization_script(907), "window.KOTORI = { readerWindowId: 907 }");
}

#[test]
fn closing_a_reader_focuses_the_one_before_it() {
    let (left, focus) = focus_after_close(&vec![4, 7, 9], 9);
    assert_eq!(left, vec![4, 7]);
    assert_eq!(focus, Focus::Reader(7));

    let (left, focus) = focus_after_close(&vec![4, 7, 9], 7);
    assert_eq!(left, vec![4, 9]);
    assert_eq!(focus, Focus::Reader(4));
}

#[test]
fn closing_the_first_reader_focuses_the_next_first() {
    let (left, focus) = focus_after_close(&vec![4, 7, 9], 4);
    assert_eq!(left, vec![7, 9]);
    assert_eq!(focus, Focus::Reader(7));
}

#[test]
fn closing_the_last_reader_focuses_the_library() {
    let (left, focus) = focus_after_close(&vec![5], 5);
    assert!(left.is_empty());
    assert_eq!(focus, Focus::Main);
}

#[test]
fn reader_menu_enables_items_by_context() {
    let state = reader_menu_state(false, 1);
    assert!(state.add_to_library);
    assert!(!state.close_others);
    let state = reader_menu_state(true, 3);
    assert!(!state.add_to_library);
    assert!(state.close_others);
}

#[test]
fn reader_windows_share_their_saved_state() {
    assert_eq!(window_state_label("reader-3"), "reader");
    assert_eq!(window_state_label("reader-12"), "reader");
    assert_eq!(window_state_label("main"), "main");
    assert_eq!(window_state_label("settings"), "settings");
}
