use dashlayer::windows::WindowManager;

#[test]
fn open_tracks_one_window_per_id() {
    let mut wm = WindowManager::new();
    let id = "w1".to_string();
    let prev = wm.open(&id, 11);
    assert_eq!(prev, None);
    let replaced = wm.open(&id, 22);
    assert_eq!(replaced, Some(11));
    let closed = wm.close(&id);
    assert_eq!(closed, Some(22));
    let again = wm.close(&id);
    assert_eq!(again, None);
}

#[test]
fn close_absent_window_is_not_an_error() {
    let mut wm = WindowManager::new();
    assert_eq!(wm.close(&"nobody".to_string()), None);
}

#[test]
fn windows_of_other_widgets_are_untouched() {
    let mut wm = WindowManager::new();
    let a = "a".to_string();
    let b = "b".to_string();
    wm.open(&a, 1);
    wm.open(&b, 2);
    assert_eq!(wm.open(&a, 3), Some(1));
    assert_eq!(wm.close(&b), Some(2));
    assert_eq!(wm.close(&a), Some(3));
}
